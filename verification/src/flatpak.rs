//! The application path that a Flatpak sandbox records in `/.flatpak-info`, an INI
//! file read with the `ini` crate.

use vstd::prelude::*;
use ini::{Ini, ParseError, Properties};

verus! {

#[verifier::external_type_specification]
#[verifier::external_body]
pub struct ExIni(Ini);

#[verifier::external_type_specification]
#[verifier::external_body]
pub struct ExProperties(Properties);

#[verifier::external_type_specification]
#[verifier::external_body]
pub struct ExParseError(ParseError);

/// What an `Ini` holds: for each section name (`None` is the general section) the
/// entries of the first section of that name, each key with its first value.
pub uninterp spec fn ini_contents(ini: Ini) -> Map<Option<Seq<char>>, Map<Seq<char>, Seq<char>>>;

/// What a `Properties` holds: each key with its first value.
pub uninterp spec fn properties_contents(p: Properties) -> Map<Seq<char>, Seq<char>>;

/// What `Ini::load_from_str` makes of a text with the default options: `None`
/// where it reports a parse error.
pub uninterp spec fn ini_parse(text: Seq<char>) -> Option<
    Map<Option<Seq<char>>, Map<Seq<char>, Seq<char>>>,
>;

/// `Ini::load_from_str`: succeeds exactly where the text parses, and then holds what
/// the text gives. The contents, a function of the text alone, are named and not
/// stated.
#[verifier::external_body]
fn ini_load_from_str(text: &str) -> (r: Result<Ini, ParseError>)
    ensures
        r is Ok <==> ini_parse(text@) is Some,
        r matches Ok(ini) ==> ini_parse(text@) == Some(ini_contents(ini)),
{
    Ini::load_from_str(text)
}

/// `Ini::section(Some(name))`: the first section called `name`, where there is one.
#[verifier::external_body]
fn ini_section<'a>(ini: &'a Ini, name: &str) -> (r: Option<&'a Properties>)
    ensures
        r is Some <==> ini_contents(*ini).dom().contains(Some(name@)),
        r matches Some(p) ==> properties_contents(*p) == ini_contents(*ini)[Some(name@)],
{
    ini.section(Some(name))
}

/// `Properties::get`: the first value of `key`, where the section has the key.
#[verifier::external_body]
fn properties_get<'a>(p: &'a Properties, key: &str) -> (r: Option<&'a str>)
    ensures
        r is Some <==> properties_contents(*p).dom().contains(key@),
        r matches Some(v) ==> v@ == properties_contents(*p)[key@],
{
    p.get(key)
}

/// Why `/.flatpak-info` gives no application path.
pub enum FlatpakInfoError {
    MissingInstanceSection,
    MissingAppPath,
}

/// The `app-path` entry of the `Instance` section of the text `info`; the empty
/// path where the text does not parse.
pub open spec fn flatpak_app_path_of(info: Seq<char>) -> Result<Seq<char>, FlatpakInfoError> {
    match ini_parse(info) {
        None => Ok(Seq::empty()),
        Some(c) => if !c.dom().contains(Some("Instance"@)) {
            Err(FlatpakInfoError::MissingInstanceSection)
        } else if !c[Some("Instance"@)].dom().contains("app-path"@) {
            Err(FlatpakInfoError::MissingAppPath)
        } else {
            Ok(c[Some("Instance"@)]["app-path"@])
        },
    }
}

/// The application path recorded in the text `info` of `/.flatpak-info`.
pub fn flatpak_app_path(info: &str) -> (r: String)
    requires
        flatpak_app_path_of(info@) is Ok,
    ensures
        flatpak_app_path_of(info@) == Ok::<Seq<char>, FlatpakInfoError>(r@),
{
    let ini = match ini_load_from_str(info) {
        Err(_) => return String::new(),
        Ok(ini) => ini,
    };
    let section = match ini_section(&ini, "Instance") {
        None => return String::new(),
        Some(section) => section,
    };
    match properties_get(section, "app-path") {
        None => String::new(),
        Some(app_path) => app_path.to_owned(),
    }
}

/// The application path recorded in `info`, or which entry is missing.
pub fn try_flatpak_app_path(info: &str) -> (r: Result<String, FlatpakInfoError>)
    ensures
        match flatpak_app_path_of(info@) {
            Ok(p) => r matches Ok(s) && s@ == p,
            Err(e) => r matches Err(e2) && e2 == e,
        },
{
    if let Ok(ini) = ini_load_from_str(info) {
        match ini_section(&ini, "Instance") {
            None => return Err(FlatpakInfoError::MissingInstanceSection),
            Some(section) => {
                if properties_get(section, "app-path").is_none() {
                    return Err(FlatpakInfoError::MissingAppPath);
                }
            },
        }
    }
    Ok(flatpak_app_path(info))
}


/// Law: where the text parses to `c` and its `Instance` section has an `app-path`
/// entry, the path is that entry's value, whatever else the section holds; a
/// missing section or key is reported as such; a text that does not parse gives
/// the empty path.
pub proof fn lemma_app_path_entry(
    info: Seq<char>,
    c: Map<Option<Seq<char>>, Map<Seq<char>, Seq<char>>>,
)
    ensures
        ini_parse(info) is None ==> flatpak_app_path_of(info) == Ok::<Seq<char>, FlatpakInfoError>(
            Seq::empty(),
        ),
        ini_parse(info) == Some(c) && c.dom().contains(Some("Instance"@)) && c[Some(
            "Instance"@,
        )].dom().contains("app-path"@) ==> flatpak_app_path_of(info) == Ok::<
            Seq<char>,
            FlatpakInfoError,
        >(c[Some("Instance"@)]["app-path"@]),
        ini_parse(info) == Some(c) && !c.dom().contains(Some("Instance"@))
            ==> flatpak_app_path_of(info) matches Err(FlatpakInfoError::MissingInstanceSection),
        ini_parse(info) == Some(c) && c.dom().contains(Some("Instance"@)) && !c[Some(
            "Instance"@,
        )].dom().contains("app-path"@) ==> flatpak_app_path_of(info) matches Err(
            FlatpakInfoError::MissingAppPath,
        ),
{
}

} // verus!
