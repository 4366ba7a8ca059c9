//! The firmware's memory device table, as `dmidecode --type 17` prints it.

use vstd::prelude::*;
use crate::mem_info::MemInfo;
use crate::text::{
    chars_of, line_end, lines, parse_unsigned, parse_unsigned_at, next_word, seq_equals,
    word_or_empty, words,
};

verus! {

/// One installed memory module.
#[derive(Debug, PartialEq, Eq)]
pub struct MemoryDevice {
    pub size: usize,
    pub form_factor: String,
    pub locator: String,
    pub bank_locator: String,
    pub ram_type: String,
    pub speed: usize,
    pub rank: u8,
}

/// A memory module as plain values.
pub struct MemoryDeviceView {
    pub size: usize,
    pub form_factor: Seq<char>,
    pub locator: Seq<char>,
    pub bank_locator: Seq<char>,
    pub ram_type: Seq<char>,
    pub speed: usize,
    pub rank: u8,
}

impl View for MemoryDevice {
    type V = MemoryDeviceView;

    open spec fn view(&self) -> MemoryDeviceView {
        MemoryDeviceView {
            size: self.size,
            form_factor: self.form_factor@,
            locator: self.locator@,
            bank_locator: self.bank_locator@,
            ram_type: self.ram_type@,
            speed: self.speed,
            rank: self.rank,
        }
    }
}

impl MemoryDeviceView {
    /// A module of which nothing is known yet.
    pub open spec fn empty() -> MemoryDeviceView {
        MemoryDeviceView {
            size: 0,
            form_factor: Seq::empty(),
            locator: Seq::empty(),
            bank_locator: Seq::empty(),
            ram_type: Seq::empty(),
            speed: 0,
            rank: 0,
        }
    }
}

impl Default for MemoryDevice {
    fn default() -> (r: Self)
        ensures
            r@ == MemoryDeviceView::empty(),
    {
        MemoryDevice {
            size: 0,
            form_factor: String::new(),
            locator: String::new(),
            bank_locator: String::new(),
            ram_type: String::new(),
            speed: 0,
            rank: 0,
        }
    }
}

/// The factor by which a `Size:` line's unit scales its number. Terabytes are
/// scaled as gigabytes are.
pub open spec fn size_multiplier(unit: Seq<char>) -> nat {
    if unit == "TB"@ {
        1024 * 1024 * 1024
    } else if unit == "GB"@ {
        1024 * 1024 * 1024
    } else if unit == "MB"@ {
        1024 * 1024
    } else if unit == "KB"@ {
        1024
    } else {
        1
    }
}

/// A word read as a `usize`, or 0.
pub open spec fn usize_or_zero(w: Seq<char>) -> nat {
    match parse_unsigned(w, usize::MAX as nat) {
        Some(v) => v,
        None => 0,
    }
}

/// The size that a `Size:` line gives, in bytes.
pub open spec fn size_in_bytes(line: Seq<char>) -> nat {
    match parse_unsigned(word_or_empty(line, 1), usize::MAX as nat) {
        Some(v) => v * size_multiplier(word_or_empty(line, 2)),
        None => 0,
    }
}

/// A line's size, where it is a `Size:` line with a unit, can be written as a `usize`.
pub open spec fn device_line_fits(line: Seq<char>) -> bool {
    word_or_empty(line, 0) == "Size:"@ && words(line).len() >= 3 ==> size_in_bytes(line)
        <= usize::MAX
}

/// The module after reading one line. The key is the line's first word, so the
/// two-word keys `Form Factor:` and `Bank Locator:` never match.
pub open spec fn device_apply_line(d: MemoryDeviceView, line: Seq<char>) -> MemoryDeviceView {
    let key = word_or_empty(line, 0);
    let value = word_or_empty(line, 1);
    if key == "Size:"@ {
        if words(line).len() >= 3 {
            MemoryDeviceView { size: size_in_bytes(line) as usize, ..d }
        } else {
            d
        }
    } else if key == "Form Factor:"@ {
        MemoryDeviceView { form_factor: value, ..d }
    } else if key == "Locator:"@ {
        MemoryDeviceView { locator: value, ..d }
    } else if key == "Bank Locator:"@ {
        MemoryDeviceView { bank_locator: value, ..d }
    } else if key == "Type:"@ {
        MemoryDeviceView { ram_type: value, ..d }
    } else if key == "Speed:"@ {
        MemoryDeviceView { speed: usize_or_zero(value) as usize, ..d }
    } else if key == "Rank:"@ {
        MemoryDeviceView {
            rank: (match parse_unsigned(value, 255) {
                Some(v) => v,
                None => 0,
            }) as u8,
            ..d
        }
    } else {
        d
    }
}

/// The module after reading the lines `ls` in order.
pub open spec fn device_apply_lines(d: MemoryDeviceView, ls: Seq<Seq<char>>) -> MemoryDeviceView
    decreases ls.len(),
{
    if ls.len() == 0 {
        d
    } else {
        device_apply_line(device_apply_lines(d, ls.drop_last()), ls.last())
    }
}

pub open spec fn occurs_at(s: Seq<char>, pat: Seq<char>, i: int) -> bool {
    0 <= i && i + pat.len() <= s.len() && s.subrange(i, i + pat.len()) == pat
}

/// The first position, from `i` on, at which `pat` occurs in `s`.
pub open spec fn find_from(s: Seq<char>, pat: Seq<char>, i: int) -> Option<int>
    decreases s.len() + 1 - i,
{
    if i < 0 || i + pat.len() > s.len() {
        None
    } else if occurs_at(s, pat, i) {
        Some(i)
    } else {
        find_from(s, pat, i + 1)
    }
}

/// The text after the first `Memory Device` heading of a `dmidecode` report
/// (`str::find` counts bytes and this counts characters; the heading is ASCII,
/// so both cut the report at the same place).
pub open spec fn after_first_device_heading(s: Seq<char>) -> Option<Seq<char>> {
    match find_from(s, "Memory Device"@, 0) {
        Some(i) => Some(s.skip(i + "Memory Device"@.len())),
        None => None,
    }
}

/// Every line of `text` fits.
pub open spec fn device_lines_fit(text: Seq<char>) -> bool {
    forall|i: int| 0 <= i < lines(text).len() ==> device_line_fits(#[trigger] lines(text)[i])
}

/// Every line after the first heading fits.
pub open spec fn memory_device_info_fits(s: Seq<char>) -> bool {
    match after_first_device_heading(s) {
        Some(rest) => device_lines_fit(rest),
        None => true,
    }
}

/// `String::push`: appends the character to the string.
#[verifier::external_body]
fn push_char(s: &mut String, c: char)
    ensures
        final(s)@ == old(s)@.push(c),
{
    s.push(c)
}

fn string_of(cs: &Vec<char>, a: usize, b: usize) -> (r: String)
    requires
        a <= b <= cs.len(),
    ensures
        r@ == cs@.subrange(a as int, b as int),
{
    let mut r = String::new();
    let mut i = a;
    while i < b
        invariant
            a <= i <= b <= cs.len(),
            r@ == cs@.subrange(a as int, i as int),
        decreases b - i,
    {
        push_char(&mut r, cs[i]);
        proof {
            assert(cs@.subrange(a as int, i + 1) =~= cs@.subrange(a as int, i as int).push(
                cs@[i as int],
            ));
        }
        i = i + 1;
    }
    r
}

/// Where `pat` first occurs in `cs`.
fn find_in(cs: &Vec<char>, pat: &Vec<char>) -> (r: Option<usize>)
    requires
        pat@.len() > 0,
    ensures
        r matches Some(i) ==> find_from(cs@, pat@, 0) == Some(i as int) && occurs_at(
            cs@,
            pat@,
            i as int,
        ),
        r is None ==> find_from(cs@, pat@, 0) is None,
{
    if pat.len() > cs.len() {
        return None;
    }
    let last = cs.len() - pat.len();
    let mut i: usize = 0;
    while i <= last
        invariant
            0 < pat.len() <= cs.len(),
            last == cs.len() - pat.len(),
            i <= last + 1,
            find_from(cs@, pat@, 0) == find_from(cs@, pat@, i as int),
        decreases last + 1 - i,
    {
        if seq_equals(cs, i, i + pat.len(), pat) {
            return Some(i);
        }
        i = i + 1;
    }
    None
}

/// The words of a line that the device fields are read from.
struct DeviceLine {
    key0: usize,
    key1: usize,
    value0: usize,
    value1: usize,
    unit0: usize,
    unit1: usize,
    has_unit: bool,
}

fn device_line_words(cs: &Vec<char>, a: usize, b: usize) -> (r: DeviceLine)
    requires
        a <= b <= cs.len(),
    ensures
        a <= r.key0 <= r.key1 <= b,
        a <= r.value0 <= r.value1 <= b,
        a <= r.unit0 <= r.unit1 <= b,
        word_or_empty(cs@.subrange(a as int, b as int), 0) == cs@.subrange(
            r.key0 as int,
            r.key1 as int,
        ),
        word_or_empty(cs@.subrange(a as int, b as int), 1) == cs@.subrange(
            r.value0 as int,
            r.value1 as int,
        ),
        word_or_empty(cs@.subrange(a as int, b as int), 2) == cs@.subrange(
            r.unit0 as int,
            r.unit1 as int,
        ),
        r.has_unit == (words(cs@.subrange(a as int, b as int)).len() >= 3),
{
    let (k0, k1) = next_word(cs, a, b);
    let (v0, v1) = next_word(cs, k1, b);
    let (u0, u1) = next_word(cs, v1, b);
    proof {
        let line = cs@.subrange(a as int, b as int);
        if k0 == k1 {
            assert(cs@.subrange(k0 as int, k1 as int) =~= Seq::<char>::empty());
            assert(cs@.subrange(v0 as int, v1 as int) =~= Seq::<char>::empty());
            assert(cs@.subrange(u0 as int, u1 as int) =~= Seq::<char>::empty());
        } else {
            assert(words(line)[0] == cs@.subrange(k0 as int, k1 as int));
            if v0 == v1 {
                assert(cs@.subrange(v0 as int, v1 as int) =~= Seq::<char>::empty());
                assert(cs@.subrange(u0 as int, u1 as int) =~= Seq::<char>::empty());
                assert(words(line).len() == 1);
            } else {
                assert(words(line)[1] == cs@.subrange(v0 as int, v1 as int));
                if u0 == u1 {
                    assert(cs@.subrange(u0 as int, u1 as int) =~= Seq::<char>::empty());
                    assert(words(line).len() == 2);
                } else {
                    assert(words(line)[2] == cs@.subrange(u0 as int, u1 as int));
                }
            }
        }
    }
    DeviceLine { key0: k0, key1: k1, value0: v0, value1: v1, unit0: u0, unit1: u1, has_unit: u0 < u1 }
}

/// The literal keys and units, as characters.
struct DeviceKeys {
    size: Vec<char>,
    form_factor: Vec<char>,
    locator: Vec<char>,
    bank_locator: Vec<char>,
    ram_type: Vec<char>,
    speed: Vec<char>,
    rank: Vec<char>,
    tb: Vec<char>,
    gb: Vec<char>,
    mb: Vec<char>,
    kb: Vec<char>,
}

impl DeviceKeys {
    spec fn wf(&self) -> bool {
        &&& self.size@ == "Size:"@
        &&& self.form_factor@ == "Form Factor:"@
        &&& self.locator@ == "Locator:"@
        &&& self.bank_locator@ == "Bank Locator:"@
        &&& self.ram_type@ == "Type:"@
        &&& self.speed@ == "Speed:"@
        &&& self.rank@ == "Rank:"@
        &&& self.tb@ == "TB"@
        &&& self.gb@ == "GB"@
        &&& self.mb@ == "MB"@
        &&& self.kb@ == "KB"@
    }

    fn new() -> (r: Self)
        ensures
            r.wf(),
    {
        DeviceKeys {
            size: chars_of("Size:"),
            form_factor: chars_of("Form Factor:"),
            locator: chars_of("Locator:"),
            bank_locator: chars_of("Bank Locator:"),
            ram_type: chars_of("Type:"),
            speed: chars_of("Speed:"),
            rank: chars_of("Rank:"),
            tb: chars_of("TB"),
            gb: chars_of("GB"),
            mb: chars_of("MB"),
            kb: chars_of("KB"),
        }
    }
}

impl MemoryDevice {
    fn apply_line(&mut self, cs: &Vec<char>, a: usize, b: usize, keys: &DeviceKeys)
        requires
            a <= b <= cs.len(),
            keys.wf(),
            device_line_fits(cs@.subrange(a as int, b as int)),
        ensures
            final(self)@ == device_apply_line(old(self)@, cs@.subrange(a as int, b as int)),
    {
        let ghost line = cs@.subrange(a as int, b as int);
        let w = device_line_words(cs, a, b);
        if seq_equals(cs, w.key0, w.key1, &keys.size) {
            if w.has_unit {
                let mult: usize = if seq_equals(cs, w.unit0, w.unit1, &keys.tb) {
                    1024 * 1024 * 1024
                } else if seq_equals(cs, w.unit0, w.unit1, &keys.gb) {
                    1024 * 1024 * 1024
                } else if seq_equals(cs, w.unit0, w.unit1, &keys.mb) {
                    1024 * 1024
                } else if seq_equals(cs, w.unit0, w.unit1, &keys.kb) {
                    1024
                } else {
                    1
                };
                proof {
                    assert(mult == size_multiplier(word_or_empty(line, 2)));
                }
                self.size = match parse_unsigned_at(cs, w.value0, w.value1, usize::MAX) {
                    Some(v) => v * mult,
                    None => 0,
                };
            }
        } else if seq_equals(cs, w.key0, w.key1, &keys.form_factor) {
            self.form_factor = string_of(cs, w.value0, w.value1);
        } else if seq_equals(cs, w.key0, w.key1, &keys.locator) {
            self.locator = string_of(cs, w.value0, w.value1);
        } else if seq_equals(cs, w.key0, w.key1, &keys.bank_locator) {
            self.bank_locator = string_of(cs, w.value0, w.value1);
        } else if seq_equals(cs, w.key0, w.key1, &keys.ram_type) {
            self.ram_type = string_of(cs, w.value0, w.value1);
        } else if seq_equals(cs, w.key0, w.key1, &keys.speed) {
            self.speed = match parse_unsigned_at(cs, w.value0, w.value1, usize::MAX) {
                Some(v) => v,
                None => 0,
            };
        } else if seq_equals(cs, w.key0, w.key1, &keys.rank) {
            self.rank = match parse_unsigned_at(cs, w.value0, w.value1, 255) {
                Some(v) => v as u8,
                None => 0,
            };
        }
    }
}

/// The position in `cs` where the text after the first heading starts.
fn device_section_start(cs: &Vec<char>) -> (r: Option<usize>)
    ensures
        match after_first_device_heading(cs@) {
            Some(rest) => r matches Some(p) && p <= cs.len() && rest == cs@.subrange(
                p as int,
                cs.len() as int,
            ),
            None => r is None,
        },
{
    let heading = chars_of("Memory Device");
    proof {
        reveal_strlit("Memory Device");
    }
    match find_in(cs, &heading) {
        Some(i) => {
            proof {
                assert(find_from(cs@, "Memory Device"@, 0) == Some(i as int));
                assert(after_first_device_heading(cs@) == Some(cs@.skip(i + heading@.len())));
                assert(cs@.skip(i + heading@.len()) =~= cs@.subrange(
                    i + heading@.len(),
                    cs.len() as int,
                ));
            }
            Some(i + heading.len())
        },
        None => None,
    }
}

impl MemInfo {
    /// Reads the memory modules from a `dmidecode --type 17` report: `None` where
    /// the report has no `Memory Device` heading; otherwise one module, read from
    /// every line after the first heading (a later module's lines overwrite an
    /// earlier one's).
    pub fn load_memory_device_info(output: &str) -> (r: Option<Vec<MemoryDevice>>)
        requires
            memory_device_info_fits(output@),
        ensures
            match after_first_device_heading(output@) {
                Some(rest) => r matches Some(v) && v@.len() == 1 && v@[0]@ == device_apply_lines(
                    MemoryDeviceView::empty(),
                    lines(rest),
                ),
                None => r is None,
            },
    {
        let cs = chars_of(output);
        let start = match device_section_start(&cs) {
            Some(p) => p,
            None => return None,
        };
        let ghost rest = cs@.subrange(start as int, cs.len() as int);
        let keys = DeviceKeys::new();
        let mut dev = MemoryDevice::default();
        let mut pos = start;
        let ghost mut done: Seq<Seq<char>> = seq![];
        loop
            invariant
                start <= pos <= cs.len(),
                cs@ == output@,
                memory_device_info_fits(output@),
                after_first_device_heading(cs@) == Some(rest),
                rest == cs@.subrange(start as int, cs.len() as int),
                keys.wf(),
                lines(rest) == done + lines(cs@.subrange(pos as int, cs.len() as int)),
                dev@ == device_apply_lines(MemoryDeviceView::empty(), done),
            decreases cs.len() - pos,
        {
            let e = line_end(&cs, pos);
            let ghost line = cs@.subrange(pos as int, e as int);
            proof {
                assert(lines(rest)[done.len() as int] == line);
                assert(after_first_device_heading(output@) == Some(rest));
                assert(device_lines_fit(rest));
                assert(device_line_fits(lines(rest)[done.len() as int]));
            }
            dev.apply_line(&cs, pos, e, &keys);
            proof {
                assert(done.push(line).drop_last() =~= done);
                done = done.push(line);
            }
            if e == cs.len() {
                proof {
                    assert(lines(rest) =~= done);
                }
                let mut result: Vec<MemoryDevice> = Vec::new();
                result.push(dev);
                return Some(result);
            }
            proof {
                assert(lines(rest) =~= done + lines(cs@.subrange(e + 1, cs.len() as int)));
            }
            pos = e + 1;
        }
    }
}

impl MemInfo {
    /// Tells whether `load_memory_device_info` can read `output`: whether every size
    /// after the first heading fits in a `usize` once scaled by its unit.
    pub fn memory_device_info_fits(output: &str) -> (r: bool)
        ensures
            r == memory_device_info_fits(output@),
    {
        let cs = chars_of(output);
        let start = match device_section_start(&cs) {
            Some(p) => p,
            None => return true,
        };
        let ghost rest = cs@.subrange(start as int, cs.len() as int);
        let keys = DeviceKeys::new();
        let mut pos = start;
        let ghost mut done: Seq<Seq<char>> = seq![];
        loop
            invariant
                start <= pos <= cs.len(),
                cs@ == output@,
                after_first_device_heading(cs@) == Some(rest),
                rest == cs@.subrange(start as int, cs.len() as int),
                keys.wf(),
                lines(rest) == done + lines(cs@.subrange(pos as int, cs.len() as int)),
                forall|i: int| 0 <= i < done.len() ==> device_line_fits(#[trigger] done[i]),
            decreases cs.len() - pos,
        {
            let e = line_end(&cs, pos);
            let ghost line = cs@.subrange(pos as int, e as int);
            proof {
                assert(lines(rest)[done.len() as int] == line);
            }
            if !line_fits(&cs, pos, e, &keys) {
                return false;
            }
            proof {
                done = done.push(line);
            }
            if e == cs.len() {
                proof {
                    assert(lines(rest) =~= done);
                }
                return true;
            }
            proof {
                assert(lines(rest) =~= done + lines(cs@.subrange(e + 1, cs.len() as int)));
            }
            pos = e + 1;
        }
    }
}

fn line_fits(cs: &Vec<char>, a: usize, b: usize, keys: &DeviceKeys) -> (r: bool)
    requires
        a <= b <= cs.len(),
        keys.wf(),
    ensures
        r == device_line_fits(cs@.subrange(a as int, b as int)),
{
    let ghost line = cs@.subrange(a as int, b as int);
    let w = device_line_words(cs, a, b);
    if !seq_equals(cs, w.key0, w.key1, &keys.size) || !w.has_unit {
        return true;
    }
    let mult: u128 = if seq_equals(cs, w.unit0, w.unit1, &keys.tb) {
        1024 * 1024 * 1024
    } else if seq_equals(cs, w.unit0, w.unit1, &keys.gb) {
        1024 * 1024 * 1024
    } else if seq_equals(cs, w.unit0, w.unit1, &keys.mb) {
        1024 * 1024
    } else if seq_equals(cs, w.unit0, w.unit1, &keys.kb) {
        1024
    } else {
        1
    };
    proof {
        assert(mult == size_multiplier(word_or_empty(line, 2)));
    }
    match parse_unsigned_at(cs, w.value0, w.value1, usize::MAX) {
        Some(v) => {
            proof {
                assert(usize::MAX <= 0xffff_ffff_ffff_ffffu64);
                let vv = v as u128;
                assert(vv * mult <= 0xffff_ffff_ffff_ffffu128 * 0x4000_0000u128) by (
                nonlinear_arith)
                    requires
                        vv <= 0xffff_ffff_ffff_ffffu128,
                        mult <= 0x4000_0000u128,
                ;
            }
            v as u128 * mult <= usize::MAX as u128
        },
        None => true,
    }
}


/// Law: searching from `k` finds the first occurrence at or after `k` (so the
/// heading is found at its first occurrence anywhere in the report, `k == 0`), and
/// finds nothing only where the text does not occur there at all.
pub proof fn lemma_find_from_first(s: Seq<char>, pat: Seq<char>, k: int)
    requires
        0 <= k,
    ensures
        forall|i: int|
            find_from(s, pat, k) == Some(i) <==> (k <= i && occurs_at(s, pat, i) && forall|j: int|
                k <= j < i ==> !occurs_at(s, pat, j)),
        find_from(s, pat, k) is None <==> forall|j: int| k <= j ==> !occurs_at(s, pat, j),
    decreases s.len() + 1 - k,
{
    if k + pat.len() > s.len() {
    } else if occurs_at(s, pat, k) {
    } else {
        lemma_find_from_first(s, pat, k + 1);
        assert forall|j: int| k <= j && (forall|j2: int| k + 1 <= j2 ==> !occurs_at(s, pat, j2))
            implies !occurs_at(s, pat, j) by {
            if j > k {
                assert(!occurs_at(s, pat, j));
            }
        }
    }
}


/// Law: what each kind of line does to the module, in plain numbers: a `Size:` line
/// with a unit sets the size to its number times 2^30 for `TB` and `GB`, 2^20 for
/// `MB`, 2^10 for `KB` and 1 otherwise (0 where the number does not read); without
/// a unit it changes nothing; `Locator:`, `Type:`, `Speed:` and `Rank:` set their
/// field from the second word and leave the others.
pub proof fn lemma_device_line_effects(d: MemoryDeviceView, line: Seq<char>)
    ensures
        ({
            let key = word_or_empty(line, 0);
            let value = word_or_empty(line, 1);
            let unit = word_or_empty(line, 2);
            let r = device_apply_line(d, line);
            &&& key == "Size:"@ && words(line).len() < 3 ==> r == d
            &&& key == "Size:"@ && words(line).len() >= 3 ==> r == (MemoryDeviceView {
                size: r.size,
                ..d
            })
            &&& key == "Size:"@ && words(line).len() >= 3 && parse_unsigned(value, usize::MAX as nat)
                is None ==> r.size == 0
            &&& key == "Size:"@ && words(line).len() >= 3 && (unit == "TB"@ || unit == "GB"@)
                && parse_unsigned(value, usize::MAX as nat) is Some ==> r.size == (parse_unsigned(
                value,
                usize::MAX as nat,
            )->0 * 1073741824) as usize
            &&& key == "Size:"@ && words(line).len() >= 3 && unit == "MB"@ && parse_unsigned(
                value,
                usize::MAX as nat,
            ) is Some ==> r.size == (parse_unsigned(value, usize::MAX as nat)->0 * 1048576) as usize
            &&& key == "Size:"@ && words(line).len() >= 3 && unit == "KB"@ && parse_unsigned(
                value,
                usize::MAX as nat,
            ) is Some ==> r.size == (parse_unsigned(value, usize::MAX as nat)->0 * 1024) as usize
            &&& key == "Size:"@ && words(line).len() >= 3 && unit != "TB"@ && unit != "GB"@ && unit
                != "MB"@ && unit != "KB"@ && parse_unsigned(value, usize::MAX as nat) is Some
                ==> r.size == parse_unsigned(value, usize::MAX as nat)->0 as usize
            &&& key == "Locator:"@ ==> r == (MemoryDeviceView { locator: value, ..d })
            &&& key == "Type:"@ ==> r == (MemoryDeviceView { ram_type: value, ..d })
            &&& key == "Speed:"@ ==> r == (MemoryDeviceView {
                speed: (match parse_unsigned(value, usize::MAX as nat) {
                    Some(v) => v,
                    None => 0,
                }) as usize,
                ..d
            })
            &&& key == "Rank:"@ ==> r == (MemoryDeviceView {
                rank: (match parse_unsigned(value, 255) {
                    Some(v) => v,
                    None => 0,
                }) as u8,
                ..d
            })
        }),
{
    reveal_strlit("Size:");
    reveal_strlit("Form Factor:");
    reveal_strlit("Locator:");
    reveal_strlit("Bank Locator:");
    reveal_strlit("Type:");
    reveal_strlit("Speed:");
    reveal_strlit("Rank:");
    reveal_strlit("TB");
    reveal_strlit("GB");
    reveal_strlit("MB");
    reveal_strlit("KB");
    assert("Size:"@.len() == 5 && "Form Factor:"@.len() == 12);
    assert("Size:"@.len() == 5 && "Locator:"@.len() == 8);
    assert("Form Factor:"@.len() == 12 && "Locator:"@.len() == 8);
    assert("Size:"@.len() == 5 && "Bank Locator:"@.len() == 13);
    assert("Form Factor:"@.len() == 12 && "Bank Locator:"@.len() == 13);
    assert("Locator:"@.len() == 8 && "Bank Locator:"@.len() == 13);
    assert("Size:"@[0] == 'S' && "Type:"@[0] == 'T');
    assert("Form Factor:"@.len() == 12 && "Type:"@.len() == 5);
    assert("Locator:"@.len() == 8 && "Type:"@.len() == 5);
    assert("Bank Locator:"@.len() == 13 && "Type:"@.len() == 5);
    assert("Size:"@.len() == 5 && "Speed:"@.len() == 6);
    assert("Form Factor:"@.len() == 12 && "Speed:"@.len() == 6);
    assert("Locator:"@.len() == 8 && "Speed:"@.len() == 6);
    assert("Bank Locator:"@.len() == 13 && "Speed:"@.len() == 6);
    assert("Type:"@.len() == 5 && "Speed:"@.len() == 6);
    assert("Size:"@[0] == 'S' && "Rank:"@[0] == 'R');
    assert("Form Factor:"@.len() == 12 && "Rank:"@.len() == 5);
    assert("Locator:"@.len() == 8 && "Rank:"@.len() == 5);
    assert("Bank Locator:"@.len() == 13 && "Rank:"@.len() == 5);
    assert("Type:"@[0] == 'T' && "Rank:"@[0] == 'R');
    assert("Speed:"@.len() == 6 && "Rank:"@.len() == 5);
    assert("TB"@[0] == 'T' && "GB"@[0] == 'G');
    assert("TB"@[0] == 'T' && "MB"@[0] == 'M');
    assert("GB"@[0] == 'G' && "MB"@[0] == 'M');
    assert("TB"@[0] == 'T' && "KB"@[0] == 'K');
    assert("GB"@[0] == 'G' && "KB"@[0] == 'K');
    assert("MB"@[0] == 'M' && "KB"@[0] == 'K');
}

} // verus!
