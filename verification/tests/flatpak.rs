use mission_center::flatpak::{flatpak_app_path, try_flatpak_app_path, FlatpakInfoError};

#[test]
fn reads_the_app_path() {
    let info = "[Application]\nname=io.missioncenter.MissionCenter\n\n[Instance]\ninstance-id=1\napp-path=/var/lib/flatpak/app/x/current\n";
    assert_eq!(flatpak_app_path(info), "/var/lib/flatpak/app/x/current");
    assert!(matches!(try_flatpak_app_path(info), Ok(p) if p == "/var/lib/flatpak/app/x/current"));
}

#[test]
fn first_value_wins() {
    let info = "[Instance]\napp-path=/first\n[Instance]\napp-path=/second\n";
    assert!(matches!(try_flatpak_app_path(info), Ok(p) if p == "/first"));
}

#[test]
fn missing_section_and_key() {
    assert!(matches!(
        try_flatpak_app_path("[Application]\nname=x\n"),
        Err(FlatpakInfoError::MissingInstanceSection)
    ));
    assert!(matches!(
        try_flatpak_app_path("app-path=/x\n"),
        Err(FlatpakInfoError::MissingInstanceSection)
    ));
    assert!(matches!(
        try_flatpak_app_path("[Instance]\nbranch=stable\n"),
        Err(FlatpakInfoError::MissingAppPath)
    ));
}

#[test]
fn unparsable_text_gives_the_empty_path() {
    assert!(matches!(try_flatpak_app_path("[Instance\napp-path=/x\n"), Ok(p) if p.is_empty()));
    assert_eq!(flatpak_app_path("[Instance\napp-path=/x\n"), "");
}
