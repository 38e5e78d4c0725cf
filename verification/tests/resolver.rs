use dialog::backends::from_str;
use dialog::backends::BackendId;
use dialog::default_backend;
use dialog::EnvInfo;

fn env(
    dialog_override: Option<&str>,
    desktop: Option<&str>,
    display: Option<&str>,
    installed: (bool, bool, bool),
) -> EnvInfo {
    EnvInfo {
        dialog_override: dialog_override.map(|s| s.to_string()),
        desktop: desktop.map(|s| s.to_string()),
        display: display.map(|s| s.to_string()),
        dialog_installed: installed.0,
        kdialog_installed: installed.1,
        zenity_installed: installed.2,
    }
}

#[test]
fn override_selects_backend_in_mixed_case() {
    let everything = (true, true, true);
    let cases = vec![
        ("DiAlOg", BackendId::Dialog),
        ("KDIALOG", BackendId::KDialog),
        ("stdio", BackendId::Stdio),
        ("ZeNiTy", BackendId::Zenity),
    ];
    for (name, expected) in cases {
        let chosen = default_backend(&env(
            Some(name),
            Some("KDE"),
            Some(":0"),
            everything,
        ));
        assert_eq!(chosen, expected);
    }
}

#[test]
fn unknown_override_falls_through() {
    let chosen = default_backend(&env(Some("gnome"), None, None, (true, false, false)));
    assert_eq!(chosen, BackendId::Dialog);
}

#[test]
fn kde_prefers_kdialog_over_display() {
    let chosen = default_backend(&env(None, Some("KDE"), Some(":0"), (true, true, true)));
    assert_eq!(chosen, BackendId::KDialog);
}

#[test]
fn kde_without_kdialog_uses_display_preference() {
    let chosen = default_backend(&env(None, Some("KDE"), Some(":0"), (true, false, true)));
    assert_eq!(chosen, BackendId::Zenity);
}

#[test]
fn display_prefers_zenity_then_kdialog() {
    let zenity = default_backend(&env(None, None, Some(":0"), (true, true, true)));
    assert_eq!(zenity, BackendId::Zenity);
    let kdialog = default_backend(&env(None, None, Some(":0"), (true, true, false)));
    assert_eq!(kdialog, BackendId::KDialog);
}

#[test]
fn empty_display_is_no_display() {
    let chosen = default_backend(&env(None, None, Some(""), (false, true, true)));
    assert_eq!(chosen, BackendId::Stdio);
}

#[test]
fn text_mode_when_no_signals() {
    let chosen = default_backend(&env(None, None, None, (true, false, false)));
    assert_eq!(chosen, BackendId::Dialog);
}

#[test]
fn fallback_when_nothing_installed() {
    let chosen = default_backend(&env(None, None, None, (false, false, false)));
    assert_eq!(chosen, BackendId::Stdio);
}

#[test]
fn from_str_ignores_case_and_rejects_unknown_names() {
    assert_eq!(from_str("Dialog"), Some(BackendId::Dialog));
    assert_eq!(from_str("kdialog"), Some(BackendId::KDialog));
    assert_eq!(from_str("STDIO"), Some(BackendId::Stdio));
    assert_eq!(from_str("zenity"), Some(BackendId::Zenity));
    assert_eq!(from_str("xdialog"), None);
    assert_eq!(from_str(""), None);
}
