use dialog::backends::Action;
use dialog::backends::BackendId;
use dialog::backends::ReadKind;
use dialog::backends::Script;
use dialog::backends::Stdio;
use dialog::default_backend;
use dialog::DialogBox;
use dialog::EnvInfo;
use dialog::Message;

fn bare_env() -> EnvInfo {
    EnvInfo {
        dialog_override: None,
        desktop: None,
        display: None,
        dialog_installed: false,
        kdialog_installed: false,
        zenity_installed: false,
    }
}

fn script(action: Action) -> Script {
    match action {
        Action::Converse(script) => script,
        Action::Run(_) => panic!("expected a terminal conversation"),
    }
}

#[test]
fn text() {
    let message = Message::new("This is a message.");
    assert_eq!(default_backend(&bare_env()), BackendId::Stdio);
    let script = script(message.prepare_with(&Stdio::new()));
    let lines: Vec<&str> = script.lines.iter().map(|l| l.as_str()).collect();
    assert_eq!(lines, vec!["This is a message."]);
    assert!(script.prompt.is_none());
    assert_eq!(script.read, ReadKind::Nothing);
}

#[test]
fn text_title() {
    let mut message = Message::new("This is a message.");
    message.title("And this is a title:");
    assert_eq!(default_backend(&bare_env()), BackendId::Stdio);
    let script = script(message.prepare_with(&Stdio::new()));
    let lines: Vec<&str> = script.lines.iter().map(|l| l.as_str()).collect();
    assert_eq!(
        lines,
        vec!["And this is a title:", "====================", "This is a message."]
    );
    assert!(script.prompt.is_none());
    assert_eq!(script.read, ReadKind::Nothing);
}
