use dialog::backends::Action;
use dialog::backends::Dialog;
use dialog::DialogBox;
use dialog::Message;

fn run_args(action: Action) -> (String, Vec<String>, bool) {
    match action {
        Action::Run(command) => {
            let program = command.program;
            let args = command.args;
            (program, args, command.inherit_terminal)
        }
        Action::Converse(_) => panic!("expected a command to run"),
    }
}

#[test]
fn message() {
    let backend = Dialog::new();
    let mut message = Message::new("This is a message.");
    message.title("And this is a title:");
    let (program, args, inherit) = run_args(message.prepare_with(&backend));
    assert_eq!(program, "dialog");
    assert!(inherit);
    let expected = vec![
        "--title",
        "And this is a title:",
        "--msgbox",
        "This is a message.",
        "0",
        "0",
    ];
    let actual: Vec<&str> = args.iter().map(|a| a.as_str()).collect();
    assert_eq!(actual, expected);
}

#[test]
fn backtitle() {
    let mut backend = Dialog::new();
    backend.set_backtitle("Backtitle");
    let mut message = Message::new("This is a message.");
    message.title("And this is a title:");
    let (program, args, _) = run_args(message.prepare_with(&backend));
    assert_eq!(program, "dialog");
    let expected = vec![
        "--backtitle",
        "Backtitle",
        "--title",
        "And this is a title:",
        "--msgbox",
        "This is a message.",
        "0",
        "0",
    ];
    let actual: Vec<&str> = args.iter().map(|a| a.as_str()).collect();
    assert_eq!(actual, expected);
}

#[test]
fn size() {
    let mut backend = Dialog::new();
    backend.set_width(100);
    backend.set_height(10);
    let mut message = Message::new("This is a message.");
    message.title("And this is a title:");
    let (program, args, _) = run_args(message.prepare_with(&backend));
    assert_eq!(program, "dialog");
    let expected = vec![
        "--title",
        "And this is a title:",
        "--msgbox",
        "This is a message.",
        "10",
        "100",
    ];
    let actual: Vec<&str> = args.iter().map(|a| a.as_str()).collect();
    assert_eq!(actual, expected);
}
