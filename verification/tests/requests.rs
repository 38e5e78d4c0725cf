use dialog::backends::Action;
use dialog::backends::Backend;
use dialog::backends::KDialog;
use dialog::backends::Zenity;
use dialog::Input;
use dialog::Message;
use dialog::Password;
use dialog::Question;

#[test]
fn builders_keep_the_last_written_value() {
    let mut input = Input::new("Enter something");
    input.title("First title");
    input.title("Second title");
    input.default("first");
    input.default("second");
    assert_eq!(input.text, "Enter something");
    assert_eq!(input.title.as_deref(), Some("Second title"));
    assert_eq!(input.default.as_deref(), Some("second"));

    let mut message = Message::new("A message");
    message.title("One");
    message.title("Two");
    assert_eq!(message.text, "A message");
    assert_eq!(message.title.as_deref(), Some("Two"));

    let mut password = Password::new("A password");
    password.title("P");
    assert_eq!(password.text, "A password");
    assert_eq!(password.title.as_deref(), Some("P"));

    let mut question = Question::new("A question");
    question.title("Q");
    assert_eq!(question.text, "A question");
    assert_eq!(question.title.as_deref(), Some("Q"));
}

#[test]
fn fields_start_unset() {
    let input = Input::new("Enter something");
    assert!(input.title.is_none());
    assert!(input.default.is_none());
    let message = Message::new("A message");
    assert!(message.title.is_none());
}

fn args_of(action: Action) -> Vec<String> {
    match action {
        Action::Run(command) => command.args,
        Action::Converse(_) => panic!("expected a command to run"),
    }
}

#[test]
fn dialog_input_passes_default_to_the_tool() {
    let backend = dialog::backends::Dialog::new();
    let mut input = Input::new("Enter something");
    input.default("preset");
    let args = args_of(backend.prepare_input(&input));
    let actual: Vec<&str> = args.iter().map(|a| a.as_str()).collect();
    assert_eq!(actual, vec!["--inputbox", "Enter something", "0", "0", "preset"]);
}

#[test]
fn zenity_arguments_follow_the_configuration() {
    let mut backend = Zenity::new();
    backend.set_icon("info");
    backend.set_width(640);
    backend.set_height(480);
    backend.set_timeout(30);
    let mut input = Input::new("Enter something");
    input.title("Ask");
    input.default("preset");
    let args = args_of(backend.prepare_input(&input));
    let actual: Vec<&str> = args.iter().map(|a| a.as_str()).collect();
    let expected = vec![
        "--window-icon",
        "info",
        "--width",
        "640",
        "--height",
        "480",
        "--timeout",
        "30",
        "--title",
        "Ask",
        "--entry",
        "--text",
        "Enter something",
        "--entry-text",
        "preset",
    ];
    assert_eq!(actual, expected);
}

#[test]
fn zenity_password_has_no_text_argument() {
    let backend = Zenity::new();
    let password = Password::new("ignored by the tool");
    let args = args_of(backend.prepare_password(&password));
    let actual: Vec<&str> = args.iter().map(|a| a.as_str()).collect();
    assert_eq!(actual, vec!["--password"]);
}

#[test]
fn kdialog_arguments_follow_the_configuration() {
    let mut backend = KDialog::new();
    backend.set_icon("error");
    let mut question = Question::new("Continue?");
    question.title("Ask");
    let args = args_of(backend.prepare_question(&question));
    let actual: Vec<&str> = args.iter().map(|a| a.as_str()).collect();
    assert_eq!(actual, vec!["--icon", "error", "--title", "Ask", "--yesno", "Continue?"]);

    let mut input = Input::new("Enter something");
    input.default("preset");
    let args = args_of(backend.prepare_input(&input));
    let actual: Vec<&str> = args.iter().map(|a| a.as_str()).collect();
    assert_eq!(
        actual,
        vec!["--icon", "error", "--inputbox", "Enter something", "preset"]
    );
}
