use dialog::backends::stdio::parse_choice;
use dialog::backends::Action;
use dialog::backends::Backend;
use dialog::backends::ReadKind;
use dialog::backends::Response;
use dialog::backends::Script;
use dialog::backends::Stdio;
use dialog::Choice;
use dialog::DialogBox;
use dialog::Input;
use dialog::Password;
use dialog::Question;

fn script(action: Action) -> Script {
    match action {
        Action::Converse(script) => script,
        Action::Run(_) => panic!("expected a terminal conversation"),
    }
}

fn answer(text: &str) -> Response {
    Response::Answer(text.to_string())
}

#[test]
fn question_piped_answers() {
    let backend = Stdio::new();
    let question = Question::new("Continue?");
    let asked = script(question.prepare_with(&backend));
    assert_eq!(asked.prompt.as_deref(), Some("Continue? [y/n]: "));
    assert_eq!(asked.read, ReadKind::Line);
    assert_eq!(
        question.finish_with(&backend, answer("y\n")).unwrap(),
        Choice::Yes
    );
    assert_eq!(
        question.finish_with(&backend, answer("\n")).unwrap(),
        Choice::Cancel
    );
    assert_eq!(
        question.finish_with(&backend, answer("n")).unwrap(),
        Choice::No
    );
}

#[test]
fn question_answers_ignore_case() {
    assert_eq!(parse_choice("YES"), Choice::Yes);
    assert_eq!(parse_choice("Yes"), Choice::Yes);
    assert_eq!(parse_choice("No"), Choice::No);
    assert_eq!(parse_choice("N"), Choice::No);
    assert_eq!(parse_choice("maybe"), Choice::Cancel);
    assert_eq!(parse_choice(""), Choice::Cancel);
}

#[test]
fn input_empty_line_yields_default() {
    let backend = Stdio::new();
    let mut input = Input::new("Enter something");
    input.default("input");
    let asked = script(input.prepare_with(&backend));
    assert_eq!(asked.prompt.as_deref(), Some("Enter something [default: input]: "));
    assert_eq!(asked.read, ReadKind::Line);
    assert_eq!(
        backend.finish_input(&input, answer("\n")).unwrap(),
        Some("input".to_string())
    );
    assert_eq!(
        backend.finish_input(&input, answer("hello")).unwrap(),
        Some("hello".to_string())
    );
}

#[test]
fn input_without_default_keeps_empty_entry() {
    let backend = Stdio::new();
    let input = Input::new("Enter something");
    let asked = script(input.prepare_with(&backend));
    assert_eq!(asked.prompt.as_deref(), Some("Enter something: "));
    assert_eq!(
        backend.finish_input(&input, answer("\n")).unwrap(),
        Some("".to_string())
    );
}

#[test]
fn password_is_returned_unchanged() {
    let backend = Stdio::new();
    let password = Password::new("New password");
    let asked = script(password.prepare_with(&backend));
    assert_eq!(asked.prompt.as_deref(), Some("New password: "));
    assert_eq!(asked.read, ReadKind::Secret);
    assert_eq!(
        password.finish_with(&backend, answer("secret")).unwrap(),
        Some("secret".to_string())
    );
}

#[test]
fn title_is_underlined() {
    let backend = Stdio::new();
    let mut question = Question::new("Continue?");
    question.title("Attention");
    let asked = script(question.prepare_with(&backend));
    let lines: Vec<&str> = asked.lines.iter().map(|l| l.as_str()).collect();
    assert_eq!(lines, vec!["Attention", "========="]);
}
