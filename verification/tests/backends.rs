use dialog::backends::Backend;
use dialog::backends::ExitStatus;
use dialog::backends::Dialog;
use dialog::backends::KDialog;
use dialog::backends::Response;
use dialog::backends::RunOutput;
use dialog::backends::Stdio;
use dialog::backends::Zenity;
use dialog::Choice;
use dialog::Error;

fn finished(status: ExitStatus, stdout: &[u8], stderr: &[u8]) -> Response {
    Response::Finished(RunOutput {
        status,
        stdout: stdout.to_vec(),
        stderr: stderr.to_vec(),
    })
}

#[test]
fn dialog_success_codes() {
    let backend = Dialog::new();
    assert!(backend.finish_message(finished(ExitStatus::Code(0), b"", b"")).is_ok());
    assert!(backend.finish_message(finished(ExitStatus::Code(1), b"", b"")).is_err());
    assert!(backend.finish_message(finished(ExitStatus::Signal, b"", b"")).is_err());
}

#[test]
fn dialog_question_codes() {
    let backend = Dialog::new();
    let choice = |code: i32| backend.finish_question(finished(ExitStatus::Code(code), b"", b""));
    assert_eq!(choice(0).unwrap(), Choice::Yes);
    assert_eq!(choice(1).unwrap(), Choice::No);
    assert_eq!(choice(255).unwrap(), Choice::Cancel);
    assert!(choice(2).is_err());
    assert!(backend.finish_question(finished(ExitStatus::Signal, b"", b"")).is_err());
}

#[test]
fn dialog_reads_standard_error() {
    let backend = Dialog::new();
    let input = dialog::Input::new("Enter something");
    let entered = backend
        .finish_input(&input, finished(ExitStatus::Code(0), b"ignored", b"hello"))
        .unwrap();
    assert_eq!(entered, Some("hello".to_string()));
    let cancelled = backend
        .finish_input(&input, finished(ExitStatus::Code(255), b"", b""))
        .unwrap();
    assert_eq!(cancelled, None);
}

#[test]
fn dialog_empty_entry_yields_default() {
    let backend = Dialog::new();
    let mut input = dialog::Input::new("Enter something");
    input.default("preset");
    let empty = backend
        .finish_input(&input, finished(ExitStatus::Code(0), b"", b""))
        .unwrap();
    assert_eq!(empty, Some("preset".to_string()));
    let typed = backend
        .finish_input(&input, finished(ExitStatus::Code(0), b"", b"typed"))
        .unwrap();
    assert_eq!(typed, Some("typed".to_string()));
}

#[test]
fn dialog_rejects_invalid_utf8() {
    let backend = Dialog::new();
    let input = dialog::Input::new("Enter something");
    let result = backend.finish_input(&input, finished(ExitStatus::Code(0), b"", b"\xff\xfe"));
    match result {
        Err(Error::Utf8Error(_)) => {}
        _ => panic!("invalid bytes must be a UTF-8 error, not a cancellation"),
    }
}

#[test]
fn dialog_failure_message_names_tool_and_code() {
    let backend = Dialog::new();
    match backend.finish_message(finished(ExitStatus::Code(3), b"", b"")) {
        Err(Error::Error(message)) => {
            assert_eq!(message, "Command dialog failed with exit status 3");
        }
        _ => panic!("an unrecognised code must be a general error"),
    }
    match backend.finish_message(finished(ExitStatus::Signal, b"", b"")) {
        Err(Error::Error(message)) => {
            assert_eq!(message, "Command dialog was terminated by a signal");
        }
        _ => panic!("a signal termination must be a general error"),
    }
}

#[test]
fn zenity_success_codes() {
    let backend = Zenity::new();
    assert!(backend.finish_message(finished(ExitStatus::Code(0), b"", b"")).is_ok());
    assert!(backend.finish_message(finished(ExitStatus::Code(5), b"", b"")).is_ok());
    assert!(backend.finish_message(finished(ExitStatus::Code(1), b"", b"")).is_err());
}

#[test]
fn zenity_question_codes() {
    let backend = Zenity::new();
    let choice = |code: i32| backend.finish_question(finished(ExitStatus::Code(code), b"", b""));
    assert_eq!(choice(0).unwrap(), Choice::Yes);
    assert_eq!(choice(1).unwrap(), Choice::No);
    assert_eq!(choice(5).unwrap(), Choice::Cancel);
    assert!(choice(2).is_err());
}

#[test]
fn zenity_reads_standard_output() {
    let backend = Zenity::new();
    let input = dialog::Input::new("Enter something");
    let entered = backend
        .finish_input(&input, finished(ExitStatus::Code(0), b"typed", b"ignored"))
        .unwrap();
    assert_eq!(entered, Some("typed".to_string()));
    let timed_out = backend
        .finish_input(&input, finished(ExitStatus::Code(5), b"", b""))
        .unwrap();
    assert_eq!(timed_out, None);
}

#[test]
fn kdialog_question_codes() {
    let backend = KDialog::new();
    let choice = |code: i32| backend.finish_question(finished(ExitStatus::Code(code), b"", b""));
    assert_eq!(choice(0).unwrap(), Choice::Yes);
    assert_eq!(choice(1).unwrap(), Choice::No);
    assert!(choice(2).is_err());
    assert!(choice(255).is_err());
}

#[test]
fn kdialog_input_reuses_the_same_codes_for_ok_and_cancel() {
    let backend = KDialog::new();
    let input = dialog::Input::new("Enter something");
    let entered = backend
        .finish_input(&input, finished(ExitStatus::Code(0), b"typed\n", b""))
        .unwrap();
    assert_eq!(entered, Some("typed".to_string()));
    let cancelled = backend
        .finish_input(&input, finished(ExitStatus::Code(1), b"", b""))
        .unwrap();
    assert_eq!(cancelled, None);
}

#[test]
fn kdialog_message_tolerates_cancel() {
    let backend = KDialog::new();
    assert!(backend.finish_message(finished(ExitStatus::Code(0), b"", b"")).is_ok());
    assert!(backend.finish_message(finished(ExitStatus::Code(1), b"", b"")).is_ok());
    assert!(backend.finish_message(finished(ExitStatus::Code(2), b"", b"")).is_err());
}

#[test]
fn mismatched_response_is_an_error() {
    let backend = Stdio::new();
    let result = backend.finish_message(finished(ExitStatus::Code(0), b"", b""));
    assert!(result.is_err());
    let process_backend = Dialog::new();
    assert!(process_backend.finish_message(Response::Done).is_err());
}
