//! The `kdialog` backend.
//!
//! This backend drives the external `kdialog` program, which displays KDE
//! dialog boxes.  The child's output streams are captured; the entered
//! value comes back on its standard output with a trailing newline.
//!
//! The tool has no fixed correspondence between button labels and status
//! codes: 0 and 1 mean yes and no for a yes-no box, but OK and cancel for
//! an input box.  Each dialog kind therefore reads the codes its own way
//! rather than through one shared table.

use vstd::prelude::*;

use crate::backends::command_failure;
use crate::backends::mismatch_error;
use crate::backends::opt_args;
use crate::backends::opt_tail;
use crate::backends::result_deep;
use crate::backends::spec_command_failure;
use crate::backends::spec_mismatch_message;
use crate::backends::utf8_string;
use crate::backends::Action;
use crate::backends::ActionSpec;
use crate::backends::Backend;
use crate::backends::Command;
use crate::backends::CommandSpec;
use crate::backends::ExitStatus;
use crate::backends::Response;
use crate::backends::ResponseSpec;
use crate::backends::RunOutput;
use crate::backends::RunOutputSpec;
use crate::error::Error;
use crate::error::ErrorSpec;
use crate::text::spec_trim_newlines;
use crate::text::trim_trailing_newlines;
use crate::Choice;
use crate::Input;
use crate::Message;
use crate::Password;
use crate::Question;
use vstd::utf8::decode_utf8;
use vstd::utf8::valid_utf8;

verus! {

/// The `kdialog` backend's configuration.
#[derive(Debug)]
pub struct KDialog {
    /// The icon in the dialog box's titlebar and taskbar button, if set.
    pub icon: Option<String>,
}

impl KDialog {
    /// Creates a new `KDialog` instance without configuration.
    pub fn new() -> (k: KDialog)
        ensures
            k.icon is None,
    {
        KDialog { icon: None }
    }

    /// Sets the icon of the dialog boxes, replacing any earlier one.
    ///
    /// The icon can be either a name from the user's configured icon
    /// theme, such as `error` or `info`, or the path to an image to use.
    pub fn set_icon(&mut self, icon: &str)
        ensures
            final(self).icon.deep_view() == Some(icon@),
    {
        self.icon = Some(icon.to_owned());
    }

    /// The arguments the configuration contributes before the mode flags:
    /// the icon and the title, each with its flag where set.
    pub open spec fn spec_config_args(&self, title: Option<Seq<char>>) -> Seq<Seq<char>> {
        opt_args("--icon"@, self.icon.deep_view()) + opt_args("--title"@, title)
    }

    fn build(&self, title: &Option<String>, mode: Vec<String>) -> (c: Command)
        ensures
            c@ == (CommandSpec {
                program: "kdialog"@,
                args: self.spec_config_args(title.deep_view()) + mode.deep_view(),
                inherit_terminal: false,
            }),
    {
        let mut args: Vec<String> = Vec::new();
        if let Some(icon) = &self.icon {
            args.push("--icon".to_owned());
            args.push(icon.clone());
        }
        if let Some(t) = title {
            args.push("--title".to_owned());
            args.push(t.clone());
        }
        let ghost mode_args = mode.deep_view();
        let mut mode = mode;
        args.append(&mut mode);
        let c = Command { program: "kdialog".to_owned(), args, inherit_terminal: false };
        proof {
            assert(c.args.deep_view() =~= self.spec_config_args(title.deep_view()) + mode_args);
        }
        c
    }

    /// The result of a message box for each exit status: code 0 succeeds,
    /// and so does the cancel code 1; everything else is a failure.
    pub open spec fn spec_success(status: ExitStatus) -> Result<(), ErrorSpec> {
        if status == ExitStatus::Code(0i32) || status == ExitStatus::Code(1i32) {
            Ok(())
        } else {
            Err(ErrorSpec::Failure(spec_command_failure("kdialog"@, status)))
        }
    }

    /// The choice a yes-no box's exit status encodes: for this pair of
    /// buttons 0 is yes and 1 is no; every other status is a failure.
    pub open spec fn spec_choice(status: ExitStatus) -> Result<Choice, ErrorSpec> {
        match status {
            ExitStatus::Code(code) => if code == 0 {
                Ok(Choice::Yes)
            } else if code == 1 {
                Ok(Choice::No)
            } else {
                Err(ErrorSpec::Failure(spec_command_failure("kdialog"@, status)))
            },
            ExitStatus::Signal => Err(
                ErrorSpec::Failure(spec_command_failure("kdialog"@, status)),
            ),
        }
    }

    /// The entered value an input or password box's outcome encodes: here
    /// code 0 means OK — the captured standard output, decoded as UTF-8
    /// and with its trailing newline removed — while code 1 means cancel;
    /// anything else is a failure.
    pub open spec fn spec_value(output: RunOutputSpec) -> Result<Option<Seq<char>>, ErrorSpec> {
        match output.status {
            ExitStatus::Code(code) => if code == 0 {
                if valid_utf8(output.stdout) {
                    Ok(Some(spec_trim_newlines(decode_utf8(output.stdout))))
                } else {
                    Err(ErrorSpec::Utf8)
                }
            } else if code == 1 {
                Ok(None)
            } else {
                Err(ErrorSpec::Failure(spec_command_failure("kdialog"@, output.status)))
            },
            ExitStatus::Signal => Err(
                ErrorSpec::Failure(spec_command_failure("kdialog"@, output.status)),
            ),
        }
    }
}

/// Maps a message box's exit status to its result.
pub fn require_success(status: ExitStatus) -> (r: Result<(), Error>)
    ensures
        result_deep(r) == KDialog::spec_success(status),
{
    match status {
        ExitStatus::Code(0i32) => Ok(()),
        ExitStatus::Code(1i32) => Ok(()),
        _ => Err(command_failure("kdialog", status)),
    }
}

/// Maps a yes-no box's exit status to the choice it encodes.
pub fn get_choice(status: ExitStatus) -> (r: Result<Choice, Error>)
    ensures
        result_deep(r) == KDialog::spec_choice(status),
{
    match status {
        ExitStatus::Code(0i32) => Ok(Choice::Yes),
        ExitStatus::Code(1i32) => Ok(Choice::No),
        _ => Err(command_failure("kdialog", status)),
    }
}

/// Extracts the entered value from an input or password box's outcome;
/// the tool writes it to its standard output, newline-terminated.
pub fn get_stdout(output: RunOutput) -> (r: Result<Option<String>, Error>)
    ensures
        result_deep(r) == KDialog::spec_value(output@),
{
    match output.status {
        ExitStatus::Code(0i32) => match utf8_string(output.stdout) {
            Ok(s) => Ok(Some(trim_trailing_newlines(s.as_str()))),
            Err(e) => Err(e),
        },
        ExitStatus::Code(1i32) => Ok(None),
        status => Err(command_failure("kdialog", status)),
    }
}

/// The tool's exit-code table, read per dialog kind and no other way.
/// The same two codes carry different button pairs: for a yes-no box 0
/// means yes and 1 means no, while for an input or password box 0 means
/// OK — yielding the decoded, newline-trimmed standard output — and the
/// very same 1 means cancel.  Every remaining status is an error, never a
/// choice or a value.
pub proof fn lemma_exit_code_table(output: RunOutputSpec)
    ensures
        KDialog::spec_success(ExitStatus::Code(0)) == Ok::<(), ErrorSpec>(()),
        KDialog::spec_success(ExitStatus::Code(1)) == Ok::<(), ErrorSpec>(()),
        forall|c: i32| c != 0 && c != 1 ==> KDialog::spec_success(ExitStatus::Code(c)) is Err,
        KDialog::spec_success(ExitStatus::Signal) is Err,
        KDialog::spec_choice(ExitStatus::Code(0)) == Ok::<Choice, ErrorSpec>(Choice::Yes),
        KDialog::spec_choice(ExitStatus::Code(1)) == Ok::<Choice, ErrorSpec>(Choice::No),
        forall|c: i32| c != 0 && c != 1 ==> KDialog::spec_choice(ExitStatus::Code(c)) is Err,
        KDialog::spec_choice(ExitStatus::Signal) is Err,
        output.status == ExitStatus::Code(0) && valid_utf8(output.stdout) ==> KDialog::spec_value(
            output,
        ) == Ok::<Option<Seq<char>>, ErrorSpec>(
            Some(spec_trim_newlines(decode_utf8(output.stdout))),
        ),
        output.status == ExitStatus::Code(0) && !valid_utf8(output.stdout) ==> KDialog::spec_value(
            output,
        ) == Err::<Option<Seq<char>>, ErrorSpec>(ErrorSpec::Utf8),
        output.status == ExitStatus::Code(1) ==> KDialog::spec_value(output) == Ok::<
            Option<Seq<char>>,
            ErrorSpec,
        >(None),
{
}

impl Backend for KDialog {
    open spec fn planned_message(&self, message: &Message) -> ActionSpec {
        ActionSpec::Run(
            CommandSpec {
                program: "kdialog"@,
                args: self.spec_config_args(message.title.deep_view()) + seq![
                    "--msgbox"@,
                    message.text@,
                ],
                inherit_terminal: false,
            },
        )
    }

    open spec fn planned_input(&self, input: &Input) -> ActionSpec {
        ActionSpec::Run(
            CommandSpec {
                program: "kdialog"@,
                args: self.spec_config_args(input.title.deep_view()) + seq![
                    "--inputbox"@,
                    input.text@,
                ] + opt_tail(input.default.deep_view()),
                inherit_terminal: false,
            },
        )
    }

    open spec fn planned_password(&self, password: &Password) -> ActionSpec {
        ActionSpec::Run(
            CommandSpec {
                program: "kdialog"@,
                args: self.spec_config_args(password.title.deep_view()) + seq![
                    "--password"@,
                    password.text@,
                ],
                inherit_terminal: false,
            },
        )
    }

    open spec fn planned_question(&self, question: &Question) -> ActionSpec {
        ActionSpec::Run(
            CommandSpec {
                program: "kdialog"@,
                args: self.spec_config_args(question.title.deep_view()) + seq![
                    "--yesno"@,
                    question.text@,
                ],
                inherit_terminal: false,
            },
        )
    }

    open spec fn message_outcome(&self, response: ResponseSpec) -> Result<(), ErrorSpec> {
        match response {
            ResponseSpec::Finished(output) => KDialog::spec_success(output.status),
            _ => Err(ErrorSpec::Failure(spec_mismatch_message())),
        }
    }

    open spec fn input_outcome(&self, input: &Input, response: ResponseSpec) -> Result<
        Option<Seq<char>>,
        ErrorSpec,
    > {
        match response {
            ResponseSpec::Finished(output) => KDialog::spec_value(output),
            _ => Err(ErrorSpec::Failure(spec_mismatch_message())),
        }
    }

    open spec fn password_outcome(&self, response: ResponseSpec) -> Result<
        Option<Seq<char>>,
        ErrorSpec,
    > {
        match response {
            ResponseSpec::Finished(output) => KDialog::spec_value(output),
            _ => Err(ErrorSpec::Failure(spec_mismatch_message())),
        }
    }

    open spec fn question_outcome(&self, response: ResponseSpec) -> Result<Choice, ErrorSpec> {
        match response {
            ResponseSpec::Finished(output) => KDialog::spec_choice(output.status),
            _ => Err(ErrorSpec::Failure(spec_mismatch_message())),
        }
    }

    fn prepare_message(&self, message: &Message) -> (action: Action) {
        let mut mode: Vec<String> = Vec::new();
        mode.push("--msgbox".to_owned());
        mode.push(message.text.clone());
        assert(mode.deep_view() =~= seq!["--msgbox"@, message.text@]);
        Action::Run(self.build(&message.title, mode))
    }

    fn prepare_input(&self, input: &Input) -> (action: Action) {
        let mut mode: Vec<String> = Vec::new();
        mode.push("--inputbox".to_owned());
        mode.push(input.text.clone());
        if let Some(default) = &input.default {
            mode.push(default.clone());
        }
        assert(mode.deep_view() =~= seq!["--inputbox"@, input.text@] + opt_tail(
            input.default.deep_view(),
        ));
        let action = Action::Run(self.build(&input.title, mode));
        proof {
            assert(self.spec_config_args(input.title.deep_view()) + (seq![
                "--inputbox"@,
                input.text@,
            ] + opt_tail(input.default.deep_view())) =~= self.spec_config_args(
                input.title.deep_view(),
            ) + seq!["--inputbox"@, input.text@] + opt_tail(input.default.deep_view()));
        }
        action
    }

    fn prepare_password(&self, password: &Password) -> (action: Action) {
        let mut mode: Vec<String> = Vec::new();
        mode.push("--password".to_owned());
        mode.push(password.text.clone());
        assert(mode.deep_view() =~= seq!["--password"@, password.text@]);
        Action::Run(self.build(&password.title, mode))
    }

    fn prepare_question(&self, question: &Question) -> (action: Action) {
        let mut mode: Vec<String> = Vec::new();
        mode.push("--yesno".to_owned());
        mode.push(question.text.clone());
        assert(mode.deep_view() =~= seq!["--yesno"@, question.text@]);
        Action::Run(self.build(&question.title, mode))
    }

    fn finish_message(&self, response: Response) -> (r: Result<(), Error>) {
        match response {
            Response::Finished(output) => require_success(output.status),
            _ => Err(mismatch_error()),
        }
    }

    fn finish_input(&self, input: &Input, response: Response) -> (r: Result<Option<String>, Error>) {
        match response {
            Response::Finished(output) => get_stdout(output),
            _ => Err(mismatch_error()),
        }
    }

    fn finish_password(&self, response: Response) -> (r: Result<Option<String>, Error>) {
        match response {
            Response::Finished(output) => get_stdout(output),
            _ => Err(mismatch_error()),
        }
    }

    fn finish_question(&self, response: Response) -> (r: Result<Choice, Error>) {
        match response {
            Response::Finished(output) => get_choice(output.status),
            _ => Err(mismatch_error()),
        }
    }
}

} // verus!
