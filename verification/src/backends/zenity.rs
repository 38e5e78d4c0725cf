//! The `zenity` backend.
//!
//! This backend drives the external `zenity` program, which displays GTK
//! dialog boxes.  The child's output streams are captured; the entered
//! value comes back on its standard output.

use vstd::prelude::*;

use crate::backends::command_failure;
use crate::backends::mismatch_error;
use crate::backends::opt_args;
use crate::backends::result_deep;
use crate::backends::spec_command_failure;
use crate::backends::spec_mismatch_message;
use crate::backends::utf8_string;
use crate::backends::Action;
use crate::backends::ActionSpec;
use crate::backends::Backend;
use crate::backends::Command;
use crate::backends::CommandSpec;
use crate::backends::ExitStatus;
use crate::backends::Response;
use crate::backends::ResponseSpec;
use crate::backends::RunOutput;
use crate::backends::RunOutputSpec;
use crate::error::Error;
use crate::error::ErrorSpec;
use crate::text::decimal_string;
use crate::text::spec_decimal;
use crate::Choice;
use crate::Input;
use crate::Message;
use crate::Password;
use crate::Question;
use vstd::utf8::decode_utf8;
use vstd::utf8::valid_utf8;

verus! {

/// The `zenity` backend's configuration, kept as the decimal strings
/// handed to the tool.
#[derive(Debug)]
pub struct Zenity {
    /// The window icon, if one was set: a stock name or an image path.
    pub icon: Option<String>,
    /// The width of the dialog boxes in pixels, rendered in decimal, if set.
    pub width: Option<String>,
    /// The height of the dialog boxes in pixels, rendered in decimal, if set.
    pub height: Option<String>,
    /// The timeout in seconds, rendered in decimal, if set.
    pub timeout: Option<String>,
}

impl Zenity {
    /// Creates a new `Zenity` instance without configuration.
    pub fn new() -> (z: Zenity)
        ensures
            z.icon is None,
            z.width is None,
            z.height is None,
            z.timeout is None,
    {
        Zenity { icon: None, width: None, height: None, timeout: None }
    }

    /// Sets the icon of the dialog boxes, replacing any earlier one.
    ///
    /// The icon can either be one of `error`, `info`, `question` or
    /// `warning`, or the path to an image to use.
    pub fn set_icon(&mut self, icon: &str)
        ensures
            final(self).icon.deep_view() == Some(icon@),
            final(self).width == old(self).width,
            final(self).height == old(self).height,
            final(self).timeout == old(self).timeout,
    {
        self.icon = Some(icon.to_owned());
    }

    /// Sets the height of the dialog boxes, in pixels.
    pub fn set_height(&mut self, height: u32)
        ensures
            final(self).height.deep_view() == Some(spec_decimal(height as nat)),
            final(self).icon == old(self).icon,
            final(self).width == old(self).width,
            final(self).timeout == old(self).timeout,
    {
        self.height = Some(decimal_string(height as u64));
    }

    /// Sets the width of the dialog boxes, in pixels.
    pub fn set_width(&mut self, width: u32)
        ensures
            final(self).width.deep_view() == Some(spec_decimal(width as nat)),
            final(self).icon == old(self).icon,
            final(self).height == old(self).height,
            final(self).timeout == old(self).timeout,
    {
        self.width = Some(decimal_string(width as u64));
    }

    /// Sets the timeout of the dialog boxes, in seconds.
    ///
    /// After the timeout the dialog box is closed; the tool reports that
    /// like a cancelled dialog.
    pub fn set_timeout(&mut self, timeout: u32)
        ensures
            final(self).timeout.deep_view() == Some(spec_decimal(timeout as nat)),
            final(self).icon == old(self).icon,
            final(self).width == old(self).width,
            final(self).height == old(self).height,
    {
        self.timeout = Some(decimal_string(timeout as u64));
    }

    /// The arguments the configuration contributes before the mode flags:
    /// icon, width, height, timeout and title, each with its flag where set.
    pub open spec fn spec_config_args(&self, title: Option<Seq<char>>) -> Seq<Seq<char>> {
        opt_args("--window-icon"@, self.icon.deep_view()) + opt_args(
            "--width"@,
            self.width.deep_view(),
        ) + opt_args("--height"@, self.height.deep_view()) + opt_args(
            "--timeout"@,
            self.timeout.deep_view(),
        ) + opt_args("--title"@, title)
    }

    fn build(&self, title: &Option<String>, mode: Vec<String>) -> (c: Command)
        ensures
            c@ == (CommandSpec {
                program: "zenity"@,
                args: self.spec_config_args(title.deep_view()) + mode.deep_view(),
                inherit_terminal: false,
            }),
    {
        let mut args: Vec<String> = Vec::new();
        if let Some(icon) = &self.icon {
            args.push("--window-icon".to_owned());
            args.push(icon.clone());
        }
        if let Some(width) = &self.width {
            args.push("--width".to_owned());
            args.push(width.clone());
        }
        if let Some(height) = &self.height {
            args.push("--height".to_owned());
            args.push(height.clone());
        }
        if let Some(timeout) = &self.timeout {
            args.push("--timeout".to_owned());
            args.push(timeout.clone());
        }
        if let Some(t) = title {
            args.push("--title".to_owned());
            args.push(t.clone());
        }
        let ghost mode_args = mode.deep_view();
        let mut mode = mode;
        args.append(&mut mode);
        let c = Command { program: "zenity".to_owned(), args, inherit_terminal: false };
        proof {
            assert(c.args.deep_view() =~= self.spec_config_args(title.deep_view()) + mode_args);
        }
        c
    }

    /// The result of a message box for each exit status: code 0 succeeds,
    /// and so does the timeout code 5; everything else is a failure.
    pub open spec fn spec_success(status: ExitStatus) -> Result<(), ErrorSpec> {
        if status == ExitStatus::Code(0i32) || status == ExitStatus::Code(5i32) {
            Ok(())
        } else {
            Err(ErrorSpec::Failure(spec_command_failure("zenity"@, status)))
        }
    }

    /// The choice a question box's exit status encodes: 0 is yes, 1 is no,
    /// the timeout code 5 is cancel, and every other status is a failure.
    pub open spec fn spec_choice(status: ExitStatus) -> Result<Choice, ErrorSpec> {
        match status {
            ExitStatus::Code(code) => if code == 0 {
                Ok(Choice::Yes)
            } else if code == 1 {
                Ok(Choice::No)
            } else if code == 5 {
                Ok(Choice::Cancel)
            } else {
                Err(ErrorSpec::Failure(spec_command_failure("zenity"@, status)))
            },
            ExitStatus::Signal => Err(
                ErrorSpec::Failure(spec_command_failure("zenity"@, status)),
            ),
        }
    }

    /// The entered value an input or password box's outcome encodes: on
    /// code 0 the captured standard output, decoded as UTF-8; on the
    /// cancel codes 1 and 5 no value; anything else is a failure.
    pub open spec fn spec_value(output: RunOutputSpec) -> Result<Option<Seq<char>>, ErrorSpec> {
        match output.status {
            ExitStatus::Code(code) => if code == 0 {
                if valid_utf8(output.stdout) {
                    Ok(Some(decode_utf8(output.stdout)))
                } else {
                    Err(ErrorSpec::Utf8)
                }
            } else if code == 1 || code == 5 {
                Ok(None)
            } else {
                Err(ErrorSpec::Failure(spec_command_failure("zenity"@, output.status)))
            },
            ExitStatus::Signal => Err(
                ErrorSpec::Failure(spec_command_failure("zenity"@, output.status)),
            ),
        }
    }
}

/// Maps a message box's exit status to its result.
pub fn require_success(status: ExitStatus) -> (r: Result<(), Error>)
    ensures
        result_deep(r) == Zenity::spec_success(status),
{
    match status {
        ExitStatus::Code(0i32) => Ok(()),
        ExitStatus::Code(5i32) => Ok(()),
        _ => Err(command_failure("zenity", status)),
    }
}

/// Maps a question box's exit status to the choice it encodes.
pub fn get_choice(status: ExitStatus) -> (r: Result<Choice, Error>)
    ensures
        result_deep(r) == Zenity::spec_choice(status),
{
    match status {
        ExitStatus::Code(0i32) => Ok(Choice::Yes),
        ExitStatus::Code(1i32) => Ok(Choice::No),
        ExitStatus::Code(5i32) => Ok(Choice::Cancel),
        _ => Err(command_failure("zenity", status)),
    }
}

/// Extracts the entered value from an input or password box's outcome;
/// the tool writes it to its standard output.
pub fn get_stdout(output: RunOutput) -> (r: Result<Option<String>, Error>)
    ensures
        result_deep(r) == Zenity::spec_value(output@),
{
    match output.status {
        ExitStatus::Code(0i32) => match utf8_string(output.stdout) {
            Ok(s) => Ok(Some(s)),
            Err(e) => Err(e),
        },
        ExitStatus::Code(1i32) => Ok(None),
        ExitStatus::Code(5i32) => Ok(None),
        status => Err(command_failure("zenity", status)),
    }
}

/// The tool's exit-code table, read the documented way and no other: 0 is
/// the success path of every box — for a question it means yes, for an
/// input or password box it yields the decoded standard output — 1 means
/// no or cancel, the timeout code 5 counts as success for a message box
/// and as cancel elsewhere, and every remaining status is an error, never
/// a choice or a value.
pub proof fn lemma_exit_code_table(output: RunOutputSpec)
    ensures
        Zenity::spec_success(ExitStatus::Code(0)) == Ok::<(), ErrorSpec>(()),
        Zenity::spec_success(ExitStatus::Code(5)) == Ok::<(), ErrorSpec>(()),
        forall|c: i32| c != 0 && c != 5 ==> Zenity::spec_success(ExitStatus::Code(c)) is Err,
        Zenity::spec_success(ExitStatus::Signal) is Err,
        Zenity::spec_choice(ExitStatus::Code(0)) == Ok::<Choice, ErrorSpec>(Choice::Yes),
        Zenity::spec_choice(ExitStatus::Code(1)) == Ok::<Choice, ErrorSpec>(Choice::No),
        Zenity::spec_choice(ExitStatus::Code(5)) == Ok::<Choice, ErrorSpec>(Choice::Cancel),
        forall|c: i32|
            c != 0 && c != 1 && c != 5 ==> Zenity::spec_choice(ExitStatus::Code(c)) is Err,
        Zenity::spec_choice(ExitStatus::Signal) is Err,
        output.status == ExitStatus::Code(0) && valid_utf8(output.stdout) ==> Zenity::spec_value(
            output,
        ) == Ok::<Option<Seq<char>>, ErrorSpec>(Some(decode_utf8(output.stdout))),
        output.status == ExitStatus::Code(0) && !valid_utf8(output.stdout) ==> Zenity::spec_value(
            output,
        ) == Err::<Option<Seq<char>>, ErrorSpec>(ErrorSpec::Utf8),
        output.status == ExitStatus::Code(1) || output.status == ExitStatus::Code(5)
            ==> Zenity::spec_value(output) == Ok::<Option<Seq<char>>, ErrorSpec>(None),
{
}

impl Backend for Zenity {
    open spec fn planned_message(&self, message: &Message) -> ActionSpec {
        ActionSpec::Run(
            CommandSpec {
                program: "zenity"@,
                args: self.spec_config_args(message.title.deep_view()) + seq![
                    "--info"@,
                    "--text"@,
                    message.text@,
                ],
                inherit_terminal: false,
            },
        )
    }

    open spec fn planned_input(&self, input: &Input) -> ActionSpec {
        ActionSpec::Run(
            CommandSpec {
                program: "zenity"@,
                args: self.spec_config_args(input.title.deep_view()) + seq![
                    "--entry"@,
                    "--text"@,
                    input.text@,
                ] + opt_args("--entry-text"@, input.default.deep_view()),
                inherit_terminal: false,
            },
        )
    }

    open spec fn planned_password(&self, password: &Password) -> ActionSpec {
        ActionSpec::Run(
            CommandSpec {
                program: "zenity"@,
                args: self.spec_config_args(password.title.deep_view()) + seq!["--password"@],
                inherit_terminal: false,
            },
        )
    }

    open spec fn planned_question(&self, question: &Question) -> ActionSpec {
        ActionSpec::Run(
            CommandSpec {
                program: "zenity"@,
                args: self.spec_config_args(question.title.deep_view()) + seq![
                    "--question"@,
                    "--text"@,
                    question.text@,
                ],
                inherit_terminal: false,
            },
        )
    }

    open spec fn message_outcome(&self, response: ResponseSpec) -> Result<(), ErrorSpec> {
        match response {
            ResponseSpec::Finished(output) => Zenity::spec_success(output.status),
            _ => Err(ErrorSpec::Failure(spec_mismatch_message())),
        }
    }

    open spec fn input_outcome(&self, input: &Input, response: ResponseSpec) -> Result<
        Option<Seq<char>>,
        ErrorSpec,
    > {
        match response {
            ResponseSpec::Finished(output) => Zenity::spec_value(output),
            _ => Err(ErrorSpec::Failure(spec_mismatch_message())),
        }
    }

    open spec fn password_outcome(&self, response: ResponseSpec) -> Result<
        Option<Seq<char>>,
        ErrorSpec,
    > {
        match response {
            ResponseSpec::Finished(output) => Zenity::spec_value(output),
            _ => Err(ErrorSpec::Failure(spec_mismatch_message())),
        }
    }

    open spec fn question_outcome(&self, response: ResponseSpec) -> Result<Choice, ErrorSpec> {
        match response {
            ResponseSpec::Finished(output) => Zenity::spec_choice(output.status),
            _ => Err(ErrorSpec::Failure(spec_mismatch_message())),
        }
    }

    fn prepare_message(&self, message: &Message) -> (action: Action) {
        let mut mode: Vec<String> = Vec::new();
        mode.push("--info".to_owned());
        mode.push("--text".to_owned());
        mode.push(message.text.clone());
        assert(mode.deep_view() =~= seq!["--info"@, "--text"@, message.text@]);
        Action::Run(self.build(&message.title, mode))
    }

    fn prepare_input(&self, input: &Input) -> (action: Action) {
        let mut mode: Vec<String> = Vec::new();
        mode.push("--entry".to_owned());
        mode.push("--text".to_owned());
        mode.push(input.text.clone());
        if let Some(default) = &input.default {
            mode.push("--entry-text".to_owned());
            mode.push(default.clone());
        }
        assert(mode.deep_view() =~= seq!["--entry"@, "--text"@, input.text@] + opt_args(
            "--entry-text"@,
            input.default.deep_view(),
        ));
        let action = Action::Run(self.build(&input.title, mode));
        proof {
            assert(self.spec_config_args(input.title.deep_view()) + (seq![
                "--entry"@,
                "--text"@,
                input.text@,
            ] + opt_args("--entry-text"@, input.default.deep_view()))
                =~= self.spec_config_args(input.title.deep_view()) + seq![
                "--entry"@,
                "--text"@,
                input.text@,
            ] + opt_args("--entry-text"@, input.default.deep_view()));
        }
        action
    }

    fn prepare_password(&self, password: &Password) -> (action: Action) {
        let mut mode: Vec<String> = Vec::new();
        mode.push("--password".to_owned());
        assert(mode.deep_view() =~= seq!["--password"@]);
        Action::Run(self.build(&password.title, mode))
    }

    fn prepare_question(&self, question: &Question) -> (action: Action) {
        let mut mode: Vec<String> = Vec::new();
        mode.push("--question".to_owned());
        mode.push("--text".to_owned());
        mode.push(question.text.clone());
        assert(mode.deep_view() =~= seq!["--question"@, "--text"@, question.text@]);
        Action::Run(self.build(&question.title, mode))
    }

    fn finish_message(&self, response: Response) -> (r: Result<(), Error>) {
        match response {
            Response::Finished(output) => require_success(output.status),
            _ => Err(mismatch_error()),
        }
    }

    fn finish_input(&self, input: &Input, response: Response) -> (r: Result<Option<String>, Error>) {
        match response {
            Response::Finished(output) => get_stdout(output),
            _ => Err(mismatch_error()),
        }
    }

    fn finish_password(&self, response: Response) -> (r: Result<Option<String>, Error>) {
        match response {
            Response::Finished(output) => get_stdout(output),
            _ => Err(mismatch_error()),
        }
    }

    fn finish_question(&self, response: Response) -> (r: Result<Choice, Error>) {
        match response {
            Response::Finished(output) => get_choice(output.status),
            _ => Err(mismatch_error()),
        }
    }
}

} // verus!
