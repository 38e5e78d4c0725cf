//! The `dialog` backend.
//!
//! This backend drives the external `dialog` program (not to be confused
//! with this crate of the same name), which draws text-based dialog boxes
//! in the terminal.  The child must inherit the terminal's standard input
//! and output; the entered value comes back on its standard error.

use vstd::prelude::*;

use crate::backends::command_failure;
use crate::backends::mismatch_error;
use crate::backends::opt_args;
use crate::backends::opt_tail;
use crate::backends::result_deep;
use crate::backends::spec_command_failure;
use crate::backends::spec_mismatch_message;
use crate::backends::utf8_string;
use crate::backends::Action;
use crate::backends::ActionSpec;
use crate::backends::Backend;
use crate::backends::Command;
use crate::backends::CommandSpec;
use crate::backends::ExitStatus;
use crate::backends::Response;
use crate::backends::ResponseSpec;
use crate::backends::RunOutput;
use crate::backends::RunOutputSpec;
use crate::error::Error;
use crate::error::ErrorSpec;
use crate::text::decimal_string;
use crate::text::spec_decimal;
use crate::Choice;
use crate::Input;
use crate::Message;
use crate::Password;
use crate::Question;
use vstd::utf8::decode_utf8;
use vstd::utf8::valid_utf8;

verus! {

/// The `dialog` backend's configuration: an optional backdrop title and
/// the dialog size in characters, kept as the decimal strings handed to
/// the tool.  A size of zero lets the tool pick.
#[derive(Debug)]
pub struct Dialog {
    /// The backtitle shown on the backdrop, at the top of the screen.
    pub backtitle: Option<String>,
    /// The height of the dialog boxes, in characters, rendered in decimal.
    pub height: String,
    /// The width of the dialog boxes, in characters, rendered in decimal.
    pub width: String,
}

impl Dialog {
    /// Creates a new `Dialog` instance without configuration.
    pub fn new() -> (d: Dialog)
        ensures
            d.backtitle is None,
            d.height@ == spec_decimal(0),
            d.width@ == spec_decimal(0),
    {
        Dialog {
            backtitle: None,
            height: decimal_string(0),
            width: decimal_string(0),
        }
    }

    /// Sets the backtitle for the dialog boxes, replacing any earlier one.
    pub fn set_backtitle(&mut self, backtitle: &str)
        ensures
            final(self).backtitle.deep_view() == Some(backtitle@),
            final(self).height == old(self).height,
            final(self).width == old(self).width,
    {
        self.backtitle = Some(backtitle.to_owned());
    }

    /// Sets the height of the dialog boxes, in characters.
    pub fn set_height(&mut self, height: u32)
        ensures
            final(self).height@ == spec_decimal(height as nat),
            final(self).backtitle == old(self).backtitle,
            final(self).width == old(self).width,
    {
        self.height = decimal_string(height as u64);
    }

    /// Sets the width of the dialog boxes, in characters.
    pub fn set_width(&mut self, width: u32)
        ensures
            final(self).width@ == spec_decimal(width as nat),
            final(self).backtitle == old(self).backtitle,
            final(self).height == old(self).height,
    {
        self.width = decimal_string(width as u64);
    }

    /// The argument list for one dialog box: the configured backtitle, the
    /// box's title, the mode flag with the text, the configured height and
    /// width, and any trailing arguments.
    pub open spec fn spec_args(
        &self,
        title: Option<Seq<char>>,
        mode: Seq<char>,
        text: Seq<char>,
        post: Seq<Seq<char>>,
    ) -> Seq<Seq<char>> {
        opt_args("--backtitle"@, self.backtitle.deep_view()) + opt_args("--title"@, title) + seq![
            mode,
            text,
            self.height@,
            self.width@,
        ] + post
    }

    fn build(
        &self,
        title: &Option<String>,
        mode: &str,
        text: &str,
        post: &Option<String>,
    ) -> (c: Command)
        ensures
            c@ == (CommandSpec {
                program: "dialog"@,
                args: self.spec_args(title.deep_view(), mode@, text@, opt_tail(post.deep_view())),
                inherit_terminal: true,
            }),
    {
        let mut args: Vec<String> = Vec::new();
        if let Some(backtitle) = &self.backtitle {
            args.push("--backtitle".to_owned());
            args.push(backtitle.clone());
        }
        if let Some(t) = title {
            args.push("--title".to_owned());
            args.push(t.clone());
        }
        args.push(mode.to_owned());
        args.push(text.to_owned());
        args.push(self.height.clone());
        args.push(self.width.clone());
        if let Some(p) = post {
            args.push(p.clone());
        }
        let c = Command { program: "dialog".to_owned(), args, inherit_terminal: true };
        proof {
            assert(c.args.deep_view() =~= self.spec_args(
                title.deep_view(),
                mode@,
                text@,
                opt_tail(post.deep_view()),
            ));
        }
        c
    }

    /// The result of a message box for each exit status: code 0 succeeds,
    /// everything else is a failure naming the tool.
    pub open spec fn spec_success(status: ExitStatus) -> Result<(), ErrorSpec> {
        if status == ExitStatus::Code(0i32) {
            Ok(())
        } else {
            Err(ErrorSpec::Failure(spec_command_failure("dialog"@, status)))
        }
    }

    /// The choice a question box's exit status encodes: 0 is yes, 1 is no,
    /// 255 is cancel, and every other status is a failure.
    pub open spec fn spec_choice(status: ExitStatus) -> Result<Choice, ErrorSpec> {
        match status {
            ExitStatus::Code(code) => if code == 0 {
                Ok(Choice::Yes)
            } else if code == 1 {
                Ok(Choice::No)
            } else if code == 255 {
                Ok(Choice::Cancel)
            } else {
                Err(ErrorSpec::Failure(spec_command_failure("dialog"@, status)))
            },
            ExitStatus::Signal => Err(
                ErrorSpec::Failure(spec_command_failure("dialog"@, status)),
            ),
        }
    }

    /// An entered value resolved against an input box's default: the
    /// default — where one is configured — replaces an empty entry.
    pub open spec fn spec_or_default(entered: Seq<char>, default: Option<Seq<char>>) -> Seq<char> {
        if entered.len() == 0 && default is Some {
            default.unwrap()
        } else {
            entered
        }
    }

    /// The entered value an input box's outcome encodes: on code 0 the
    /// captured standard error, decoded as UTF-8, with the box's default
    /// replacing an empty entry; on the cancel codes 1 and 255 no value;
    /// anything else is a failure.
    pub open spec fn spec_input_value(
        output: RunOutputSpec,
        default: Option<Seq<char>>,
    ) -> Result<Option<Seq<char>>, ErrorSpec> {
        match output.status {
            ExitStatus::Code(code) => if code == 0 {
                if valid_utf8(output.stderr) {
                    Ok(Some(Dialog::spec_or_default(decode_utf8(output.stderr), default)))
                } else {
                    Err(ErrorSpec::Utf8)
                }
            } else if code == 1 || code == 255 {
                Ok(None)
            } else {
                Err(ErrorSpec::Failure(spec_command_failure("dialog"@, output.status)))
            },
            ExitStatus::Signal => Err(
                ErrorSpec::Failure(spec_command_failure("dialog"@, output.status)),
            ),
        }
    }

    /// The entered value a password box's outcome encodes: on code 0 the
    /// captured standard error, decoded as UTF-8; on the cancel codes 1
    /// and 255 no value; anything else is a failure.
    pub open spec fn spec_value(output: RunOutputSpec) -> Result<Option<Seq<char>>, ErrorSpec> {
        match output.status {
            ExitStatus::Code(code) => if code == 0 {
                if valid_utf8(output.stderr) {
                    Ok(Some(decode_utf8(output.stderr)))
                } else {
                    Err(ErrorSpec::Utf8)
                }
            } else if code == 1 || code == 255 {
                Ok(None)
            } else {
                Err(ErrorSpec::Failure(spec_command_failure("dialog"@, output.status)))
            },
            ExitStatus::Signal => Err(
                ErrorSpec::Failure(spec_command_failure("dialog"@, output.status)),
            ),
        }
    }
}

/// Maps a message box's exit status to its result.
pub fn require_success(status: ExitStatus) -> (r: Result<(), Error>)
    ensures
        result_deep(r) == Dialog::spec_success(status),
{
    match status {
        ExitStatus::Code(0i32) => Ok(()),
        _ => Err(command_failure("dialog", status)),
    }
}

/// Maps a question box's exit status to the choice it encodes.
pub fn get_choice(status: ExitStatus) -> (r: Result<Choice, Error>)
    ensures
        result_deep(r) == Dialog::spec_choice(status),
{
    match status {
        ExitStatus::Code(0i32) => Ok(Choice::Yes),
        ExitStatus::Code(1i32) => Ok(Choice::No),
        ExitStatus::Code(255i32) => Ok(Choice::Cancel),
        _ => Err(command_failure("dialog", status)),
    }
}

/// Extracts the entered value from an input box's outcome — the tool
/// writes it to its standard error — substituting the box's default for
/// an empty entry.
pub fn get_input_value(output: RunOutput, default: &Option<String>) -> (r: Result<
    Option<String>,
    Error,
>)
    ensures
        result_deep(r) == Dialog::spec_input_value(output@, default.deep_view()),
{
    match output.status {
        ExitStatus::Code(0i32) => match utf8_string(output.stderr) {
            Ok(s) => {
                if s.as_str().is_empty() {
                    if let Some(d) = default {
                        return Ok(Some(d.clone()));
                    }
                }
                Ok(Some(s))
            },
            Err(e) => Err(e),
        },
        ExitStatus::Code(1i32) => Ok(None),
        ExitStatus::Code(255i32) => Ok(None),
        status => Err(command_failure("dialog", status)),
    }
}

/// Extracts the entered value from a password box's outcome; the tool
/// writes it to its standard error.
pub fn get_stderr(output: RunOutput) -> (r: Result<Option<String>, Error>)
    ensures
        result_deep(r) == Dialog::spec_value(output@),
{
    match output.status {
        ExitStatus::Code(0i32) => match utf8_string(output.stderr) {
            Ok(s) => Ok(Some(s)),
            Err(e) => Err(e),
        },
        ExitStatus::Code(1i32) => Ok(None),
        ExitStatus::Code(255i32) => Ok(None),
        status => Err(command_failure("dialog", status)),
    }
}

/// The tool's exit-code table, read the documented way and no other: 0 is
/// the success path of every box — for a question it means yes, for an
/// input or password box it yields the decoded standard error — 1 means
/// no or cancel, 255 means cancel, and every remaining status is an
/// error, never a choice or a value.
pub proof fn lemma_exit_code_table(output: RunOutputSpec)
    ensures
        Dialog::spec_success(ExitStatus::Code(0)) == Ok::<(), ErrorSpec>(()),
        forall|c: i32| c != 0 ==> Dialog::spec_success(ExitStatus::Code(c)) is Err,
        Dialog::spec_success(ExitStatus::Signal) is Err,
        Dialog::spec_choice(ExitStatus::Code(0)) == Ok::<Choice, ErrorSpec>(Choice::Yes),
        Dialog::spec_choice(ExitStatus::Code(1)) == Ok::<Choice, ErrorSpec>(Choice::No),
        Dialog::spec_choice(ExitStatus::Code(255)) == Ok::<Choice, ErrorSpec>(Choice::Cancel),
        forall|c: i32|
            c != 0 && c != 1 && c != 255 ==> Dialog::spec_choice(ExitStatus::Code(c)) is Err,
        Dialog::spec_choice(ExitStatus::Signal) is Err,
        output.status == ExitStatus::Code(0) && valid_utf8(output.stderr) ==> Dialog::spec_value(
            output,
        ) == Ok::<Option<Seq<char>>, ErrorSpec>(Some(decode_utf8(output.stderr))),
        output.status == ExitStatus::Code(0) && !valid_utf8(output.stderr) ==> Dialog::spec_value(
            output,
        ) == Err::<Option<Seq<char>>, ErrorSpec>(ErrorSpec::Utf8),
        output.status == ExitStatus::Code(1) || output.status == ExitStatus::Code(255)
            ==> Dialog::spec_value(output) == Ok::<Option<Seq<char>>, ErrorSpec>(None),
{
}

/// When the user submits an empty value and a default was configured, an
/// input box returns the default, not the empty string.
pub proof fn lemma_default_on_empty_entry(output: RunOutputSpec, default: Seq<char>)
    requires
        output.status == ExitStatus::Code(0),
        valid_utf8(output.stderr),
        decode_utf8(output.stderr).len() == 0,
    ensures
        Dialog::spec_input_value(output, Some(default)) == Ok::<Option<Seq<char>>, ErrorSpec>(
            Some(default),
        ),
{
}

impl Backend for Dialog {
    open spec fn planned_message(&self, message: &Message) -> ActionSpec {
        ActionSpec::Run(
            CommandSpec {
                program: "dialog"@,
                args: self.spec_args(
                    message.title.deep_view(),
                    "--msgbox"@,
                    message.text@,
                    Seq::empty(),
                ),
                inherit_terminal: true,
            },
        )
    }

    open spec fn planned_input(&self, input: &Input) -> ActionSpec {
        ActionSpec::Run(
            CommandSpec {
                program: "dialog"@,
                args: self.spec_args(
                    input.title.deep_view(),
                    "--inputbox"@,
                    input.text@,
                    opt_tail(input.default.deep_view()),
                ),
                inherit_terminal: true,
            },
        )
    }

    open spec fn planned_password(&self, password: &Password) -> ActionSpec {
        ActionSpec::Run(
            CommandSpec {
                program: "dialog"@,
                args: self.spec_args(
                    password.title.deep_view(),
                    "--passwordbox"@,
                    password.text@,
                    Seq::empty(),
                ),
                inherit_terminal: true,
            },
        )
    }

    open spec fn planned_question(&self, question: &Question) -> ActionSpec {
        ActionSpec::Run(
            CommandSpec {
                program: "dialog"@,
                args: self.spec_args(
                    question.title.deep_view(),
                    "--yesno"@,
                    question.text@,
                    Seq::empty(),
                ),
                inherit_terminal: true,
            },
        )
    }

    open spec fn message_outcome(&self, response: ResponseSpec) -> Result<(), ErrorSpec> {
        match response {
            ResponseSpec::Finished(output) => Dialog::spec_success(output.status),
            _ => Err(ErrorSpec::Failure(spec_mismatch_message())),
        }
    }

    open spec fn input_outcome(&self, input: &Input, response: ResponseSpec) -> Result<
        Option<Seq<char>>,
        ErrorSpec,
    > {
        match response {
            ResponseSpec::Finished(output) => Dialog::spec_input_value(
                output,
                input.default.deep_view(),
            ),
            _ => Err(ErrorSpec::Failure(spec_mismatch_message())),
        }
    }

    open spec fn password_outcome(&self, response: ResponseSpec) -> Result<
        Option<Seq<char>>,
        ErrorSpec,
    > {
        match response {
            ResponseSpec::Finished(output) => Dialog::spec_value(output),
            _ => Err(ErrorSpec::Failure(spec_mismatch_message())),
        }
    }

    open spec fn question_outcome(&self, response: ResponseSpec) -> Result<Choice, ErrorSpec> {
        match response {
            ResponseSpec::Finished(output) => Dialog::spec_choice(output.status),
            _ => Err(ErrorSpec::Failure(spec_mismatch_message())),
        }
    }

    fn prepare_message(&self, message: &Message) -> (action: Action) {
        Action::Run(self.build(&message.title, "--msgbox", message.text.as_str(), &None))
    }

    fn prepare_input(&self, input: &Input) -> (action: Action) {
        Action::Run(self.build(&input.title, "--inputbox", input.text.as_str(), &input.default))
    }

    fn prepare_password(&self, password: &Password) -> (action: Action) {
        Action::Run(self.build(&password.title, "--passwordbox", password.text.as_str(), &None))
    }

    fn prepare_question(&self, question: &Question) -> (action: Action) {
        Action::Run(self.build(&question.title, "--yesno", question.text.as_str(), &None))
    }

    fn finish_message(&self, response: Response) -> (r: Result<(), Error>) {
        match response {
            Response::Finished(output) => require_success(output.status),
            _ => Err(mismatch_error()),
        }
    }

    fn finish_input(&self, input: &Input, response: Response) -> (r: Result<Option<String>, Error>) {
        match response {
            Response::Finished(output) => get_input_value(output, &input.default),
            _ => Err(mismatch_error()),
        }
    }

    fn finish_password(&self, response: Response) -> (r: Result<Option<String>, Error>) {
        match response {
            Response::Finished(output) => get_stderr(output),
            _ => Err(mismatch_error()),
        }
    }

    fn finish_question(&self, response: Response) -> (r: Result<Choice, Error>) {
        match response {
            Response::Finished(output) => get_choice(output.status),
            _ => Err(mismatch_error()),
        }
    }
}

} // verus!
