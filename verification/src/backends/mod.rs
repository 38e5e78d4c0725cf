//! Backends that display dialog boxes.
//!
//! A backend is a pure adapter between a dialog request and one concrete
//! presentation mechanism.  It compiles a request into an [`Action`] — either
//! a command line for an external tool or a conversation on the terminal —
//! and interprets the host's [`Response`] as the request's typed result.
//! The host program that owns the process and the terminal performs the
//! action and hands the response back; every decision on either side of that
//! exchange is made here and verified.

pub mod dialog;
pub mod kdialog;
pub mod stdio;
pub mod zenity;

use vstd::prelude::*;

pub use crate::backends::dialog::Dialog;
pub use crate::backends::kdialog::KDialog;
pub use crate::backends::stdio::Stdio;
pub use crate::backends::zenity::Zenity;

use crate::error::Error;
use crate::error::ErrorSpec;
use crate::text::eq_ignore_ascii_case;
use crate::text::eq_ignore_case;
use crate::text::spec_decimal_int;
use crate::text::decimal_string_i32;
use crate::Choice;
use crate::Input;
use crate::Message;
use crate::Password;
use crate::Question;
use vstd::utf8::decode_utf8;
use vstd::utf8::valid_utf8;

verus! {

/// Exit status of a finished child process.
#[derive(Clone, Copy, Debug, PartialEq, Eq, Structural)]
pub enum ExitStatus {
    /// The process exited with this status code.
    Code(i32),
    /// The process was terminated by a signal.
    Signal,
}

/// Everything a finished child process left behind.
#[derive(Debug)]
pub struct RunOutput {
    /// How the process ended.
    pub status: ExitStatus,
    /// The bytes the process wrote to its standard output, if captured.
    pub stdout: Vec<u8>,
    /// The bytes the process wrote to its standard error, if captured.
    pub stderr: Vec<u8>,
}

/// The abstract shape of a [`RunOutput`].
pub struct RunOutputSpec {
    /// How the process ended.
    pub status: ExitStatus,
    /// The captured standard output.
    pub stdout: Seq<u8>,
    /// The captured standard error.
    pub stderr: Seq<u8>,
}

impl View for RunOutput {
    type V = RunOutputSpec;

    open spec fn view(&self) -> RunOutputSpec {
        RunOutputSpec { status: self.status, stdout: self.stdout@, stderr: self.stderr@ }
    }
}

/// A command line for an external dialog tool.
#[derive(Debug)]
pub struct Command {
    /// The name of the program to run.
    pub program: String,
    /// The arguments, in order.
    pub args: Vec<String>,
    /// Whether the child must inherit the terminal's standard input and
    /// output (the text-mode tool draws on them); its standard error is
    /// captured either way, as is standard output when not inherited.
    pub inherit_terminal: bool,
}

/// The abstract shape of a [`Command`].
pub struct CommandSpec {
    /// The name of the program to run.
    pub program: Seq<char>,
    /// The arguments, in order.
    pub args: Seq<Seq<char>>,
    /// Whether the child must inherit the terminal's standard input and output.
    pub inherit_terminal: bool,
}

impl View for Command {
    type V = CommandSpec;

    open spec fn view(&self) -> CommandSpec {
        CommandSpec {
            program: self.program@,
            args: self.args.deep_view(),
            inherit_terminal: self.inherit_terminal,
        }
    }
}

/// What the terminal fallback reads after printing its prompt.
#[derive(Clone, Copy, Debug, PartialEq, Eq, Structural)]
pub enum ReadKind {
    /// Nothing is read; the dialog only prints.
    Nothing,
    /// A line is read and handed back as the answer.
    Line,
    /// A secret is read without echo and handed back as the answer.
    Secret,
}

/// A conversation to hold on the terminal: lines to print, a prompt to
/// print without a trailing newline (flushing before any read), and what
/// to read afterwards.
#[derive(Debug)]
pub struct Script {
    /// Lines printed first, each followed by a newline.
    pub lines: Vec<String>,
    /// A prompt printed without a newline, if any.
    pub prompt: Option<String>,
    /// What the host reads after printing.
    pub read: ReadKind,
}

/// The abstract shape of a [`Script`].
pub struct ScriptSpec {
    /// Lines printed first, each followed by a newline.
    pub lines: Seq<Seq<char>>,
    /// A prompt printed without a newline, if any.
    pub prompt: Option<Seq<char>>,
    /// What the host reads after printing.
    pub read: ReadKind,
}

impl View for Script {
    type V = ScriptSpec;

    open spec fn view(&self) -> ScriptSpec {
        ScriptSpec {
            lines: self.lines.deep_view(),
            prompt: self.prompt.deep_view(),
            read: self.read,
        }
    }
}

/// What a backend asks the host to do for one dialog.
#[derive(Debug)]
pub enum Action {
    /// Run this command and wait for it.
    Run(Command),
    /// Hold this conversation on the terminal.
    Converse(Script),
}

/// The abstract shape of an [`Action`].
pub enum ActionSpec {
    /// Run this command and wait for it.
    Run(CommandSpec),
    /// Hold this conversation on the terminal.
    Converse(ScriptSpec),
}

impl View for Action {
    type V = ActionSpec;

    open spec fn view(&self) -> ActionSpec {
        match self {
            Action::Run(command) => ActionSpec::Run(command@),
            Action::Converse(script) => ActionSpec::Converse(script@),
        }
    }
}

/// What came back from performing an [`Action`].
#[derive(Debug)]
pub enum Response {
    /// The command finished with this output.
    Finished(RunOutput),
    /// The terminal read produced this text, exactly as read.
    Answer(String),
    /// The conversation printed and read nothing further.
    Done,
}

/// The abstract shape of a [`Response`].
pub enum ResponseSpec {
    /// The command finished with this output.
    Finished(RunOutputSpec),
    /// The terminal read produced this text, exactly as read.
    Answer(Seq<char>),
    /// The conversation printed and read nothing further.
    Done,
}

impl View for Response {
    type V = ResponseSpec;

    open spec fn view(&self) -> ResponseSpec {
        match self {
            Response::Finished(output) => ResponseSpec::Finished(output@),
            Response::Answer(text) => ResponseSpec::Answer(text@),
            Response::Done => ResponseSpec::Done,
        }
    }
}

/// A flag and its value, or nothing: the argument pair an optional
/// setting contributes to a command line.
pub open spec fn opt_args(flag: Seq<char>, value: Option<Seq<char>>) -> Seq<Seq<char>> {
    match value {
        Some(v) => seq![flag, v],
        None => Seq::empty(),
    }
}

/// A bare optional trailing argument.
pub open spec fn opt_tail(value: Option<Seq<char>>) -> Seq<Seq<char>> {
    match value {
        Some(v) => seq![v],
        None => Seq::empty(),
    }
}

/// A result with its payload and error abstracted to their model values.
pub open spec fn result_deep<T: DeepView>(r: Result<T, Error>) -> Result<T::V, ErrorSpec> {
    match r {
        Ok(v) => Ok(v.deep_view()),
        Err(e) => Err(e@),
    }
}

/// A dialog backend.
///
/// Each operation comes in two halves.  `prepare_*` compiles a request into
/// the [`Action`] the host must perform; `finish_*` interprets the host's
/// [`Response`] as the dialog's typed result.  Both halves are specified
/// exactly by the spec functions, which every implementation defines.
pub trait Backend {
    /// The action that shows the given message dialog.
    spec fn planned_message(&self, message: &Message) -> ActionSpec;

    /// The action that shows the given input dialog.
    spec fn planned_input(&self, input: &Input) -> ActionSpec;

    /// The action that shows the given password dialog.
    spec fn planned_password(&self, password: &Password) -> ActionSpec;

    /// The action that shows the given question dialog.
    spec fn planned_question(&self, question: &Question) -> ActionSpec;

    /// The result of a message dialog for every possible response.
    spec fn message_outcome(&self, response: ResponseSpec) -> Result<(), ErrorSpec>;

    /// The result of an input dialog for every possible response.
    spec fn input_outcome(&self, input: &Input, response: ResponseSpec) -> Result<
        Option<Seq<char>>,
        ErrorSpec,
    >;

    /// The result of a password dialog for every possible response.
    spec fn password_outcome(&self, response: ResponseSpec) -> Result<Option<Seq<char>>, ErrorSpec>;

    /// The result of a question dialog for every possible response.
    spec fn question_outcome(&self, response: ResponseSpec) -> Result<Choice, ErrorSpec>;

    /// Compiles the given message dialog into an action.
    fn prepare_message(&self, message: &Message) -> (action: Action)
        ensures
            action@ == self.planned_message(message),
    ;

    /// Compiles the given input dialog into an action.
    fn prepare_input(&self, input: &Input) -> (action: Action)
        ensures
            action@ == self.planned_input(input),
    ;

    /// Compiles the given password dialog into an action.
    fn prepare_password(&self, password: &Password) -> (action: Action)
        ensures
            action@ == self.planned_password(password),
    ;

    /// Compiles the given question dialog into an action.
    fn prepare_question(&self, question: &Question) -> (action: Action)
        ensures
            action@ == self.planned_question(question),
    ;

    /// Interprets the response to a message dialog.
    fn finish_message(&self, response: Response) -> (r: Result<(), Error>)
        ensures
            result_deep(r) == self.message_outcome(response@),
    ;

    /// Interprets the response to an input dialog.
    fn finish_input(&self, input: &Input, response: Response) -> (r: Result<Option<String>, Error>)
        ensures
            result_deep(r) == self.input_outcome(input, response@),
    ;

    /// Interprets the response to a password dialog.
    fn finish_password(&self, response: Response) -> (r: Result<Option<String>, Error>)
        ensures
            result_deep(r) == self.password_outcome(response@),
    ;

    /// Interprets the response to a question dialog.
    fn finish_question(&self, response: Response) -> (r: Result<Choice, Error>)
        ensures
            result_deep(r) == self.question_outcome(response@),
    ;
}

/// Names one of the four backends, as the resolver picks it.
#[derive(Clone, Copy, Debug, PartialEq, Eq, Structural)]
pub enum BackendId {
    /// The text-mode `dialog` tool.
    Dialog,
    /// The Qt-based `kdialog` tool.
    KDialog,
    /// The terminal fallback.
    Stdio,
    /// The GTK-based `zenity` tool.
    Zenity,
}

/// The backend a name selects, compared without regard to ASCII case.
pub open spec fn spec_from_str(s: Seq<char>) -> Option<BackendId> {
    if eq_ignore_case(s, "dialog"@) {
        Some(BackendId::Dialog)
    } else if eq_ignore_case(s, "kdialog"@) {
        Some(BackendId::KDialog)
    } else if eq_ignore_case(s, "stdio"@) {
        Some(BackendId::Stdio)
    } else if eq_ignore_case(s, "zenity"@) {
        Some(BackendId::Zenity)
    } else {
        None
    }
}

/// Parses a backend name, ignoring ASCII case; unknown names give `None`.
pub fn from_str(s: &str) -> (r: Option<BackendId>)
    ensures
        r == spec_from_str(s@),
{
    if eq_ignore_ascii_case(s, "dialog") {
        Some(BackendId::Dialog)
    } else if eq_ignore_ascii_case(s, "kdialog") {
        Some(BackendId::KDialog)
    } else if eq_ignore_ascii_case(s, "stdio") {
        Some(BackendId::Stdio)
    } else if eq_ignore_ascii_case(s, "zenity") {
        Some(BackendId::Zenity)
    } else {
        None
    }
}

/// The message reported when an external tool fails.
pub open spec fn spec_command_failure(tool: Seq<char>, status: ExitStatus) -> Seq<char> {
    match status {
        ExitStatus::Code(code) => "Command "@ + tool + " failed with exit status "@
            + spec_decimal_int(code as int),
        ExitStatus::Signal => "Command "@ + tool + " was terminated by a signal"@,
    }
}

/// The error reported when an external tool exits outside its recognised
/// code set or is killed by a signal.
pub fn command_failure(tool: &str, status: ExitStatus) -> (e: Error)
    ensures
        e@ == ErrorSpec::Failure(spec_command_failure(tool@, status)),
{
    match status {
        ExitStatus::Code(code) => {
            let message = String::from_str("Command ").concat(tool).concat(
                " failed with exit status ",
            ).concat(decimal_string_i32(code).as_str());
            assert(message@ =~= spec_command_failure(tool@, ExitStatus::Code(code)));
            Error::Error(message)
        },
        ExitStatus::Signal => {
            let message = String::from_str("Command ").concat(tool).concat(
                " was terminated by a signal",
            );
            assert(message@ =~= spec_command_failure(tool@, ExitStatus::Signal));
            Error::Error(message)
        },
    }
}

/// The message reported when a response does not fit the prepared action.
pub open spec fn spec_mismatch_message() -> Seq<char> {
    "the response does not match the requested dialog"@
}

/// The error reported when a response does not fit the prepared action —
/// a process outcome handed to the terminal fallback, or the other way
/// around.
pub fn mismatch_error() -> (e: Error)
    ensures
        e@ == ErrorSpec::Failure(spec_mismatch_message()),
{
    Error::Error(String::from_str("the response does not match the requested dialog"))
}

/// Relies on `String::from_utf8`: it returns `Ok` exactly when the bytes
/// are valid UTF-8, decoding them, and its error carries the UTF-8 error.
#[verifier::external_body]
pub(crate) fn utf8_string(bytes: Vec<u8>) -> (r: Result<String, Error>)
    ensures
        (match r {
            Ok(s) => valid_utf8(bytes@) && s@ == decode_utf8(bytes@),
            Err(e) => !valid_utf8(bytes@) && e@ is Utf8,
        }),
{
    match String::from_utf8(bytes) {
        Ok(s) => Ok(s),
        Err(e) => Err(Error::Utf8Error(e.utf8_error())),
    }
}

} // verus!
