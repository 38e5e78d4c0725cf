//! The fallback backend using standard input and output.
//!
//! Dialogs become plain text on the terminal: the title is printed as an
//! underlined heading, the prompt on one line without a trailing newline,
//! and the answer is read back from standard input.  This backend is
//! intended as a fallback when no dialog tool is installed.

use vstd::prelude::*;

use crate::backends::mismatch_error;
use crate::backends::spec_mismatch_message;
use crate::backends::Action;
use crate::backends::ActionSpec;
use crate::backends::Backend;
use crate::backends::ReadKind;
use crate::backends::Response;
use crate::backends::ResponseSpec;
use crate::backends::Script;
use crate::backends::ScriptSpec;
use crate::error::Error;
use crate::error::ErrorSpec;
use crate::text::eq_ignore_ascii_case;
use crate::text::eq_ignore_case;
use crate::text::spec_trim_newlines;
use crate::text::spec_underline;
use crate::text::trim_trailing_newlines;
use crate::text::underline;
use crate::Choice;
use crate::Input;
use crate::Message;
use crate::Password;
use crate::Question;
use vstd::utf8::encode_utf8;

verus! {

/// The heading a title contributes: the title itself and a line of equals
/// signs as long as its byte representation, or nothing when no title is
/// set.
pub open spec fn spec_title_lines(title: Option<Seq<char>>) -> Seq<Seq<char>> {
    match title {
        Some(t) => seq![t, spec_underline(encode_utf8(t).len())],
        None => Seq::empty(),
    }
}

/// The prompt of an input dialog: the text, a bracketed hint showing the
/// default where one is set, and a colon.
pub open spec fn spec_input_prompt(text: Seq<char>, default: Option<Seq<char>>) -> Seq<char> {
    match default {
        Some(d) => text + " [default: "@ + d + "]: "@,
        None => text + ": "@,
    }
}

/// The choice an answer to a question dialog encodes: `y` or `yes` means
/// yes and `n` or `no` means no, all without regard to ASCII case; any
/// other answer — the empty one included — means cancel.
pub open spec fn spec_parse_choice(input: Seq<char>) -> Choice {
    if eq_ignore_case(input, "y"@) || eq_ignore_case(input, "yes"@) {
        Choice::Yes
    } else if eq_ignore_case(input, "n"@) || eq_ignore_case(input, "no"@) {
        Choice::No
    } else {
        Choice::Cancel
    }
}

/// The value an input dialog returns for a line read from the terminal:
/// the line without its trailing newline, except that the default — where
/// one is set — replaces an empty entry.
pub open spec fn spec_resolve_input(line: Seq<char>, default: Option<Seq<char>>) -> Seq<char> {
    let entered = spec_trim_newlines(line);
    if entered.len() == 0 && default is Some {
        default.unwrap()
    } else {
        entered
    }
}

/// The fallback's success path is total: a finished conversation is the
/// message dialog's success, and every answered line yields a value or a
/// choice — an unrecognised or empty answer means cancel, never an error.
pub proof fn lemma_conversation_always_succeeds(backend: &Stdio, input: &Input, line: Seq<char>)
    ensures
        backend.message_outcome(ResponseSpec::Done) == Ok::<(), ErrorSpec>(()),
        backend.input_outcome(input, ResponseSpec::Answer(line)) is Ok,
        backend.password_outcome(ResponseSpec::Answer(line)) is Ok,
        backend.question_outcome(ResponseSpec::Answer(line)) is Ok,
{
}

/// When the entered line is empty after trimming and a default was
/// configured, an input dialog returns the default, not the empty string.
pub proof fn lemma_default_on_empty_input(line: Seq<char>, default: Seq<char>)
    requires
        spec_trim_newlines(line).len() == 0,
    ensures
        spec_resolve_input(line, Some(default)) == default,
{
}

/// A non-empty entry always wins over the default: an input dialog
/// returns the trimmed line itself.
pub proof fn lemma_entered_value_wins(line: Seq<char>, default: Option<Seq<char>>)
    requires
        spec_trim_newlines(line).len() > 0,
    ensures
        spec_resolve_input(line, default) == spec_trim_newlines(line),
{
}

/// Parses an answer to a question dialog.
pub fn parse_choice(input: &str) -> (c: Choice)
    ensures
        c == spec_parse_choice(input@),
{
    if eq_ignore_ascii_case(input, "y") || eq_ignore_ascii_case(input, "yes") {
        Choice::Yes
    } else if eq_ignore_ascii_case(input, "n") || eq_ignore_ascii_case(input, "no") {
        Choice::No
    } else {
        Choice::Cancel
    }
}

/// Resolves a line read from the terminal against an input dialog's
/// default value.
pub fn resolve_input(line: &str, default: &Option<String>) -> (entered: String)
    ensures
        entered@ == spec_resolve_input(line@, default.deep_view()),
{
    let trimmed = trim_trailing_newlines(line);
    if trimmed.as_str().unicode_len() == 0 {
        if let Some(d) = default {
            return d.clone();
        }
    }
    trimmed
}

fn title_lines(title: &Option<String>) -> (lines: Vec<String>)
    ensures
        lines.deep_view() == spec_title_lines(title.deep_view()),
{
    let mut lines: Vec<String> = Vec::new();
    if let Some(t) = title {
        lines.push(t.clone());
        lines.push(underline(t.as_str().as_bytes().len()));
    }
    proof {
        assert(lines.deep_view() =~= spec_title_lines(title.deep_view()));
    }
    lines
}

fn input_prompt(text: &str, default: &Option<String>) -> (prompt: String)
    ensures
        prompt@ == spec_input_prompt(text@, default.deep_view()),
{
    match default {
        Some(d) => {
            let prompt = String::from_str(text).concat(" [default: ").concat(d.as_str()).concat(
                "]: ",
            );
            assert(prompt@ =~= spec_input_prompt(text@, default.deep_view()));
            prompt
        },
        None => String::from_str(text).concat(": "),
    }
}

/// The fallback backend.
#[derive(Debug)]
pub struct Stdio {}

impl Stdio {
    /// Creates a new `Stdio` instance.
    pub fn new() -> Stdio {
        Stdio {}
    }
}

impl Backend for Stdio {
    open spec fn planned_message(&self, message: &Message) -> ActionSpec {
        ActionSpec::Converse(
            ScriptSpec {
                lines: spec_title_lines(message.title.deep_view()).push(message.text@),
                prompt: None,
                read: ReadKind::Nothing,
            },
        )
    }

    open spec fn planned_input(&self, input: &Input) -> ActionSpec {
        ActionSpec::Converse(
            ScriptSpec {
                lines: spec_title_lines(input.title.deep_view()),
                prompt: Some(spec_input_prompt(input.text@, input.default.deep_view())),
                read: ReadKind::Line,
            },
        )
    }

    open spec fn planned_password(&self, password: &Password) -> ActionSpec {
        ActionSpec::Converse(
            ScriptSpec {
                lines: spec_title_lines(password.title.deep_view()),
                prompt: Some(password.text@ + ": "@),
                read: ReadKind::Secret,
            },
        )
    }

    open spec fn planned_question(&self, question: &Question) -> ActionSpec {
        ActionSpec::Converse(
            ScriptSpec {
                lines: spec_title_lines(question.title.deep_view()),
                prompt: Some(question.text@ + " [y/n]: "@),
                read: ReadKind::Line,
            },
        )
    }

    open spec fn message_outcome(&self, response: ResponseSpec) -> Result<(), ErrorSpec> {
        match response {
            ResponseSpec::Done => Ok(()),
            _ => Err(ErrorSpec::Failure(spec_mismatch_message())),
        }
    }

    open spec fn input_outcome(&self, input: &Input, response: ResponseSpec) -> Result<
        Option<Seq<char>>,
        ErrorSpec,
    > {
        match response {
            ResponseSpec::Answer(line) => Ok(
                Some(spec_resolve_input(line, input.default.deep_view())),
            ),
            _ => Err(ErrorSpec::Failure(spec_mismatch_message())),
        }
    }

    open spec fn password_outcome(&self, response: ResponseSpec) -> Result<
        Option<Seq<char>>,
        ErrorSpec,
    > {
        match response {
            ResponseSpec::Answer(password) => Ok(Some(password)),
            _ => Err(ErrorSpec::Failure(spec_mismatch_message())),
        }
    }

    open spec fn question_outcome(&self, response: ResponseSpec) -> Result<Choice, ErrorSpec> {
        match response {
            ResponseSpec::Answer(line) => Ok(spec_parse_choice(spec_trim_newlines(line))),
            _ => Err(ErrorSpec::Failure(spec_mismatch_message())),
        }
    }

    fn prepare_message(&self, message: &Message) -> (action: Action) {
        let mut lines = title_lines(&message.title);
        lines.push(message.text.clone());
        proof {
            assert(lines.deep_view() =~= spec_title_lines(message.title.deep_view()).push(
                message.text@,
            ));
        }
        Action::Converse(Script { lines, prompt: None, read: ReadKind::Nothing })
    }

    fn prepare_input(&self, input: &Input) -> (action: Action) {
        let lines = title_lines(&input.title);
        let prompt = input_prompt(input.text.as_str(), &input.default);
        Action::Converse(Script { lines, prompt: Some(prompt), read: ReadKind::Line })
    }

    fn prepare_password(&self, password: &Password) -> (action: Action) {
        let lines = title_lines(&password.title);
        let prompt = String::from_str(password.text.as_str()).concat(": ");
        Action::Converse(Script { lines, prompt: Some(prompt), read: ReadKind::Secret })
    }

    fn prepare_question(&self, question: &Question) -> (action: Action) {
        let lines = title_lines(&question.title);
        let prompt = String::from_str(question.text.as_str()).concat(" [y/n]: ");
        Action::Converse(Script { lines, prompt: Some(prompt), read: ReadKind::Line })
    }

    fn finish_message(&self, response: Response) -> (r: Result<(), Error>) {
        match response {
            Response::Done => Ok(()),
            _ => Err(mismatch_error()),
        }
    }

    fn finish_input(&self, input: &Input, response: Response) -> (r: Result<Option<String>, Error>) {
        match response {
            Response::Answer(line) => Ok(Some(resolve_input(line.as_str(), &input.default))),
            _ => Err(mismatch_error()),
        }
    }

    fn finish_password(&self, response: Response) -> (r: Result<Option<String>, Error>) {
        match response {
            Response::Answer(password) => Ok(Some(password)),
            _ => Err(mismatch_error()),
        }
    }

    fn finish_question(&self, response: Response) -> (r: Result<Choice, Error>) {
        match response {
            Response::Answer(line) => {
                let entered = trim_trailing_newlines(line.as_str());
                Ok(parse_choice(entered.as_str()))
            },
            _ => Err(mismatch_error()),
        }
    }
}

} // verus!
