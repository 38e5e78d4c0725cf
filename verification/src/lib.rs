//! Dialog boxes rendered through interchangeable presentation backends.
//!
//! The crate models four kinds of dialog requests ([`Message`], [`Input`],
//! [`Password`], [`Question`]) and four backends that present them: the
//! text-mode `dialog` tool, the Qt-based `kdialog` tool, the GTK-based
//! `zenity` tool, and a plain terminal fallback ([`backends::Stdio`]).
//!
//! Backends are pure adapters: they compile a request into an [`backends::Action`]
//! (a command line to run, or a terminal conversation to hold) and interpret
//! the host's [`backends::Response`] (an exit status with captured output, or
//! a line read from the terminal) as the request's typed result.  A host
//! program performs the action — spawning the child process or reading the
//! terminal — and hands the response back.  Both directions are fully
//! specified and verified; only the host's I/O sits outside the crate.

use vstd::prelude::*;

pub mod backends;
mod error;
pub mod text;

pub use crate::error::Error;
pub use crate::error::ErrorSpec;

use crate::backends::result_deep;
use crate::backends::spec_from_str;
use crate::backends::Action;
use crate::backends::ActionSpec;
use crate::backends::Backend;
use crate::backends::BackendId;
use crate::backends::Response;
use crate::backends::ResponseSpec;
use crate::text::str_eq;

verus! {

/// A dialog box that a backend can show.
///
/// Showing a dialog is an exchange with the host program: `prepare_with`
/// compiles the dialog into the [`Action`] the host must perform with the
/// given backend, and `finish_with` interprets the host's [`Response`] as
/// this dialog's `Output`.  Both halves forward to the backend operation
/// matching the dialog's kind, and carry that operation's exact contract.
pub trait DialogBox<B: Backend>: Sized {
    /// The type of the data returned by the dialog box.
    type Output: DeepView;

    /// The action that shows this dialog with the given backend.
    spec fn planned_with(&self, backend: &B) -> ActionSpec;

    /// This dialog's result for every possible response from the host.
    spec fn outcome_with(&self, backend: &B, response: ResponseSpec) -> Result<
        <Self::Output as DeepView>::V,
        ErrorSpec,
    >;

    /// Compiles this dialog into the action the host must perform.
    fn prepare_with(&self, backend: &B) -> (action: Action)
        ensures
            action@ == self.planned_with(backend),
    ;

    /// Interprets the host's response as this dialog's output.
    fn finish_with(&self, backend: &B, response: Response) -> (r: Result<Self::Output, Error>)
        ensures
            result_deep(r) == self.outcome_with(backend, response@),
    ;
}

/// A user's choice in a question dialog box.
#[derive(Clone, Copy, Debug, PartialEq, Eq, Structural)]
pub enum Choice {
    /// The yes button.
    Yes,
    /// The no button.
    No,
    /// The cancel button or a cancelled dialog.
    Cancel,
}

impl DeepView for Choice {
    type V = Choice;

    open spec fn deep_view(&self) -> Choice {
        *self
    }
}

/// A message box with a text, an optional title and a single OK button.
pub struct Message {
    /// The text shown in the body of the dialog box.
    pub text: String,
    /// The title of the dialog box, if one was set.
    pub title: Option<String>,
}

impl Message {
    /// Creates a new message box with the given text.
    pub fn new(text: &str) -> (m: Message)
        ensures
            m.text@ == text@,
            m.title is None,
    {
        Message { text: text.to_owned(), title: None }
    }

    /// Sets the title of this message box, replacing any earlier title.
    pub fn title(&mut self, title: &str)
        ensures
            final(self).text == old(self).text,
            final(self).title.deep_view() == Some(title@),
    {
        self.title = Some(title.to_owned());
    }
}

/// A dialog box with a text input field.
///
/// The dialog returns the text entered by the user, or `None` if the user
/// cancelled it.
pub struct Input {
    /// The text shown beside the input field.
    pub text: String,
    /// The title of the dialog box, if one was set.
    pub title: Option<String>,
    /// The default value offered in the input field, if one was set.
    pub default: Option<String>,
}

impl Input {
    /// Creates a new input dialog box with the given text.
    pub fn new(text: &str) -> (i: Input)
        ensures
            i.text@ == text@,
            i.title is None,
            i.default is None,
    {
        Input { text: text.to_owned(), title: None, default: None }
    }

    /// Sets the title of this input box, replacing any earlier title.
    pub fn title(&mut self, title: &str)
        ensures
            final(self).text == old(self).text,
            final(self).default == old(self).default,
            final(self).title.deep_view() == Some(title@),
    {
        self.title = Some(title.to_owned());
    }

    /// Sets the default value of this input box, replacing any earlier one.
    pub fn default(&mut self, default: &str)
        ensures
            final(self).text == old(self).text,
            final(self).title == old(self).title,
            final(self).default.deep_view() == Some(default@),
    {
        self.default = Some(default.to_owned());
    }
}

/// A dialog box with a password input field.
///
/// The dialog returns the password entered by the user, or `None` if the
/// user cancelled it.  The entered value is only ever handed back to the
/// caller; nothing here prints or records it.
pub struct Password {
    /// The text shown beside the password field.
    pub text: String,
    /// The title of the dialog box, if one was set.
    pub title: Option<String>,
}

impl Password {
    /// Creates a new password dialog box with the given text.
    pub fn new(text: &str) -> (p: Password)
        ensures
            p.text@ == text@,
            p.title is None,
    {
        Password { text: text.to_owned(), title: None }
    }

    /// Sets the title of this password dialog box, replacing any earlier title.
    pub fn title(&mut self, title: &str)
        ensures
            final(self).text == old(self).text,
            final(self).title.deep_view() == Some(title@),
    {
        self.title = Some(title.to_owned());
    }
}

/// A question dialog box with a yes and a no button.
///
/// The dialog returns the button pressed by the user, or [`Choice::Cancel`]
/// if the dialog was cancelled.
pub struct Question {
    /// The text shown above the buttons.
    pub text: String,
    /// The title of the dialog box, if one was set.
    pub title: Option<String>,
}

impl Question {
    /// Creates a new question dialog with the given text.
    pub fn new(text: &str) -> (q: Question)
        ensures
            q.text@ == text@,
            q.title is None,
    {
        Question { text: text.to_owned(), title: None }
    }

    /// Sets the title of this question dialog box, replacing any earlier title.
    pub fn title(&mut self, title: &str)
        ensures
            final(self).text == old(self).text,
            final(self).title.deep_view() == Some(title@),
    {
        self.title = Some(title.to_owned());
    }
}

impl<B: Backend> DialogBox<B> for Message {
    type Output = ();

    open spec fn planned_with(&self, backend: &B) -> ActionSpec {
        backend.planned_message(self)
    }

    open spec fn outcome_with(&self, backend: &B, response: ResponseSpec) -> Result<
        (),
        ErrorSpec,
    > {
        backend.message_outcome(response)
    }

    fn prepare_with(&self, backend: &B) -> (action: Action) {
        backend.prepare_message(self)
    }

    fn finish_with(&self, backend: &B, response: Response) -> (r: Result<(), Error>) {
        backend.finish_message(response)
    }
}

impl<B: Backend> DialogBox<B> for Input {
    type Output = Option<String>;

    open spec fn planned_with(&self, backend: &B) -> ActionSpec {
        backend.planned_input(self)
    }

    open spec fn outcome_with(&self, backend: &B, response: ResponseSpec) -> Result<
        Option<Seq<char>>,
        ErrorSpec,
    > {
        backend.input_outcome(self, response)
    }

    fn prepare_with(&self, backend: &B) -> (action: Action) {
        backend.prepare_input(self)
    }

    fn finish_with(&self, backend: &B, response: Response) -> (r: Result<Option<String>, Error>) {
        backend.finish_input(self, response)
    }
}

impl<B: Backend> DialogBox<B> for Password {
    type Output = Option<String>;

    open spec fn planned_with(&self, backend: &B) -> ActionSpec {
        backend.planned_password(self)
    }

    open spec fn outcome_with(&self, backend: &B, response: ResponseSpec) -> Result<
        Option<Seq<char>>,
        ErrorSpec,
    > {
        backend.password_outcome(response)
    }

    fn prepare_with(&self, backend: &B) -> (action: Action) {
        backend.prepare_password(self)
    }

    fn finish_with(&self, backend: &B, response: Response) -> (r: Result<Option<String>, Error>) {
        backend.finish_password(response)
    }
}

impl<B: Backend> DialogBox<B> for Question {
    type Output = Choice;

    open spec fn planned_with(&self, backend: &B) -> ActionSpec {
        backend.planned_question(self)
    }

    open spec fn outcome_with(&self, backend: &B, response: ResponseSpec) -> Result<
        Choice,
        ErrorSpec,
    > {
        backend.question_outcome(response)
    }

    fn prepare_with(&self, backend: &B) -> (action: Action) {
        backend.prepare_question(self)
    }

    fn finish_with(&self, backend: &B, response: Response) -> (r: Result<Choice, Error>) {
        backend.finish_question(response)
    }
}

/// A snapshot of the environment signals and tool availability the
/// resolver decides on.
///
/// The host fills it in before asking for the default backend: the
/// override variable `DIALOG`, the desktop-session variable
/// `XDG_CURRENT_DESKTOP`, the display variable `DISPLAY`, and — by
/// probing the directories on the search path — whether each external
/// tool is installed.
pub struct EnvInfo {
    /// The value of the override variable `DIALOG`, if set.
    pub dialog_override: Option<String>,
    /// The value of `XDG_CURRENT_DESKTOP`, if set.
    pub desktop: Option<String>,
    /// The value of `DISPLAY`, if set.
    pub display: Option<String>,
    /// Whether the `dialog` tool is installed.
    pub dialog_installed: bool,
    /// Whether the `kdialog` tool is installed.
    pub kdialog_installed: bool,
    /// Whether the `zenity` tool is installed.
    pub zenity_installed: bool,
}

/// The abstract shape of an [`EnvInfo`].
pub struct EnvInfoSpec {
    /// The value of the override variable, if set.
    pub dialog_override: Option<Seq<char>>,
    /// The value of the desktop-session variable, if set.
    pub desktop: Option<Seq<char>>,
    /// The value of the display variable, if set.
    pub display: Option<Seq<char>>,
    /// Whether the `dialog` tool is installed.
    pub dialog_installed: bool,
    /// Whether the `kdialog` tool is installed.
    pub kdialog_installed: bool,
    /// Whether the `zenity` tool is installed.
    pub zenity_installed: bool,
}

impl View for EnvInfo {
    type V = EnvInfoSpec;

    open spec fn view(&self) -> EnvInfoSpec {
        EnvInfoSpec {
            dialog_override: self.dialog_override.deep_view(),
            desktop: self.desktop.deep_view(),
            display: self.display.deep_view(),
            dialog_installed: self.dialog_installed,
            kdialog_installed: self.kdialog_installed,
            zenity_installed: self.zenity_installed,
        }
    }
}

/// The backend the resolver picks for an environment snapshot:
/// 1. a known backend named by the override variable, in any ASCII case;
/// 2. else `kdialog`, when the desktop session is KDE and the tool is installed;
/// 3. else, when a display is present and non-empty, `zenity` if installed,
///    and otherwise `kdialog` if installed;
/// 4. else `dialog`, if installed;
/// 5. else the terminal fallback.
pub open spec fn spec_default_backend(env: EnvInfoSpec) -> BackendId {
    if env.dialog_override matches Some(name) && spec_from_str(name) is Some {
        spec_from_str(env.dialog_override.unwrap()).unwrap()
    } else if env.kdialog_installed && env.desktop == Some("KDE"@) {
        BackendId::KDialog
    } else if env.display matches Some(d) && d.len() > 0 && env.zenity_installed {
        BackendId::Zenity
    } else if env.display matches Some(d) && d.len() > 0 && env.kdialog_installed {
        BackendId::KDialog
    } else if env.dialog_installed {
        BackendId::Dialog
    } else {
        BackendId::Stdio
    }
}

/// Chooses the default backend for the given environment snapshot.
///
/// An unknown override name falls through to the later steps rather than
/// failing; the resolution never fails — at worst it lands on the
/// terminal fallback.
pub fn default_backend(env: &EnvInfo) -> (b: BackendId)
    ensures
        b == spec_default_backend(env@),
{
    if let Some(name) = &env.dialog_override {
        if let Some(id) = backends::from_str(name.as_str()) {
            return id;
        }
    }
    if env.kdialog_installed {
        if let Some(desktop) = &env.desktop {
            if str_eq(desktop.as_str(), "KDE") {
                return BackendId::KDialog;
            }
        }
    }
    if let Some(display) = &env.display {
        if display.as_str().unicode_len() > 0 {
            if env.zenity_installed {
                return BackendId::Zenity;
            }
            if env.kdialog_installed {
                return BackendId::KDialog;
            }
        }
    }
    if env.dialog_installed {
        BackendId::Dialog
    } else {
        BackendId::Stdio
    }
}

/// When the override variable names a known backend — in any ASCII case —
/// the resolver selects exactly that backend, whatever the rest of the
/// environment holds.
pub proof fn lemma_override_selects_backend(env: EnvInfoSpec, name: Seq<char>, id: BackendId)
    requires
        env.dialog_override == Some(name),
        spec_from_str(name) == Some(id),
    ensures
        spec_default_backend(env) == id,
{
}

/// Without an override, a KDE desktop session with `kdialog` installed
/// selects `kdialog`, even when a display is also present.
pub proof fn lemma_kde_prefers_kdialog(env: EnvInfoSpec)
    requires
        env.dialog_override is None,
        env.desktop == Some("KDE"@),
        env.kdialog_installed,
    ensures
        spec_default_backend(env) == BackendId::KDialog,
{
}

/// Without an override and without desktop or display signals, the
/// text-mode tool is chosen when it alone is installed.
pub proof fn lemma_text_mode_when_no_signals(env: EnvInfoSpec)
    requires
        env.dialog_override is None,
        env.desktop is None,
        env.display is None,
        env.dialog_installed,
        !env.kdialog_installed,
        !env.zenity_installed,
    ensures
        spec_default_backend(env) == BackendId::Dialog,
{
}

/// With nothing installed and no override, the resolver always lands on
/// the terminal fallback, whatever the desktop and display signals say.
pub proof fn lemma_fallback_when_nothing_installed(env: EnvInfoSpec)
    requires
        env.dialog_override is None,
        !env.dialog_installed,
        !env.kdialog_installed,
        !env.zenity_installed,
    ensures
        spec_default_backend(env) == BackendId::Stdio,
{
}

} // verus!
