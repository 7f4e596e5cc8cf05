//! The application controller: a state machine over the session state.
//!
//! The controller performs no I/O. Each user event is applied by `update`,
//! which mutates the session state and returns an `Effect`: a command for the
//! surrounding shell (open the file picker, count a file, write the
//! clipboard). When the shell has counted a file it hands the outcome back
//! through `apply_count_result`. The whole transition relation is stated as
//! the spec functions `spec_update` and `spec_apply_count`, which the
//! executable code is proved to implement exactly.

use vstd::prelude::*;

use crate::text::decimal_digits;
use crate::text::decimal_string;

verus! {

/// The session: the selected file, the last computed count, and the status
/// line shown to the user.
pub struct SessionState {
    pub selected_path: String,
    pub last_count: Option<usize>,
    pub status_message: String,
}

/// Ghost mirror of `SessionState`.
#[verifier::ext_equal]
pub struct SessionView {
    pub selected_path: Seq<char>,
    pub last_count: Option<usize>,
    pub status_message: Seq<char>,
}

impl View for SessionState {
    type V = SessionView;

    open spec fn view(&self) -> SessionView {
        SessionView {
            selected_path: self.selected_path@,
            last_count: self.last_count,
            status_message: self.status_message@,
        }
    }
}

/// The user events that drive the controller.
pub enum Message {
    /// Ask for the native file picker.
    OpenFileDialog,
    /// A path was typed or picked; an empty path means the picker was
    /// cancelled.
    FilePathChanged(String),
    /// Count the lines of the selected file.
    CountLines,
    /// Copy the last result to the clipboard.
    CopyResult,
}

/// Ghost mirror of `Message`.
#[verifier::ext_equal]
pub enum MessageView {
    OpenFileDialog,
    FilePathChanged(Seq<char>),
    CountLines,
    CopyResult,
}

impl View for Message {
    type V = MessageView;

    open spec fn view(&self) -> MessageView {
        match self {
            Message::OpenFileDialog => MessageView::OpenFileDialog,
            Message::FilePathChanged(path) => MessageView::FilePathChanged(path@),
            Message::CountLines => MessageView::CountLines,
            Message::CopyResult => MessageView::CopyResult,
        }
    }
}

/// A command for the shell around the controller. The controller only decides;
/// the shell performs.
pub enum Effect {
    /// Nothing to do beyond the state change.
    NoEffect,
    /// Open the file picker and post the choice back as `FilePathChanged`.
    OpenPicker,
    /// Count the lines of this file and post the outcome back through
    /// `apply_count_result`.
    CountFile(String),
    /// Make this text the clipboard content.
    WriteClipboard(String),
}

/// Ghost mirror of `Effect`.
#[verifier::ext_equal]
pub enum EffectView {
    NoEffect,
    OpenPicker,
    CountFile(Seq<char>),
    WriteClipboard(Seq<char>),
}

impl View for Effect {
    type V = EffectView;

    open spec fn view(&self) -> EffectView {
        match self {
            Effect::NoEffect => EffectView::NoEffect,
            Effect::OpenPicker => EffectView::OpenPicker,
            Effect::CountFile(path) => EffectView::CountFile(path@),
            Effect::WriteClipboard(text) => EffectView::WriteClipboard(text@),
        }
    }
}

/// Status shown before any event was applied.
pub open spec fn ready_status() -> Seq<char> {
    "ready"@
}

/// Status after a path was chosen.
pub open spec fn selected_status(path: Seq<char>) -> Seq<char> {
    "file selected: "@ + path
}

/// Status after a count was requested with no file selected.
pub open spec fn no_file_status() -> Seq<char> {
    "error: select a file first"@
}

/// Status after a successful count.
pub open spec fn counted_status(n: usize) -> Seq<char> {
    "counted: "@ + decimal_digits(n as nat)
}

/// Status after a failed count.
pub open spec fn failure_status(reason: Seq<char>) -> Seq<char> {
    "error: "@ + reason
}

/// Status after a copy was requested with no count available.
pub open spec fn nothing_to_copy_status() -> Seq<char> {
    "nothing to copy"@
}

/// Status after the result was copied.
pub open spec fn copied_status() -> Seq<char> {
    "copied to clipboard"@
}

/// The exact text written to the clipboard for a counted file.
pub open spec fn clipboard_text(path: Seq<char>, n: usize) -> Seq<char> {
    "file: "@ + path + "\nline count: "@ + decimal_digits(n as nat)
}

/// The session at application start: no path, no count, ready status.
pub open spec fn initial_session() -> SessionView {
    SessionView { selected_path: Seq::empty(), last_count: None, status_message: ready_status() }
}

/// The session invariant: a count is only ever held for a selected file.
pub open spec fn session_inv(s: SessionView) -> bool {
    s.last_count is Some ==> s.selected_path.len() > 0
}

/// The transition relation of the controller: the new session and the effect
/// for a given event.
pub open spec fn spec_update(s: SessionView, m: MessageView) -> (SessionView, EffectView) {
    match m {
        MessageView::OpenFileDialog => (s, EffectView::OpenPicker),
        MessageView::FilePathChanged(path) => if path.len() > 0 {
            (
                SessionView {
                    selected_path: path,
                    last_count: None,
                    status_message: selected_status(path),
                },
                EffectView::NoEffect,
            )
        } else {
            (s, EffectView::NoEffect)
        },
        MessageView::CountLines => if s.selected_path.len() == 0 {
            (SessionView { status_message: no_file_status(), ..s }, EffectView::NoEffect)
        } else {
            (s, EffectView::CountFile(s.selected_path))
        },
        MessageView::CopyResult => match s.last_count {
            None => (
                SessionView { status_message: nothing_to_copy_status(), ..s },
                EffectView::NoEffect,
            ),
            Some(n) => (
                SessionView { status_message: copied_status(), ..s },
                EffectView::WriteClipboard(clipboard_text(s.selected_path, n)),
            ),
        },
    }
}

/// Ghost mirror of a count outcome: a count or a failure reason.
pub open spec fn count_result_view(r: Result<usize, String>) -> Result<usize, Seq<char>> {
    match r {
        Ok(n) => Ok(n),
        Err(reason) => Err(reason@),
    }
}

/// How a count outcome changes the session: a success stores the count, a
/// failure clears it; both leave the selected path alone and report in the
/// status line.
pub open spec fn spec_apply_count(s: SessionView, r: Result<usize, Seq<char>>) -> SessionView {
    match r {
        Ok(n) => SessionView { last_count: Some(n), status_message: counted_status(n), ..s },
        Err(reason) => SessionView {
            last_count: None,
            status_message: failure_status(reason),
            ..s
        },
    }
}

/// A count request with no file selected never asks for a count: no effect is
/// issued, the status says a file must be selected first, and the rest of the
/// session is untouched.
pub proof fn lemma_count_without_path(s: SessionView)
    requires
        s.selected_path.len() == 0,
    ensures
        spec_update(s, MessageView::CountLines).1 == EffectView::NoEffect,
        spec_update(s, MessageView::CountLines).0.status_message == no_file_status(),
        spec_update(s, MessageView::CountLines).0.selected_path == s.selected_path,
        spec_update(s, MessageView::CountLines).0.last_count == s.last_count,
{
}

/// Choosing a path clears any previous count.
pub proof fn lemma_path_chosen_clears_count(s: SessionView, path: Seq<char>)
    requires
        path.len() > 0,
    ensures
        spec_update(s, MessageView::FilePathChanged(path)).0.last_count is None,
{
}

/// No user event produces a count: once the count is absent it stays absent
/// until a count outcome is applied.
pub proof fn lemma_events_never_set_count(s: SessionView, m: MessageView)
    requires
        s.last_count is None,
    ensures
        spec_update(s, m).0.last_count is None,
{
}

/// A failed count leaves no count and keeps the selected path, so the user can
/// retry or pick another file.
pub proof fn lemma_failed_count_keeps_path(s: SessionView, reason: Seq<char>)
    ensures
        spec_apply_count(s, Err(reason)).last_count is None,
        spec_apply_count(s, Err(reason)).selected_path == s.selected_path,
{
}

/// A cancelled file picker (an empty path) changes nothing: the session stays
/// exactly as it was and no effect is issued.
pub proof fn lemma_cancelled_picker(s: SessionView)
    ensures
        spec_update(s, MessageView::FilePathChanged(Seq::empty())).0 == s,
        spec_update(s, MessageView::FilePathChanged(Seq::empty())).1 == EffectView::NoEffect,
{
}

/// Every user event preserves the session invariant.
pub proof fn lemma_update_preserves_inv(s: SessionView, m: MessageView)
    requires
        session_inv(s),
    ensures
        session_inv(spec_update(s, m).0),
{
}

/// Every count outcome, applied while a file is selected, preserves the
/// session invariant.
pub proof fn lemma_apply_count_preserves_inv(s: SessionView, r: Result<usize, Seq<char>>)
    requires
        session_inv(s),
        s.selected_path.len() > 0,
    ensures
        session_inv(spec_apply_count(s, r)),
{
}

impl SessionState {
    /// A fresh session.
    pub fn new() -> (s: Self)
        ensures
            s@ == initial_session(),
    {
        let s = SessionState {
            selected_path: String::new(),
            last_count: None,
            status_message: String::from_str("ready"),
        };
        proof {
            assert(s@ =~= initial_session());
        }
        s
    }

    /// Applies one user event and returns the effect the shell must perform.
    pub fn update(&mut self, msg: Message) -> (e: Effect)
        ensures
            final(self)@ == spec_update(old(self)@, msg@).0,
            e@ == spec_update(old(self)@, msg@).1,
    {
        match msg {
            Message::OpenFileDialog => Effect::OpenPicker,
            Message::FilePathChanged(path) => {
                if !path.as_str().is_empty() {
                    let mut status = String::from_str("file selected: ");
                    status.append(path.as_str());
                    self.selected_path = path;
                    self.last_count = None;
                    self.status_message = status;
                }
                Effect::NoEffect
            },
            Message::CountLines => {
                if self.selected_path.as_str().is_empty() {
                    self.status_message = String::from_str("error: select a file first");
                    Effect::NoEffect
                } else {
                    Effect::CountFile(self.selected_path.clone())
                }
            },
            Message::CopyResult => {
                match self.last_count {
                    None => {
                        self.status_message = String::from_str("nothing to copy");
                        Effect::NoEffect
                    },
                    Some(n) => {
                        let mut text = String::from_str("file: ");
                        text.append(self.selected_path.as_str());
                        text.append("\nline count: ");
                        let digits = decimal_string(n);
                        text.append(digits.as_str());
                        self.status_message = String::from_str("copied to clipboard");
                        Effect::WriteClipboard(text)
                    },
                }
            },
        }
    }

    /// Consumes the outcome of counting the selected file.
    ///
    /// Only ever called while a file is selected: the count was requested
    /// through an effect that `update` issues only then.
    pub fn apply_count_result(&mut self, result: Result<usize, String>)
        requires
            old(self)@.selected_path.len() > 0,
        ensures
            final(self)@ == spec_apply_count(old(self)@, count_result_view(result)),
    {
        match result {
            Ok(n) => {
                let mut status = String::from_str("counted: ");
                let digits = decimal_string(n);
                status.append(digits.as_str());
                self.last_count = Some(n);
                self.status_message = status;
            },
            Err(reason) => {
                let mut status = String::from_str("error: ");
                status.append(reason.as_str());
                self.last_count = None;
                self.status_message = status;
            },
        }
    }
}

} // verus!
