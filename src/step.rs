//! What an operation asks its caller to do, and what the caller reports back.
//!
//! Each operation on a sandbox is a machine that hands out one [`Action`] at a
//! time. The caller carries it out and answers with the [`Event`] that
//! describes how it went, until the machine hands out [`Action::Finish`].

use vstd::prelude::*;

verus! {

/// Why an operation on a sandbox failed.
#[derive(Debug, Clone, PartialEq, Eq)]
pub enum SandboxError {
    /// Creating, reading, writing or removing a file or directory failed, or
    /// a process could not be spawned; holds the system's message.
    Io(String),
    /// A Cargo command of provisioning or dependency installation exited
    /// with failure; holds what it wrote to standard error.
    ToolFailure(String),
    /// Building or running the wrapper program failed; holds what Cargo
    /// wrote to standard error.
    EvaluationFailed(String),
    /// The result artifact's text is no value of the requested type.
    ParseError,
}

/// The mathematical value of a [`SandboxError`].
pub enum ErrorView {
    Io(Seq<char>),
    ToolFailure(Seq<char>),
    EvaluationFailed(Seq<char>),
    ParseError,
}

impl View for SandboxError {
    type V = ErrorView;

    open spec fn view(&self) -> ErrorView {
        match self {
            SandboxError::Io(m) => ErrorView::Io(m@),
            SandboxError::ToolFailure(m) => ErrorView::ToolFailure(m@),
            SandboxError::EvaluationFailed(m) => ErrorView::EvaluationFailed(m@),
            SandboxError::ParseError => ErrorView::ParseError,
        }
    }
}

/// One step for the caller to carry out.
#[derive(Debug, PartialEq, Eq)]
pub enum Action {
    /// Create the directory and its missing ancestors; an existing one is fine.
    CreateDir(String),
    /// Run `cargo` with these arguments in that directory and wait for it.
    RunCargo { dir: String, args: Vec<String> },
    /// Read the whole file as text.
    ReadFile(String),
    /// Replace the file's contents by the text.
    WriteFile { path: String, text: String },
    /// Append the text to the file.
    AppendFile { path: String, text: String },
    /// Remove the file.
    RemoveFile(String),
    /// Convert the text into a value of the requested type.
    Parse(String),
    /// The operation is over, with this outcome.
    Finish(Result<(), SandboxError>),
}

/// The texts that a list of strings holds.
pub open spec fn texts(v: Seq<String>) -> Seq<Seq<char>> {
    v.map_values(|s: String| s@)
}

/// The mathematical value of an [`Action`].
pub enum ActionView {
    CreateDir(Seq<char>),
    RunCargo { dir: Seq<char>, args: Seq<Seq<char>> },
    ReadFile(Seq<char>),
    WriteFile { path: Seq<char>, text: Seq<char> },
    AppendFile { path: Seq<char>, text: Seq<char> },
    RemoveFile(Seq<char>),
    Parse(Seq<char>),
    Finish(Result<(), ErrorView>),
}

impl View for Action {
    type V = ActionView;

    open spec fn view(&self) -> ActionView {
        match self {
            Action::CreateDir(p) => ActionView::CreateDir(p@),
            Action::RunCargo { dir, args } => ActionView::RunCargo { dir: dir@, args: texts(args@) },
            Action::ReadFile(p) => ActionView::ReadFile(p@),
            Action::WriteFile { path, text } => ActionView::WriteFile { path: path@, text: text@ },
            Action::AppendFile { path, text } => ActionView::AppendFile { path: path@, text: text@ },
            Action::RemoveFile(p) => ActionView::RemoveFile(p@),
            Action::Parse(t) => ActionView::Parse(t@),
            Action::Finish(Ok(())) => ActionView::Finish(Ok(())),
            Action::Finish(Err(e)) => ActionView::Finish(Err(e@)),
        }
    }
}

/// How the caller's last step went.
#[derive(Debug, Clone, PartialEq, Eq)]
pub enum Event {
    /// A directory or file step succeeded.
    Done,
    /// The file that was to be read holds this text.
    Text(String),
    /// The Cargo process ended; whether it exited with success, and what it
    /// wrote to standard error.
    Exited { success: bool, stderr: String },
    /// Whether the text converted into a value of the requested type.
    Parsed(bool),
    /// The step failed with this system message.
    Failed(String),
}

/// The mathematical value of an [`Event`].
pub enum EventView {
    Done,
    Text(Seq<char>),
    Exited { success: bool, stderr: Seq<char> },
    Parsed(bool),
    Failed(Seq<char>),
}

impl View for Event {
    type V = EventView;

    open spec fn view(&self) -> EventView {
        match self {
            Event::Done => EventView::Done,
            Event::Text(t) => EventView::Text(t@),
            Event::Exited { success, stderr } => EventView::Exited { success: *success, stderr: stderr@ },
            Event::Parsed(ok) => EventView::Parsed(*ok),
            Event::Failed(m) => EventView::Failed(m@),
        }
    }
}

/// The kind of report that a machine waits for.
#[derive(Debug, Clone, Copy, PartialEq, Eq, Structural)]
pub enum Awaiting {
    /// The outcome of a directory or file step.
    Completion,
    /// The text of a file, or why it could not be read.
    Contents,
    /// How a Cargo process exited, or why it could not be spawned.
    Exit,
    /// Whether a text converted.
    Verdict,
    /// Nothing: the operation is over.
    Nothing,
}

/// The event `ev` is a report of the kind `aw`.
pub open spec fn answers(aw: Awaiting, ev: EventView) -> bool {
    match aw {
        Awaiting::Completion => ev is Done || ev is Failed,
        Awaiting::Contents => ev is Text || ev is Failed,
        Awaiting::Exit => ev is Exited || ev is Failed,
        Awaiting::Verdict => ev is Parsed,
        Awaiting::Nothing => false,
    }
}

/// Whether `ev` is a report of the kind `aw`.
pub fn is_answer(aw: Awaiting, ev: &Event) -> (r: bool)
    ensures
        r == answers(aw, ev@),
{
    match aw {
        Awaiting::Completion => matches!(ev, Event::Done | Event::Failed(_)),
        Awaiting::Contents => matches!(ev, Event::Text(_) | Event::Failed(_)),
        Awaiting::Exit => matches!(ev, Event::Exited { .. } | Event::Failed(_)),
        Awaiting::Verdict => matches!(ev, Event::Parsed(_)),
        Awaiting::Nothing => false,
    }
}

/// The argument list holding `words`, in order.
pub fn arguments(words: &Vec<&'static str>) -> (r: Vec<String>)
    ensures
        texts(r@) == words@.map_values(|w: &str| w@),
{
    let mut r: Vec<String> = Vec::new();
    let mut i: usize = 0;
    while i < words.len()
        invariant
            i <= words@.len(),
            r@.len() == i,
            texts(r@) == words@.subrange(0, i as int).map_values(|w: &str| w@),
        decreases words@.len() - i,
    {
        let ghost before = r@;
        let w = words[i].to_string();
        assert(w@ == words@[i as int]@);
        r.push(w);
        proof {
            let done = words@.subrange(0, i + 1).map_values(|w: &str| w@);
            assert(texts(r@) =~= done) by {
                assert(r@ == before.push(w));
                assert forall|k: int| 0 <= k < r@.len() implies texts(r@)[k] == done[k] by {
                    if k < i {
                        assert(texts(before)[k] == words@.subrange(0, i as int).map_values(|w: &str| w@)[k]);
                    }
                }
            }
        }
        i = i + 1;
    }
    assert(words@.subrange(0, i as int) =~= words@);
    r
}

/// The failure that an I/O report ends an operation with.
pub open spec fn io_failure(message: Seq<char>) -> ActionView {
    ActionView::Finish(Err(ErrorView::Io(message)))
}

} // verus!
