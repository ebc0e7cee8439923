//! Evaluating an expression: write the wrapper program, build and run it,
//! read the result artifact, have it converted, and remove it.

use vstd::prelude::*;

use crate::layout::{join, joined, ENTRY_POINT_FILE, RESULT_FILE};
use crate::program::{program, wrapper_program};
use crate::step::{
    answers, arguments, io_failure, is_answer, texts, Action, ActionView, Awaiting, ErrorView,
    Event, EventView, SandboxError,
};

verus! {

/// Where an evaluation stands.
#[derive(Debug, Clone, Copy, PartialEq, Eq, Structural)]
pub enum EvalStage {
    /// The wrapper program is being written to the entry point.
    Writing,
    /// Cargo builds and runs the program.
    Running,
    /// The result artifact is being read.
    Reading,
    /// The artifact's text is being converted.
    Parsing,
    /// The artifact is being removed; whether its text converted.
    Removing { parsed: bool },
    /// The evaluation is over.
    Finished,
}

/// What an evaluation waits for in each stage.
pub open spec fn eval_awaiting(stage: EvalStage) -> Awaiting {
    match stage {
        EvalStage::Writing => Awaiting::Completion,
        EvalStage::Running => Awaiting::Exit,
        EvalStage::Reading => Awaiting::Contents,
        EvalStage::Parsing => Awaiting::Verdict,
        EvalStage::Removing { .. } => Awaiting::Completion,
        EvalStage::Finished => Awaiting::Nothing,
    }
}

/// The arguments that build and run the sandbox's program.
pub open spec fn run_args() -> Seq<Seq<char>> {
    seq!["run"@]
}

/// The result artifact of the sandbox at `root`.
pub open spec fn artifact(root: Seq<char>) -> Seq<char> {
    joined(root, RESULT_FILE@)
}

/// The stage an evaluation of the sandbox at `root` moves to on the report
/// `ev`, and the step it asks for next.
///
/// Every report of failure ends the evaluation: a failed build or run with
/// Cargo's diagnostics, without reading the artifact. The artifact, once
/// read, is removed whether or not its text converted; a text that did not
/// convert ends the evaluation with a parse error even where the removal
/// fails.
pub open spec fn eval_next(root: Seq<char>, stage: EvalStage, ev: EventView) -> (EvalStage, ActionView) {
    match (stage, ev) {
        (EvalStage::Removing { parsed: false }, _) => (
            EvalStage::Finished,
            ActionView::Finish(Err(ErrorView::ParseError)),
        ),
        (_, EventView::Failed(m)) => (EvalStage::Finished, io_failure(m)),
        (EvalStage::Writing, _) => (
            EvalStage::Running,
            ActionView::RunCargo { dir: root, args: run_args() },
        ),
        (EvalStage::Running, EventView::Exited { success: true, .. }) => (
            EvalStage::Reading,
            ActionView::ReadFile(artifact(root)),
        ),
        (EvalStage::Running, EventView::Exited { success: false, stderr }) => (
            EvalStage::Finished,
            ActionView::Finish(Err(ErrorView::EvaluationFailed(stderr))),
        ),
        (EvalStage::Reading, EventView::Text(t)) => (EvalStage::Parsing, ActionView::Parse(t)),
        (EvalStage::Parsing, EventView::Parsed(ok)) => (
            EvalStage::Removing { parsed: ok },
            ActionView::RemoveFile(artifact(root)),
        ),
        _ => (EvalStage::Finished, ActionView::Finish(Ok(()))),
    }
}

/// A build or run that fails ends the evaluation with `EvaluationFailed`
/// carrying Cargo's diagnostics: neither a parse error nor an I/O error, and
/// the artifact is not read.
pub proof fn lemma_build_failure_surfaced(root: Seq<char>, stderr: Seq<char>)
    ensures
        eval_next(root, EvalStage::Running, EventView::Exited { success: false, stderr }) == (
            EvalStage::Finished,
            ActionView::Finish(Err(ErrorView::EvaluationFailed(stderr))),
        ),
{
}

/// An evaluation ends in success only on the report that its artifact was
/// removed, and the stage that awaits that report is entered only together
/// with the step that removes the artifact.
pub proof fn lemma_success_after_cleanup(root: Seq<char>, stage: EvalStage, ev: EventView)
    requires
        answers(eval_awaiting(stage), ev),
    ensures
        eval_next(root, stage, ev).1 == ActionView::Finish(Ok(())) ==> stage == (EvalStage::Removing {
            parsed: true,
        }) && ev == EventView::Done,
        eval_next(root, stage, ev).0 is Removing ==> eval_next(root, stage, ev).1
            == ActionView::RemoveFile(artifact(root)),
{
}

/// The artifact's text goes unchanged to the conversion, and a text that
/// converts gives success once the artifact is removed.
pub proof fn lemma_artifact_reaches_conversion(root: Seq<char>, text: Seq<char>)
    ensures
        eval_next(root, EvalStage::Reading, EventView::Text(text)) == (
            EvalStage::Parsing,
            ActionView::Parse(text),
        ),
        eval_next(root, EvalStage::Parsing, EventView::Parsed(true)) == (
            EvalStage::Removing { parsed: true },
            ActionView::RemoveFile(artifact(root)),
        ),
        eval_next(root, EvalStage::Removing { parsed: true }, EventView::Done) == (
            EvalStage::Finished,
            ActionView::Finish(Ok(())),
        ),
{
}

/// One evaluation of an expression in the sandbox at a root directory.
pub struct Evaluation {
    root: String,
    stage: EvalStage,
}

impl Evaluation {
    /// The sandbox root that the evaluation works in.
    pub closed spec fn root_dir(&self) -> Seq<char> {
        self.root@
    }

    /// Where the evaluation stands.
    pub closed spec fn stage(&self) -> EvalStage {
        self.stage
    }

    /// Starts evaluating the expression source `expr` in the sandbox at
    /// `root`: the first step overwrites the entry point with the wrapper
    /// program around `expr`.
    pub fn start(root: &str, expr: &str) -> (r: (Evaluation, Action))
        ensures
            r.0.root_dir() == root@,
            r.0.stage() == EvalStage::Writing,
            r.1@ == (ActionView::WriteFile {
                path: joined(root@, ENTRY_POINT_FILE@),
                text: program(expr@),
            }),
    {
        let action = Action::WriteFile { path: join(root, ENTRY_POINT_FILE), text: wrapper_program(expr) };
        (Evaluation { root: root.to_string(), stage: EvalStage::Writing }, action)
    }

    /// Whether the evaluation is over.
    pub fn is_finished(&self) -> (r: bool)
        ensures
            r == (self.stage() == EvalStage::Finished),
    {
        self.stage == EvalStage::Finished
    }

    /// Whether `ev` is a report that the evaluation waits for.
    pub fn accepts(&self, ev: &Event) -> (r: bool)
        ensures
            r == answers(eval_awaiting(self.stage()), ev@),
    {
        let aw = match self.stage {
            EvalStage::Writing => Awaiting::Completion,
            EvalStage::Running => Awaiting::Exit,
            EvalStage::Reading => Awaiting::Contents,
            EvalStage::Parsing => Awaiting::Verdict,
            EvalStage::Removing { .. } => Awaiting::Completion,
            EvalStage::Finished => Awaiting::Nothing,
        };
        is_answer(aw, ev)
    }

    /// Takes the report of the last step and hands out the next one.
    pub fn step(&mut self, ev: Event) -> (a: Action)
        requires
            answers(eval_awaiting(old(self).stage()), ev@),
        ensures
            final(self).root_dir() == old(self).root_dir(),
            (final(self).stage(), a@) == eval_next(old(self).root_dir(), old(self).stage(), ev@),
    {
        match (self.stage, ev) {
            (EvalStage::Removing { parsed: false }, _) => {
                self.stage = EvalStage::Finished;
                Action::Finish(Err(SandboxError::ParseError))
            },
            (_, Event::Failed(m)) => {
                self.stage = EvalStage::Finished;
                Action::Finish(Err(SandboxError::Io(m)))
            },
            (EvalStage::Writing, _) => {
                self.stage = EvalStage::Running;
                let args = arguments(&vec!["run"]);
                proof {
                    reveal_strlit("run");
                    assert(texts(args@) =~= run_args());
                }
                Action::RunCargo { dir: self.root.clone(), args }
            },
            (EvalStage::Running, Event::Exited { success, stderr }) => {
                if success {
                    self.stage = EvalStage::Reading;
                    Action::ReadFile(join(&self.root, RESULT_FILE))
                } else {
                    self.stage = EvalStage::Finished;
                    Action::Finish(Err(SandboxError::EvaluationFailed(stderr)))
                }
            },
            (EvalStage::Reading, Event::Text(t)) => {
                self.stage = EvalStage::Parsing;
                Action::Parse(t)
            },
            (EvalStage::Parsing, Event::Parsed(ok)) => {
                self.stage = EvalStage::Removing { parsed: ok };
                Action::RemoveFile(join(&self.root, RESULT_FILE))
            },
            _ => {
                self.stage = EvalStage::Finished;
                Action::Finish(Ok(()))
            },
        }
    }
}

} // verus!
