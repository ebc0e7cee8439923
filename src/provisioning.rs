//! Provisioning a sandbox: create its directory, scaffold a package in it
//! with Cargo, and keep the package's manifest out of any enclosing workspace.

use vstd::prelude::*;

use crate::layout::{join, joined, package_root, identifier_dir, MANIFEST_FILE, PACKAGE_DIR};
use crate::manifest::{contains, is_isolated, WORKSPACE_APPENDIX, WORKSPACE_SECTION};
use crate::step::{
    answers, arguments, io_failure, is_answer, texts, Action, ActionView, Awaiting, ErrorView,
    Event, EventView, SandboxError,
};

verus! {

/// Where a provisioning stands.
#[derive(Debug, Clone, Copy, PartialEq, Eq, Structural)]
pub enum ProvisionStage {
    /// The identifier's directory is being created.
    MakingDir,
    /// Cargo scaffolds the package.
    Scaffolding,
    /// The package's manifest is being read.
    ReadingManifest,
    /// The workspace section is being appended to the manifest.
    Appending,
    /// The provisioning is over.
    Finished,
}

/// What a provisioning waits for in each stage.
pub open spec fn provision_awaiting(stage: ProvisionStage) -> Awaiting {
    match stage {
        ProvisionStage::MakingDir => Awaiting::Completion,
        ProvisionStage::Scaffolding => Awaiting::Exit,
        ProvisionStage::ReadingManifest => Awaiting::Contents,
        ProvisionStage::Appending => Awaiting::Completion,
        ProvisionStage::Finished => Awaiting::Nothing,
    }
}

/// The arguments that scaffold the package, with no version control.
pub open spec fn scaffold_args() -> Seq<Seq<char>> {
    seq!["new"@, PACKAGE_DIR@, "--vcs"@, "none"@]
}

/// The stage a provisioning moves to on the report `ev`, and the step it
/// asks for next, where Cargo scaffolds in the directory `dir` the package
/// whose root is `root`.
///
/// Every report of failure ends it, a failed scaffolding with Cargo's
/// diagnostics. The workspace section is appended only to a manifest that
/// lacks it.
pub open spec fn provision_next(dir: Seq<char>, root: Seq<char>, stage: ProvisionStage, ev: EventView) -> (ProvisionStage, ActionView) {
    match (stage, ev) {
        (_, EventView::Failed(m)) => (ProvisionStage::Finished, io_failure(m)),
        (ProvisionStage::MakingDir, _) => (
            ProvisionStage::Scaffolding,
            ActionView::RunCargo { dir, args: scaffold_args() },
        ),
        (ProvisionStage::Scaffolding, EventView::Exited { success: true, .. }) => (
            ProvisionStage::ReadingManifest,
            ActionView::ReadFile(joined(root, MANIFEST_FILE@)),
        ),
        (ProvisionStage::Scaffolding, EventView::Exited { success: false, stderr }) => (
            ProvisionStage::Finished,
            ActionView::Finish(Err(ErrorView::ToolFailure(stderr))),
        ),
        (ProvisionStage::ReadingManifest, EventView::Text(t)) => if contains(t, WORKSPACE_SECTION@) {
            (ProvisionStage::Finished, ActionView::Finish(Ok(())))
        } else {
            (
                ProvisionStage::Appending,
                ActionView::AppendFile {
                    path: joined(root, MANIFEST_FILE@),
                    text: WORKSPACE_APPENDIX@,
                },
            )
        },
        _ => (ProvisionStage::Finished, ActionView::Finish(Ok(()))),
    }
}

/// One provisioning of a sandbox under a base directory.
pub struct Provisioning {
    dir: String,
    root: String,
    stage: ProvisionStage,
}

impl Provisioning {
    /// The identifier's directory, in which Cargo scaffolds the package.
    pub closed spec fn dir(&self) -> Seq<char> {
        self.dir@
    }

    /// Where the provisioning stands.
    pub closed spec fn stage(&self) -> ProvisionStage {
        self.stage
    }

    /// The root of the package.
    pub closed spec fn root_dir(&self) -> Seq<char> {
        self.root@
    }

    /// Starts provisioning the sandbox `id` under the directory `base`: the
    /// first step creates the identifier's directory.
    pub fn start(base: &str, id: &str) -> (r: (Provisioning, Action))
        ensures
            r.0.dir() == identifier_dir(base@, id@),
            r.0.root_dir() == package_root(base@, id@),
            r.0.stage() == ProvisionStage::MakingDir,
            r.1@ == ActionView::CreateDir(identifier_dir(base@, id@)),
    {
        let dir = join(base, id);
        let root = join(&dir, PACKAGE_DIR);
        let action = Action::CreateDir(dir.clone());
        (Provisioning { dir, root, stage: ProvisionStage::MakingDir }, action)
    }

    /// The root of the package, which a finished provisioning hands to
    /// the sandbox.
    pub fn root(&self) -> (r: &str)
        ensures
            r@ == self.root_dir(),
    {
        self.root.as_str()
    }

    /// Whether the provisioning is over.
    pub fn is_finished(&self) -> (r: bool)
        ensures
            r == (self.stage() == ProvisionStage::Finished),
    {
        self.stage == ProvisionStage::Finished
    }

    /// Whether `ev` is a report that the provisioning waits for.
    pub fn accepts(&self, ev: &Event) -> (r: bool)
        ensures
            r == answers(provision_awaiting(self.stage()), ev@),
    {
        let aw = match self.stage {
            ProvisionStage::MakingDir => Awaiting::Completion,
            ProvisionStage::Scaffolding => Awaiting::Exit,
            ProvisionStage::ReadingManifest => Awaiting::Contents,
            ProvisionStage::Appending => Awaiting::Completion,
            ProvisionStage::Finished => Awaiting::Nothing,
        };
        is_answer(aw, ev)
    }

    /// Takes the report of the last step and hands out the next one.
    pub fn step(&mut self, ev: Event) -> (a: Action)
        requires
            answers(provision_awaiting(old(self).stage()), ev@),
        ensures
            final(self).dir() == old(self).dir(),
            final(self).root_dir() == old(self).root_dir(),
            (final(self).stage(), a@) == provision_next(old(self).dir(), old(self).root_dir(), old(self).stage(), ev@),
    {
        match (self.stage, ev) {
            (_, Event::Failed(m)) => {
                self.stage = ProvisionStage::Finished;
                Action::Finish(Err(SandboxError::Io(m)))
            },
            (ProvisionStage::MakingDir, _) => {
                self.stage = ProvisionStage::Scaffolding;
                let args = arguments(&vec!["new", PACKAGE_DIR, "--vcs", "none"]);
                assert(texts(args@) =~= scaffold_args());
                Action::RunCargo { dir: self.dir.clone(), args }
            },
            (ProvisionStage::Scaffolding, Event::Exited { success, stderr }) => {
                if success {
                    self.stage = ProvisionStage::ReadingManifest;
                    Action::ReadFile(join(&self.root, MANIFEST_FILE))
                } else {
                    self.stage = ProvisionStage::Finished;
                    Action::Finish(Err(SandboxError::ToolFailure(stderr)))
                }
            },
            (ProvisionStage::ReadingManifest, Event::Text(t)) => {
                if is_isolated(&t) {
                    self.stage = ProvisionStage::Finished;
                    Action::Finish(Ok(()))
                } else {
                    self.stage = ProvisionStage::Appending;
                    Action::AppendFile {
                        path: join(&self.root, MANIFEST_FILE),
                        text: WORKSPACE_APPENDIX.to_string(),
                    }
                }
            },
            _ => {
                self.stage = ProvisionStage::Finished;
                Action::Finish(Ok(()))
            },
        }
    }
}

} // verus!
