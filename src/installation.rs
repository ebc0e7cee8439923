//! Installing dependencies: one `cargo add` per name, in the given order,
//! stopping at the first failure.

use vstd::prelude::*;

use crate::step::{
    answers, io_failure, is_answer, texts, Action, ActionView, Awaiting, ErrorView, Event,
    EventView, SandboxError,
};

verus! {

/// The step that adds the dependency `name` to the sandbox at `root`.
pub open spec fn add_command(root: Seq<char>, name: Seq<char>) -> ActionView {
    ActionView::RunCargo { dir: root, args: seq!["add"@, name] }
}

/// The steps that add each of `names` to the sandbox at `root`, in order.
pub open spec fn add_commands(root: Seq<char>, names: Seq<Seq<char>>) -> Seq<ActionView> {
    names.map_values(|n: Seq<char>| add_command(root, n))
}

/// The first step of installing `names`: the first `cargo add`, or the end
/// where there is nothing to add.
pub open spec fn install_first(root: Seq<char>, names: Seq<Seq<char>>) -> ActionView {
    if names.len() == 0 {
        ActionView::Finish(Ok(()))
    } else {
        add_command(root, names[0])
    }
}

/// What an installation of `names` in the sandbox at `root` does on the
/// report `ev` of the `cargo add` of `names[done]`: how many names are then
/// added, whether it is over, and the step it asks for next.
pub open spec fn install_next(root: Seq<char>, names: Seq<Seq<char>>, done: nat, ev: EventView) -> (nat, bool, ActionView) {
    match ev {
        EventView::Exited { success: true, .. } => if done + 1 < names.len() {
            ((done + 1) as nat, false, add_command(root, names[done + 1 as int]))
        } else {
            ((done + 1) as nat, true, ActionView::Finish(Ok(())))
        },
        EventView::Exited { success: false, stderr } => (
            done,
            true,
            ActionView::Finish(Err(ErrorView::ToolFailure(stderr))),
        ),
        EventView::Failed(m) => (done, true, io_failure(m)),
        _ => (done, true, ActionView::Finish(Ok(()))),
    }
}

/// Installing `a` and then `b` hands out the same `cargo add` steps as
/// installing `a` followed by `b` in one batch: the dependencies of both
/// batches accumulate in the manifest.
pub proof fn lemma_installs_accumulate(root: Seq<char>, a: Seq<Seq<char>>, b: Seq<Seq<char>>)
    ensures
        add_commands(root, a + b) == add_commands(root, a) + add_commands(root, b),
{
    assert(add_commands(root, a + b) =~= add_commands(root, a) + add_commands(root, b));
}

/// The steps of an installation that succeed one after another are the
/// batch's `cargo add` steps, in order: the first is the first of them, and
/// the report that the `k`-th succeeded brings the one after it.
pub proof fn lemma_install_follows_batch(root: Seq<char>, names: Seq<Seq<char>>, k: nat, stderr: Seq<char>)
    requires
        k + 1 < names.len(),
    ensures
        install_first(root, names) == add_commands(root, names)[0],
        install_next(root, names, k, EventView::Exited { success: true, stderr }).2
            == add_commands(root, names)[k + 1 as int],
{
}

/// One installation of a batch of dependencies in a sandbox.
pub struct Installation {
    root: String,
    names: Vec<String>,
    done: usize,
    finished: bool,
}

impl Installation {
    /// An installation that is not over waits for the `cargo add` of a name
    /// of its batch.
    #[verifier::type_invariant]
    spec fn inv(&self) -> bool {
        !self.finished ==> self.done < self.names@.len()
    }

    /// The sandbox root that the installation works in.
    pub closed spec fn root_dir(&self) -> Seq<char> {
        self.root@
    }

    /// The names of the batch.
    pub closed spec fn names(&self) -> Seq<Seq<char>> {
        texts(self.names@)
    }

    /// How many names of the batch have been added.
    pub closed spec fn done(&self) -> nat {
        self.done as nat
    }

    /// Whether the installation is over.
    pub closed spec fn finished(&self) -> bool {
        self.finished
    }

    /// Starts installing `names` in the sandbox at `root`.
    pub fn start(root: &str, names: Vec<String>) -> (r: (Installation, Action))
        ensures
            r.0.root_dir() == root@,
            r.0.names() == texts(names@),
            r.0.done() == 0,
            r.0.finished() == (names@.len() == 0),
            r.1@ == install_first(root@, texts(names@)),
    {
        let finished = names.len() == 0;
        let action = if finished {
            Action::Finish(Ok(()))
        } else {
            Installation::add(root, &names[0])
        };
        (Installation { root: root.to_string(), names, done: 0, finished }, action)
    }

    /// The `cargo add` of `name` in the sandbox at `root`.
    fn add(root: &str, name: &String) -> (a: Action)
        ensures
            a@ == add_command(root@, name@),
    {
        let mut args: Vec<String> = Vec::new();
        args.push("add".to_string());
        args.push(name.clone());
        assert(texts(args@) =~= seq!["add"@, name@]);
        Action::RunCargo { dir: root.to_string(), args }
    }

    /// Whether the installation is over.
    pub fn is_finished(&self) -> (r: bool)
        ensures
            r == self.finished(),
    {
        self.finished
    }

    /// Whether `ev` is a report that the installation waits for.
    pub fn accepts(&self, ev: &Event) -> (r: bool)
        ensures
            r == (!self.finished() && answers(Awaiting::Exit, ev@)),
    {
        !self.finished && is_answer(Awaiting::Exit, ev)
    }

    /// Takes the report of the last `cargo add` and hands out the next step.
    pub fn step(&mut self, ev: Event) -> (a: Action)
        requires
            !old(self).finished(),
            answers(Awaiting::Exit, ev@),
        ensures
            final(self).root_dir() == old(self).root_dir(),
            final(self).names() == old(self).names(),
            (final(self).done(), final(self).finished(), a@) == install_next(
                old(self).root_dir(),
                old(self).names(),
                old(self).done(),
                ev@,
            ),
    {
        proof {
            use_type_invariant(&*self);
        }
        match ev {
            Event::Exited { success: true, .. } => {
                let n = self.names.len();
                let next = self.done + 1;
                if next < n {
                    self.done = next;
                    Installation::add(&self.root, &self.names[next])
                } else {
                    self.finished = true;
                    self.done = next;
                    Action::Finish(Ok(()))
                }
            },
            Event::Exited { success: false, stderr } => {
                self.finished = true;
                Action::Finish(Err(SandboxError::ToolFailure(stderr)))
            },
            Event::Failed(m) => {
                self.finished = true;
                Action::Finish(Err(SandboxError::Io(m)))
            },
            _ => {
                self.finished = true;
                Action::Finish(Ok(()))
            },
        }
    }
}

} // verus!
