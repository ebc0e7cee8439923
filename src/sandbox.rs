//! The sandbox: the root of a throwaway package and the guard that lets one
//! operation at a time work on it.

use vstd::prelude::*;

use proc_macro2::TokenStream;
use std::sync::Mutex;

use crate::evaluation::{EvalStage, Evaluation};
use crate::installation::{install_first, Installation};
use crate::layout::{joined, ENTRY_POINT_FILE};
use crate::program::program;
use crate::step::{texts, Action, ActionView};

verus! {

/// `std::sync::Mutex`, held opaque: the sandbox's guard.
#[verifier::external_type_specification]
#[verifier::external_body]
#[verifier::reject_recursive_types(T)]
pub struct ExMutex<T: ?Sized>(Mutex<T>);

/// Relies on `Mutex::new`, which makes an unlocked mutex.
pub assume_specification<T>[ Mutex::<T>::new ](t: T) -> Mutex<T>;

/// `proc_macro2::TokenStream`, held opaque: an expression to evaluate.
#[verifier::external_type_specification]
#[verifier::external_body]
pub struct ExTokenStream(TokenStream);

/// Relies on `proc_macro2::TokenStream`'s `Display`, which prints the tokens
/// as source text.
#[verifier::external_body]
fn token_source(expr: &TokenStream) -> (r: String) {
    expr.to_string()
}

/// A throwaway Cargo package in which expressions are evaluated.
///
/// Every operation that works on the package's files (installing
/// dependencies, evaluating) runs while the caller holds [`Sandbox::guard`].
#[non_exhaustive]
pub struct Sandbox {
    lock: Mutex<()>,
    root_dir: String,
}

impl Sandbox {
    /// The root of the package.
    pub closed spec fn root_view(&self) -> Seq<char> {
        self.root_dir@
    }

    /// The sandbox whose package lies at `root`, with its guard unlocked.
    pub fn at_root(root: &str) -> (r: Sandbox)
        ensures
            r.root_view() == root@,
    {
        Sandbox { lock: Mutex::new(()), root_dir: root.to_string() }
    }

    /// The root of the package.
    pub fn root_dir(&self) -> (r: &str)
        ensures
            r@ == self.root_view(),
    {
        self.root_dir.as_str()
    }

    /// The guard to hold for the whole of an operation on the package.
    pub fn guard(&self) -> &Mutex<()> {
        &self.lock
    }

    /// Starts installing the dependencies `names`, in order.
    pub fn install(&self, names: Vec<String>) -> (r: (Installation, Action))
        ensures
            r.0.root_dir() == self.root_view(),
            r.0.names() == texts(names@),
            r.0.done() == 0,
            r.0.finished() == (names@.len() == 0),
            r.1@ == install_first(self.root_view(), texts(names@)),
    {
        Installation::start(&self.root_dir, names)
    }

    /// Starts evaluating the expression whose source text is `expr`.
    pub fn evaluate_source(&self, expr: &str) -> (r: (Evaluation, Action))
        ensures
            r.0.root_dir() == self.root_view(),
            r.0.stage() == EvalStage::Writing,
            r.1@ == (ActionView::WriteFile {
                path: joined(self.root_view(), ENTRY_POINT_FILE@),
                text: program(expr@),
            }),
    {
        Evaluation::start(&self.root_dir, expr)
    }

    /// Starts evaluating the expression `expr`: the wrapper program embeds
    /// the tokens' source text.
    pub fn evaluate(&self, expr: &TokenStream) -> (r: (Evaluation, Action))
        ensures
            r.0.root_dir() == self.root_view(),
            r.0.stage() == EvalStage::Writing,
            exists|src: Seq<char>|
                r.1@ == (ActionView::WriteFile {
                    path: joined(self.root_view(), ENTRY_POINT_FILE@),
                    text: #[trigger] program(src),
                }),
    {
        let src = token_source(expr);
        self.evaluate_source(&src)
    }
}

} // verus!
