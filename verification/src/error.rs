//! The failures that the library reports.

use vstd::prelude::*;

verus! {

/// What went wrong, by the part of a run that it belongs to.
#[derive(Clone, Copy, Debug, PartialEq, Eq, Structural)]
pub enum ErrorKind {
    /// A test or the repository is not defined as the request assumes.
    Configuration,
    /// A revision expression names no commit.
    Resolution,
    /// Two requests that cannot both be met.
    Conflict,
    /// A checkout could not be made or removed.
    Provision,
    /// A test command could not be started.
    Execution,
    /// A verdict or a summary could not be written.
    Store,
}

/// A failure with the words that describe it.
#[derive(Debug, PartialEq, Eq)]
pub struct GitTestError {
    pub kind: ErrorKind,
    pub message: String,
}

pub struct GitTestErrorView {
    pub kind: ErrorKind,
    pub message: Seq<char>,
}

impl View for GitTestError {
    type V = GitTestErrorView;

    open spec fn view(&self) -> GitTestErrorView {
        GitTestErrorView { kind: self.kind, message: self.message@ }
    }
}

impl DeepView for GitTestError {
    type V = GitTestErrorView;

    open spec fn deep_view(&self) -> GitTestErrorView {
        self@
    }
}

impl Clone for GitTestError {
    fn clone(&self) -> (r: Self)
        ensures
            r == *self,
    {
        GitTestError { kind: self.kind, message: self.message.clone() }
    }
}

impl GitTestError {
    pub fn new(kind: ErrorKind, message: String) -> (r: Self)
        ensures
            r.kind == kind,
            r.message == message,
    {
        GitTestError { kind, message }
    }

    /// The words of the failure, for a caller that prints it.
    pub fn to_text(&self) -> (r: String)
        ensures
            r@ == self.message@,
    {
        self.message.clone()
    }
}

/// A result with its value or its failure taken by its model.
pub open spec fn modelled<T: DeepView, E: DeepView>(r: Result<T, E>) -> Result<T::V, E::V> {
    match r {
        Ok(t) => Ok(t.deep_view()),
        Err(e) => Err(e.deep_view()),
    }
}

} // verus!
