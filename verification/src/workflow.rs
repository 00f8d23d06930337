//! How a workflow moves on after each piece of external work.

use vstd::prelude::*;
use crate::command::{Action, ActionView};
use crate::error::{result_view, SignError, SignErrorView};

verus! {

/// Where a workflow stands after an outcome was reported to it.
#[derive(Debug, PartialEq, Eq)]
pub enum Progress<S> {
    /// The workflow goes on: carry out the action and report its outcome to
    /// the new state.
    Next(S, Action),
    /// The workflow has ended. Nothing is left to advance.
    Done(Result<(), SignError>),
}

/// Mathematical content of a [`Progress`].
pub ghost enum ProgressView<V> {
    Next(V, ActionView),
    Done(Result<(), SignErrorView>),
}

impl<S: View> View for Progress<S> {
    type V = ProgressView<S::V>;

    open spec fn view(&self) -> ProgressView<S::V> {
        match self {
            Progress::Next(state, action) => ProgressView::Next(state@, action@),
            Progress::Done(result) => ProgressView::Done(result_view(*result)),
        }
    }
}

} // verus!
