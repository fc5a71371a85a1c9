//! The phases of a clone and how one can fail.

use vstd::prelude::*;

verus! {

/// The phase in which a clone failed.
#[derive(Clone, Copy, Debug, PartialEq, Eq, Structural)]
pub enum Error {
    /// The clone could not be prepared.
    PrepareClone,
    /// Fetching the remote's objects failed.
    FetchAndCheckout,
    /// The main worktree could not be checked out.
    CheckoutWorktree,
}

} // verus!
