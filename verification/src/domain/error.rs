use vstd::prelude::*;

verus! {

/// Why a parking session refused to close.
#[derive(Clone, Copy, Debug, PartialEq, Eq, Structural)]
pub enum ModelError {
    /// The session has been closed before.
    SessionAlreadyClosed,
    /// The check-out lies before the check-in.
    InvalidCheckoutDate,
}

} // verus!
