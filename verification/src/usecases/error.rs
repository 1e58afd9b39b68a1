use crate::domain::error::ModelError;
use vstd::prelude::*;
use vstd::std_specs::convert::FromSpecImpl;

verus! {

/// What a use case reports to its caller when it cannot go on.
#[derive(Debug, PartialEq, Eq)]
pub enum AppError {
    /// The request broke a rule of the domain, which the text names.
    UnprocessableEntity(&'static str),
    NotFound,
    Conflict,
    InternalServerError,
}

/// The name under which a domain error is reported.
pub open spec fn reason(error: ModelError) -> &'static str {
    match error {
        ModelError::SessionAlreadyClosed => "SessionAlreadyClosed",
        ModelError::InvalidCheckoutDate => "InvalidCheckoutDate",
    }
}

impl From<ModelError> for AppError {
    fn from(error: ModelError) -> (r: Self) {
        let reason = match error {
            ModelError::SessionAlreadyClosed => "SessionAlreadyClosed",
            ModelError::InvalidCheckoutDate => "InvalidCheckoutDate",
        };
        Self::UnprocessableEntity(reason)
    }
}

impl FromSpecImpl<ModelError> for AppError {
    open spec fn obeys_from_spec() -> bool {
        true
    }

    /// Every domain error is unprocessable, and keeps its name.
    open spec fn from_spec(error: ModelError) -> AppError {
        AppError::UnprocessableEntity(reason(error))
    }
}

} // verus!
