//! The failures that an operation can end in.

use cosmwasm_std::StdError;
use vstd::prelude::*;
use vstd::std_specs::convert::FromSpecImpl;

verus! {

/// `cosmwasm_std::StdError`, the error of the host's own operations.
/// Declared as an opaque type: such an error is carried, never looked into.
#[verifier::external_type_specification]
#[verifier::external_body]
pub struct ExStdError(StdError);

/// Why an operation failed. A failure ends the operation at once, and the
/// state stays as it was.
#[derive(Debug, PartialEq)]
pub enum ContractError {
    /// A failure of the host: a slot that could not be read or written, or an
    /// address that did not pass validation. It is handed on as it came.
    Std(StdError),
    /// The caller is neither the project's owner nor, for a deletion, the
    /// admin.
    Unauthorized {},
    /// A project with this id exists already.
    ProjectExists(String),
    /// No project has this id.
    ProjectNotFound(String),
}

impl From<StdError> for ContractError {
    fn from(error: StdError) -> (wrapped: ContractError) {
        ContractError::Std(error)
    }
}

impl FromSpecImpl<StdError> for ContractError {
    open spec fn obeys_from_spec() -> bool {
        true
    }

    open spec fn from_spec(error: StdError) -> ContractError {
        ContractError::Std(error)
    }
}

} // verus!
