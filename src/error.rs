use vstd::prelude::*;

use cosmwasm_std::StdError;

verus! {

/// cosmwasm_std's error type, carried through unopened where storage fails.
#[verifier::external_type_specification]
#[verifier::external_body]
pub struct ExStdError(StdError);

/// The ways an operation of the contract can fail.
#[derive(Debug)]
pub enum ContractError {
    /// The underlying storage failed; the error is passed on as it came.
    Std(StdError),
    /// The caller may not perform the action. No operation raises it yet.
    Unauthorized {},
    /// The caller already hosts a game.
    GameInSession {},
    /// The record asked for does not exist.
    NotFound {},
}

} // verus!
