use vstd::prelude::*;

use crate::state::{GameData, GameMove};

verus! {

/// The message that initialises the contract; it carries nothing.
#[derive(Clone, Debug, PartialEq)]
pub struct InstantiateMsg {}

/// The state-changing commands.
#[derive(Clone, Debug, PartialEq)]
pub enum ExecuteMsg {
    /// Start a game hosted by the caller against `opponent`.
    StartGame { opponent: String, host_move: GameMove },
}

/// The read-only queries.
#[derive(Clone, Debug, PartialEq)]
pub enum QueryMsg {
    /// The game hosted by `host`.
    GetGame { host: String },
}

/// The answer to a `GetGame` query.
#[derive(Clone, Debug, PartialEq)]
pub struct GameResponse {
    pub game: GameData,
}

} // verus!
