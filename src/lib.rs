//! A game-session tracker: each host holds at most one active game against
//! a named opponent, and anyone can look a game up by its host.
//!
//! The store is an in-memory model whose view is a configuration slot and a
//! map from host identifier to game record; the contract operations are
//! verified against that view.

use vstd::prelude::*;

pub mod contract;
pub mod error;
pub mod lemmas;
pub mod msg;
pub mod response;
pub mod state;

pub use error::ContractError;
pub use msg::{ExecuteMsg, GameResponse, InstantiateMsg, QueryMsg};
pub use response::{Attribute, Response};
pub use state::{GameData, GameMove, GameResult, GameStore, GameStoreView, State};
pub use contract::{execute, instantiate, query, query_game, try_start_game};
