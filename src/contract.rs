use vstd::prelude::*;

use crate::error::ContractError;
use crate::msg::{ExecuteMsg, GameResponse, InstantiateMsg, QueryMsg};
use crate::response::Response;
use crate::state::{GameData, GameMove, GameResult, GameStore, GameStoreView, State};

verus! {

/// The game that `host` opens against `opponent` with `host_move`: the
/// opponent has not moved and nobody has won.
pub open spec fn new_game(host: String, opponent: String, host_move: GameMove) -> GameData {
    GameData {
        host,
        opponent,
        host_move,
        opp_move: GameMove::Waiting,
        result: GameResult::InProgress,
    }
}

/// A host may start a game only while it holds none.
pub open spec fn may_start(games: Map<Seq<char>, GameData>, host: Seq<char>) -> bool {
    !games.contains_key(host)
}

/// The games once `host` has started one against `opponent`.
pub open spec fn games_after_start(
    games: Map<Seq<char>, GameData>,
    host: String,
    opponent: String,
    host_move: GameMove,
) -> Map<Seq<char>, GameData> {
    games.insert(host@, new_game(host, opponent, host_move))
}

/// What starting a game does: when `sender` holds no game it gains the new
/// one and the call reports success; otherwise the call fails with
/// `GameInSession` and nothing changes. The configuration never changes.
pub open spec fn start_game_post(
    pre: GameStoreView,
    post: GameStoreView,
    sender: String,
    opponent: String,
    host_move: GameMove,
    r: Result<Response, ContractError>,
) -> bool {
    &&& post.config == pre.config
    &&& if may_start(pre.games, sender@) {
        &&& r is Ok
        &&& r->Ok_0@ == seq![("method"@, "try_upsert_entry"@)]
        &&& post.games == games_after_start(pre.games, sender, opponent, host_move)
    } else {
        &&& r == Err::<Response, ContractError>(ContractError::GameInSession {})
        &&& post.games == pre.games
    }
}

/// What a lookup of the game hosted by `host` answers.
pub open spec fn query_game_result(games: Map<Seq<char>, GameData>, host: Seq<char>) -> Result<
    GameResponse,
    ContractError,
> {
    if games.contains_key(host) {
        Ok(GameResponse { game: games[host] })
    } else {
        Err(ContractError::NotFound {})
    }
}

/// The store as initialisation by `sender` leaves it.
pub open spec fn instantiated(pre: GameStoreView, sender: String) -> GameStoreView {
    GameStoreView { config: Some(State { owner: sender }), games: pre.games }
}

/// Initialises the contract: `sender` becomes the owner, overwriting any
/// earlier owner. Games are left as they are.
pub fn instantiate(store: &mut GameStore, sender: String, _msg: InstantiateMsg) -> (r: Result<
    Response,
    ContractError,
>)
    ensures
        final(store)@ == instantiated(old(store)@, sender),
        r is Ok,
        r->Ok_0@ == seq![("method"@, "instantiate"@), ("owner"@, sender@)],
{
    let response = Response::new().add_attribute("method", "instantiate").add_attribute(
        "owner",
        sender.as_str(),
    );
    store.put_config(State { owner: sender });
    Ok(response)
}

/// Carries out a state-changing command sent by `sender`.
pub fn execute(store: &mut GameStore, sender: String, msg: ExecuteMsg) -> (r: Result<
    Response,
    ContractError,
>)
    ensures
        match msg {
            ExecuteMsg::StartGame { opponent, host_move } => start_game_post(
                old(store)@,
                final(store)@,
                sender,
                opponent,
                host_move,
                r,
            ),
        },
{
    match msg {
        ExecuteMsg::StartGame { opponent, host_move } => try_start_game(
            store,
            sender,
            opponent,
            host_move,
        ),
    }
}

/// Starts a game hosted by `sender` against `opponent`, unless `sender`
/// already hosts one.
pub fn try_start_game(
    store: &mut GameStore,
    sender: String,
    opponent: String,
    host_move: GameMove,
) -> (r: Result<Response, ContractError>)
    ensures
        start_game_post(old(store)@, final(store)@, sender, opponent, host_move, r),
{
    if store.try_get_session(&sender).is_some() {
        return Err(ContractError::GameInSession {});
    }
    let game_data = GameData {
        host: sender,
        opponent,
        host_move,
        opp_move: GameMove::Waiting,
        result: GameResult::InProgress,
    };
    store.put_session(game_data);
    Ok(Response::new().add_attribute("method", "try_upsert_entry"))
}

/// Answers a read-only query.
pub fn query(store: &GameStore, msg: QueryMsg) -> (r: Result<GameResponse, ContractError>)
    ensures
        match msg {
            QueryMsg::GetGame { host } => r == query_game_result(store@.games, host@),
        },
{
    match msg {
        QueryMsg::GetGame { host } => query_game(store, host),
    }
}

/// The game hosted by `host`; fails with `NotFound` when there is none.
pub fn query_game(store: &GameStore, host: String) -> (r: Result<GameResponse, ContractError>)
    ensures
        r == query_game_result(store@.games, host@),
{
    match store.get_session(&host) {
        Ok(game) => Ok(GameResponse { game }),
        Err(e) => Err(e),
    }
}

} // verus!
