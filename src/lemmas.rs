use vstd::prelude::*;

use crate::contract::{games_after_start, instantiated, may_start, query_game_result};
use crate::error::ContractError;
use crate::msg::GameResponse;
use crate::state::{GameData, GameMove, GameResult, GameStoreView, State};

verus! {

/// How many of the attempts, made one after another by `host` with the given
/// opponents and moves, start a game, beginning from `games`. A refused
/// attempt leaves the games as they were.
pub open spec fn successful_starts(
    games: Map<Seq<char>, GameData>,
    host: String,
    attempts: Seq<(String, GameMove)>,
) -> nat
    decreases attempts.len(),
{
    if attempts.len() == 0 {
        0
    } else if may_start(games, host@) {
        1 + successful_starts(
            games_after_start(games, host, attempts[0].0, attempts[0].1),
            host,
            attempts.drop_first(),
        )
    } else {
        successful_starts(games, host, attempts.drop_first())
    }
}

/// Once a host has started a game, every further attempt of it to start one
/// is refused.
pub proof fn lemma_second_start_refused(
    games: Map<Seq<char>, GameData>,
    host: String,
    opponent: String,
    host_move: GameMove,
)
    requires
        may_start(games, host@),
    ensures
        !may_start(games_after_start(games, host, opponent, host_move), host@),
{
}

/// A host that already holds a game starts none, whatever it attempts.
pub proof fn lemma_no_start_while_in_session(
    games: Map<Seq<char>, GameData>,
    host: String,
    attempts: Seq<(String, GameMove)>,
)
    requires
        !may_start(games, host@),
    ensures
        successful_starts(games, host, attempts) == 0,
    decreases attempts.len(),
{
    if attempts.len() > 0 {
        lemma_no_start_while_in_session(games, host, attempts.drop_first());
    }
}

/// Of any sequence of attempts by one host to start a game, at most one
/// succeeds.
pub proof fn lemma_at_most_one_start(
    games: Map<Seq<char>, GameData>,
    host: String,
    attempts: Seq<(String, GameMove)>,
)
    ensures
        successful_starts(games, host, attempts) <= 1,
    decreases attempts.len(),
{
    if attempts.len() > 0 {
        if may_start(games, host@) {
            let after = games_after_start(games, host, attempts[0].0, attempts[0].1);
            lemma_second_start_refused(games, host, attempts[0].0, attempts[0].1);
            lemma_no_start_while_in_session(after, host, attempts.drop_first());
        } else {
            lemma_at_most_one_start(games, host, attempts.drop_first());
        }
    }
}

/// After `host` starts a game against `opponent` with `host_move`, looking up
/// `host` gives exactly that game: the opponent has not moved and the game is
/// in progress.
pub proof fn lemma_started_game_found(
    games: Map<Seq<char>, GameData>,
    host: String,
    opponent: String,
    host_move: GameMove,
)
    requires
        may_start(games, host@),
    ensures
        query_game_result(games_after_start(games, host, opponent, host_move), host@) == Ok::<
            GameResponse,
            ContractError,
        >(
            GameResponse {
                game: GameData {
                    host,
                    opponent,
                    host_move,
                    opp_move: GameMove::Waiting,
                    result: GameResult::InProgress,
                },
            },
        ),
{
}

/// A game held by one host neither blocks another host from starting a game
/// nor is changed when that host starts one.
pub proof fn lemma_hosts_isolated(
    games: Map<Seq<char>, GameData>,
    holder: Seq<char>,
    caller: String,
    opponent: String,
    host_move: GameMove,
)
    requires
        games.contains_key(holder),
        holder != caller@,
    ensures
        may_start(games, caller@) == may_start(games.remove(holder), caller@),
        games_after_start(games, caller, opponent, host_move).contains_key(holder),
        games_after_start(games, caller, opponent, host_move)[holder] == games[holder],
{
}

/// A host that has started no game has none to be found: lookups of it fail
/// with `NotFound`, also after other hosts start games.
pub proof fn lemma_absent_host_not_found(
    games: Map<Seq<char>, GameData>,
    absent: Seq<char>,
    caller: String,
    opponent: String,
    host_move: GameMove,
)
    requires
        !games.contains_key(absent),
        absent != caller@,
    ensures
        query_game_result(games, absent) == Err::<GameResponse, ContractError>(
            ContractError::NotFound {},
        ),
        query_game_result(games_after_start(games, caller, opponent, host_move), absent) == Err::<
            GameResponse,
            ContractError,
        >(ContractError::NotFound {}),
{
}

/// Initialising twice keeps the second owner and raises no error: the last
/// initialisation wins.
pub proof fn lemma_last_instantiate_wins(pre: GameStoreView, first: String, second: String)
    ensures
        instantiated(instantiated(pre, first), second).config == Some(State { owner: second }),
        instantiated(instantiated(pre, first), second).games == pre.games,
{
}

} // verus!
