use vstd::prelude::*;

use crate::error::ContractError;

verus! {

/// Process-wide configuration: the identity that initialised the contract.
#[derive(Clone, Debug, PartialEq)]
pub struct State {
    pub owner: String,
}

/// A move in the game. `Waiting` marks a move that has not been made yet.
#[derive(Clone, Copy, Debug, PartialEq, Eq, Structural)]
pub enum GameMove {
    Waiting,
    Rock,
    Paper,
    Scissors,
}

/// How a game stands.
#[derive(Clone, Copy, Debug, PartialEq, Eq, Structural)]
pub enum GameResult {
    InProgress,
    HostWins,
    OpponentWins,
    Tie,
}

/// The record of one game, keyed in the store by its host.
#[derive(Clone, Debug, PartialEq)]
pub struct GameData {
    pub host: String,
    pub opponent: String,
    pub host_move: GameMove,
    pub opp_move: GameMove,
    pub result: GameResult,
}

impl GameData {
    /// Copies a record field by field.
    pub(crate) fn duplicate(&self) -> (r: GameData)
        ensures
            r == *self,
    {
        GameData {
            host: self.host.clone(),
            opponent: self.opponent.clone(),
            host_move: self.host_move,
            opp_move: self.opp_move,
            result: self.result,
        }
    }
}

/// What a store holds: the configuration slot and the games by host.
pub struct GameStoreView {
    pub config: Option<State>,
    pub games: Map<Seq<char>, GameData>,
}

/// The contract's storage: one configuration slot and one game per host.
///
/// It is a plain keyed store; the rule that a host may hold only one game at
/// a time is kept by the operations that start games, not here.
pub struct GameStore {
    config: Option<State>,
    sessions: Vec<GameData>,
    index: Ghost<Map<Seq<char>, GameData>>,
}

impl View for GameStore {
    type V = GameStoreView;

    closed spec fn view(&self) -> GameStoreView {
        GameStoreView { config: self.config, games: self.index@ }
    }
}

impl GameStore {
    /// Each stored record is the one the index gives for its host, hosts are
    /// distinct, and every indexed host has a record.
    #[verifier::type_invariant]
    spec fn well_formed(&self) -> bool {
        &&& forall|i: int|
            0 <= i < self.sessions@.len() ==> #[trigger] self.index@.contains_key(
                self.sessions@[i].host@,
            ) && self.index@[self.sessions@[i].host@] == self.sessions@[i]
        &&& forall|i: int, j: int|
            0 <= i < j < self.sessions@.len() ==> #[trigger] self.sessions@[i].host@
                != #[trigger] self.sessions@[j].host@
        &&& forall|k: Seq<char>|
            #[trigger] self.index@.contains_key(k) ==> exists|i: int|
                0 <= i < self.sessions@.len() && #[trigger] self.sessions@[i].host@ == k
    }

    /// An empty store: no configuration and no games.
    pub fn new() -> (r: GameStore)
        ensures
            r@.config is None,
            r@.games == Map::<Seq<char>, GameData>::empty(),
    {
        GameStore { config: None, sessions: Vec::new(), index: Ghost(Map::empty()) }
    }

    /// Overwrites the configuration slot.
    pub fn put_config(&mut self, cfg: State)
        ensures
            final(self)@.config == Some(cfg),
            final(self)@.games == old(self)@.games,
    {
        proof {
            use_type_invariant(&*self);
        }
        self.config = Some(cfg);
    }

    /// The configuration; fails with `NotFound` when none was ever stored.
    pub fn get_config(&self) -> (r: Result<State, ContractError>)
        ensures
            match self@.config {
                Some(cfg) => r == Ok::<State, ContractError>(cfg),
                None => r == Err::<State, ContractError>(ContractError::NotFound {}),
            },
    {
        match &self.config {
            Some(cfg) => Ok(State { owner: cfg.owner.clone() }),
            None => Err(ContractError::NotFound {}),
        }
    }

    /// The position of the record for `host`, if there is one.
    fn find(&self, host: &String) -> (r: Option<usize>)
        ensures
            match r {
                Some(i) => i < self.sessions@.len() && self.sessions@[i as int].host@ == host@,
                None => forall|i: int|
                    0 <= i < self.sessions@.len() ==> self.sessions@[i].host@ != host@,
            },
    {
        let mut i: usize = 0;
        while i < self.sessions.len()
            invariant
                i <= self.sessions@.len(),
                forall|j: int| 0 <= j < i ==> self.sessions@[j].host@ != host@,
            decreases self.sessions@.len() - i,
        {
            if self.sessions[i].host == *host {
                return Some(i);
            }
            i = i + 1;
        }
        None
    }

    /// The game held by `host`, or `None` when there is none.
    pub fn try_get_session(&self, host: &String) -> (r: Option<GameData>)
        ensures
            self@.games.contains_key(host@) ==> r == Some(self@.games[host@]),
            !self@.games.contains_key(host@) ==> r is None,
    {
        proof {
            use_type_invariant(self);
        }
        match self.find(host) {
            Some(i) => {
                proof {
                    assert(self.index@.contains_key(self.sessions@[i as int].host@));
                }
                Some(self.sessions[i].duplicate())
            },
            None => {
                proof {
                    if self.index@.contains_key(host@) {
                        let j = choose|j: int|
                            0 <= j < self.sessions@.len() && #[trigger] self.sessions@[j].host@
                                == host@;
                        assert(self.sessions@[j].host@ != host@);
                    }
                }
                None
            },
        }
    }

    /// The game held by `host`; fails with `NotFound` when there is none.
    pub fn get_session(&self, host: &String) -> (r: Result<GameData, ContractError>)
        ensures
            self@.games.contains_key(host@) ==> r == Ok::<GameData, ContractError>(
                self@.games[host@],
            ),
            !self@.games.contains_key(host@) ==> r == Err::<GameData, ContractError>(
                ContractError::NotFound {},
            ),
    {
        match self.try_get_session(host) {
            Some(game) => Ok(game),
            None => Err(ContractError::NotFound {}),
        }
    }

    /// Stores `game` under its host, replacing any game that host held.
    pub fn put_session(&mut self, game: GameData)
        ensures
            final(self)@.games == old(self)@.games.insert(game.host@, game),
            final(self)@.config == old(self)@.config,
    {
        let mut taken = GameStore::new();
        std::mem::swap(self, &mut taken);
        proof {
            use_type_invariant(&taken);
        }
        let ghost key = game.host@;
        let ghost old_sessions = taken.sessions@;
        let found = taken.find(&game.host);
        let GameStore { config, mut sessions, index } = taken;
        match found {
            Some(i) => {
                sessions.set(i, game);
            },
            None => {
                sessions.push(game);
            },
        }
        let ghost new_index = index@.insert(key, game);
        proof {
            assert forall|k: Seq<char>| #[trigger] new_index.contains_key(k) implies exists|i: int|
                0 <= i < sessions@.len() && #[trigger] sessions@[i].host@ == k by {
                if k != key {
                    let j = choose|j: int|
                        0 <= j < old_sessions.len() && #[trigger] old_sessions[j].host@ == k;
                    assert(sessions@[j].host@ == k);
                } else {
                    match found {
                        Some(i) => assert(sessions@[i as int].host@ == k),
                        None => assert(sessions@[old_sessions.len() as int].host@ == k),
                    }
                }
            }
        }
        *self = GameStore { config, sessions, index: Ghost(new_index) };
    }
}

} // verus!
