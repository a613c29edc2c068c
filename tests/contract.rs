use rps_game::{
    execute, instantiate, query, query_game, try_start_game, Attribute, ContractError,
    ExecuteMsg, GameData, GameMove, GameResponse, GameResult, GameStore, InstantiateMsg,
    QueryMsg, Response, State,
};

fn attr(key: &str, value: &str) -> Attribute {
    Attribute { key: key.to_string(), value: value.to_string() }
}

fn rock_game(host: &str, opponent: &str) -> GameData {
    GameData {
        host: host.to_string(),
        opponent: opponent.to_string(),
        host_move: GameMove::Rock,
        opp_move: GameMove::Waiting,
        result: GameResult::InProgress,
    }
}

#[test]
fn proper_initialization() {
    let mut store = GameStore::new();
    let msg = InstantiateMsg {};

    let res = instantiate(&mut store, "creator".to_string(), msg).unwrap();
    let state = store.get_config().unwrap();
    assert_eq!(
        vec![attr("method", "instantiate"), attr("owner", "creator")],
        res.attributes
    );
    assert_eq!("creator".to_string(), state.owner);
}

#[test]
fn create_game() {
    let mut store = GameStore::new();
    let msg = InstantiateMsg {};
    let _res = instantiate(&mut store, "creator".to_string(), msg).unwrap();

    let msg = ExecuteMsg::StartGame { opponent: "someone".to_string(), host_move: GameMove::Rock };
    let _res = execute(&mut store, "creator".to_string(), msg);

    let value = query(&store, QueryMsg::GetGame { host: "creator".to_string() }).unwrap();
    let expected_output = GameResponse { game: rock_game("creator", "someone") };
    assert_eq!(expected_output, value);

    let msg = ExecuteMsg::StartGame { opponent: "someone".to_string(), host_move: GameMove::Rock };
    let res = execute(&mut store, "creator".to_string(), msg);
    match res {
        Err(ContractError::GameInSession {}) => {}
        _ => panic!("Must return game in session error"),
    }
}

#[test]
fn start_reports_method() {
    let mut store = GameStore::new();
    let res = try_start_game(&mut store, "a".to_string(), "b".to_string(), GameMove::Paper).unwrap();
    assert_eq!(vec![attr("method", "try_upsert_entry")], res.attributes);
}

#[test]
fn second_start_refused_and_first_game_kept() {
    let mut store = GameStore::new();
    try_start_game(&mut store, "a".to_string(), "b".to_string(), GameMove::Rock).unwrap();
    for mv in [GameMove::Paper, GameMove::Scissors, GameMove::Rock] {
        let res = try_start_game(&mut store, "a".to_string(), "c".to_string(), mv);
        assert!(matches!(res, Err(ContractError::GameInSession {})));
    }
    let got = query_game(&store, "a".to_string()).unwrap();
    assert_eq!(rock_game("a", "b"), got.game);
}

#[test]
fn hosts_do_not_block_each_other() {
    let mut store = GameStore::new();
    try_start_game(&mut store, "alice".to_string(), "carol".to_string(), GameMove::Rock).unwrap();
    try_start_game(&mut store, "carol".to_string(), "alice".to_string(), GameMove::Scissors)
        .unwrap();
    assert_eq!(rock_game("alice", "carol"), query_game(&store, "alice".to_string()).unwrap().game);
    let carol = query_game(&store, "carol".to_string()).unwrap().game;
    assert_eq!(GameMove::Scissors, carol.host_move);
    assert_eq!("alice", carol.opponent);
}

#[test]
fn lookup_of_absent_host_is_not_found() {
    let mut store = GameStore::new();
    assert!(matches!(query_game(&store, "x".to_string()), Err(ContractError::NotFound {})));
    try_start_game(&mut store, "y".to_string(), "x".to_string(), GameMove::Rock).unwrap();
    assert!(matches!(
        query(&store, QueryMsg::GetGame { host: "x".to_string() }),
        Err(ContractError::NotFound {})
    ));
    assert!(matches!(store.get_session(&"x".to_string()), Err(ContractError::NotFound {})));
    assert!(store.try_get_session(&"x".to_string()).is_none());
}

#[test]
fn second_instantiate_overwrites_owner() {
    let mut store = GameStore::new();
    instantiate(&mut store, "first".to_string(), InstantiateMsg {}).unwrap();
    instantiate(&mut store, "second".to_string(), InstantiateMsg {}).unwrap();
    assert_eq!(State { owner: "second".to_string() }, store.get_config().unwrap());
}

#[test]
fn config_missing_before_instantiate() {
    let store = GameStore::new();
    assert!(matches!(store.get_config(), Err(ContractError::NotFound {})));
}

#[test]
fn host_may_name_itself_and_move_waiting() {
    let mut store = GameStore::new();
    try_start_game(&mut store, "me".to_string(), "me".to_string(), GameMove::Waiting).unwrap();
    let game = query_game(&store, "me".to_string()).unwrap().game;
    assert_eq!("me", game.opponent);
    assert_eq!(GameMove::Waiting, game.host_move);
}

#[test]
fn put_session_overwrites_by_host() {
    let mut store = GameStore::new();
    store.put_session(rock_game("h", "o1"));
    store.put_session(rock_game("k", "o2"));
    store.put_session(rock_game("h", "o3"));
    assert_eq!(rock_game("h", "o3"), store.get_session(&"h".to_string()).unwrap());
    assert_eq!(Some(rock_game("k", "o2")), store.try_get_session(&"k".to_string()));
}

#[test]
fn response_builder_appends() {
    let r = Response::new().add_attribute("k", "v").add_attribute("k", "w");
    assert_eq!(vec![attr("k", "v"), attr("k", "w")], r.attributes);
}

#[test]
fn scenario_creator_game() {
    let mut store = GameStore::new();
    instantiate(&mut store, "creator".to_string(), InstantiateMsg {}).unwrap();
    let start = ExecuteMsg::StartGame { opponent: "someone".to_string(), host_move: GameMove::Rock };
    execute(&mut store, "creator".to_string(), start.clone()).unwrap();
    let got = query(&store, QueryMsg::GetGame { host: "creator".to_string() }).unwrap();
    assert_eq!(GameResponse { game: rock_game("creator", "someone") }, got);
    assert!(matches!(
        execute(&mut store, "creator".to_string(), start),
        Err(ContractError::GameInSession {})
    ));
}
