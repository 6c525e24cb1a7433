use grid_tactics::board::Layout;
use grid_tactics::character::{Abilities, Ability, Character, Status};
use grid_tactics::contract::{execute, instantiate, query};
use grid_tactics::error::ContractError;
use grid_tactics::geometry::{Direction, Position};
use grid_tactics::msg::{
    ExecuteMsg, GetHealthResponse, GetPositionResponse, InstantiateMsg, MessageInfo, QueryMsg,
    QueryResponse, Response,
};
use grid_tactics::state::State;
use grid_tactics::tile::Tile;

fn sender(name: &str) -> MessageInfo {
    MessageInfo { sender: name.to_string() }
}

fn start(layout: Option<Layout>) -> State {
    let msg = InstantiateMsg {
        admin: "registrar".to_string(),
        studentname: "Ada".to_string(),
        studentid: 7,
        universitites: vec![],
        degrees: vec![],
        host: "host".to_string(),
        layout,
    };
    let (state, response) = instantiate(&sender("creator"), msg);
    assert_eq!(response, Response::Instantiate);
    state
}

fn layout_with(x: usize, y: usize, tile: Tile) -> Layout {
    let mut tiles = vec![Tile::normal(); 64];
    tiles[8 * y + x] = tile;
    Layout::new(tiles).expect("64 well-formed tiles")
}

fn position(state: &State) -> (i8, i8) {
    match query(state, QueryMsg::GetPosition { id: 0 }) {
        Ok(QueryResponse::Position(GetPositionResponse { x, y })) => (x, y),
        other => panic!("no position: {:?}", other),
    }
}

fn health(state: &State) -> u32 {
    match query(state, QueryMsg::GetHealth { id: 0 }) {
        Ok(QueryResponse::Health(GetHealthResponse { health })) => health,
        other => panic!("no health: {:?}", other),
    }
}

#[test]
fn instance_starts_with_the_initial_character() {
    let state = start(None);
    assert_eq!(
        state.character,
        Character {
            id: 0,
            health: 100,
            abilities: Abilities { first: Ability::Fire, second: Ability::Electric },
            position: Position { x: 0, y: 0 },
        }
    );
    assert_eq!(state.board.host, "host");
    assert_eq!(state.board.layout.tiles(), vec![Tile::normal(); 64]);
    assert_eq!(state.character.current_status(), Status::Active);
}

#[test]
fn move_east_on_the_default_board() {
    let mut state = start(None);
    let east = Direction::East.code();
    let response = execute(&mut state, &sender("anyone"), ExecuteMsg::Move { direction: east });
    assert_eq!(response, Ok(Response::Move { x: 1, y: 0, health: 100 }));
    assert_eq!(position(&state), (1, 0));
    assert_eq!(health(&state), 100);
}

#[test]
fn move_onto_a_damage_inducer_costs_its_damage() {
    let hazard = Tile::damage_inducer(30).unwrap();
    let mut state = start(Some(layout_with(1, 0, hazard)));
    let response = execute(&mut state, &sender("anyone"), ExecuteMsg::Move { direction: 1 });
    assert_eq!(response, Ok(Response::Move { x: 1, y: 0, health: 70 }));
    assert_eq!(position(&state), (1, 0));
    assert_eq!(health(&state), 70);
}

#[test]
fn move_west_from_the_corner_is_out_of_bounds() {
    let mut state = start(None);
    let before = state.clone();
    let response = execute(&mut state, &sender("anyone"), ExecuteMsg::Move { direction: 3 });
    assert_eq!(response, Err(ContractError::OutOfBounds));
    assert_eq!(position(&state), (0, 0));
    assert_eq!(state, before);
}

#[test]
fn move_north_from_the_corner_is_out_of_bounds() {
    let mut state = start(None);
    let response = execute(&mut state, &sender("anyone"), ExecuteMsg::Move { direction: 0 });
    assert_eq!(response, Err(ContractError::OutOfBounds));
    assert_eq!(position(&state), (0, 0));
}

#[test]
fn attack_by_a_stranger_is_unauthorized() {
    let mut state = start(None);
    let before = state.clone();
    let north = Direction::North.code();
    let response = execute(&mut state, &sender("stranger"), ExecuteMsg::Attack { direction: north });
    assert_eq!(response, Err(ContractError::Unauthorized));
    assert_eq!(health(&state), 100);
    assert_eq!(state, before);
}

#[test]
fn repeated_attacks_defeat_the_character() {
    let mut state = start(None);
    let host = sender("host");
    // Fire and electricity: 20 + 15 a blow.
    assert_eq!(
        execute(&mut state, &host, ExecuteMsg::Attack { direction: 1 }),
        Ok(Response::Attack { health: 65 })
    );
    assert_eq!(
        execute(&mut state, &host, ExecuteMsg::Attack { direction: 1 }),
        Ok(Response::Attack { health: 30 })
    );
    assert_eq!(state.character.current_status(), Status::Active);
    assert_eq!(
        execute(&mut state, &host, ExecuteMsg::Attack { direction: 1 }),
        Ok(Response::Attack { health: 0 })
    );
    assert_eq!(state.character.current_status(), Status::Defeated);
    assert_eq!(health(&state), 0);
    assert_eq!(position(&state), (0, 0));

    let defeated = state.clone();
    assert_eq!(
        execute(&mut state, &host, ExecuteMsg::Attack { direction: 1 }),
        Err(ContractError::CharacterDefeated)
    );
    assert_eq!(
        execute(&mut state, &sender("anyone"), ExecuteMsg::Move { direction: 1 }),
        Err(ContractError::CharacterDefeated)
    );
    assert_eq!(state, defeated);
}

#[test]
fn attack_counts_the_damage_of_the_target_tile() {
    let hazard = Tile::damage_inducer(30).unwrap();
    let mut state = start(Some(layout_with(1, 0, hazard)));
    let host = sender("host");
    // 35 from the abilities and 30 from the tile to the east.
    assert_eq!(
        execute(&mut state, &host, ExecuteMsg::Attack { direction: 1 }),
        Ok(Response::Attack { health: 35 })
    );
    // Nothing but the abilities towards the open tile to the south.
    assert_eq!(
        execute(&mut state, &host, ExecuteMsg::Attack { direction: 2 }),
        Ok(Response::Attack { health: 0 })
    );
}

#[test]
fn attack_towards_the_edge_counts_no_tile() {
    let mut state = start(None);
    assert_eq!(
        execute(&mut state, &sender("host"), ExecuteMsg::Attack { direction: 0 }),
        Ok(Response::Attack { health: 65 })
    );
    assert_eq!(position(&state), (0, 0));
}

#[test]
fn move_onto_a_blockade_is_blocked() {
    let mut state = start(Some(layout_with(0, 1, Tile::blockade())));
    let before = state.clone();
    let south = Direction::South.code();
    let response = execute(&mut state, &sender("anyone"), ExecuteMsg::Move { direction: south });
    assert_eq!(response, Err(ContractError::Blocked));
    assert_eq!(position(&state), (0, 0));
    assert_eq!(health(&state), 100);
    assert_eq!(state, before);
}

#[test]
fn unknown_direction_is_invalid() {
    let mut state = start(None);
    let before = state.clone();
    for code in [4, -1, 17, i32::MAX, i32::MIN] {
        assert_eq!(
            execute(&mut state, &sender("anyone"), ExecuteMsg::Move { direction: code }),
            Err(ContractError::InvalidDirection)
        );
        assert_eq!(
            execute(&mut state, &sender("host"), ExecuteMsg::Attack { direction: code }),
            Err(ContractError::InvalidDirection)
        );
    }
    assert_eq!(state, before);
}

#[test]
fn unauthorized_comes_before_the_other_attack_errors() {
    let mut state = start(None);
    assert_eq!(
        execute(&mut state, &sender("stranger"), ExecuteMsg::Attack { direction: 9 }),
        Err(ContractError::Unauthorized)
    );
    state.character.health = 0;
    assert_eq!(
        execute(&mut state, &sender("stranger"), ExecuteMsg::Attack { direction: 1 }),
        Err(ContractError::Unauthorized)
    );
    assert_eq!(
        execute(&mut state, &sender("host"), ExecuteMsg::Attack { direction: 9 }),
        Err(ContractError::CharacterDefeated)
    );
    assert_eq!(
        execute(&mut state, &sender("anyone"), ExecuteMsg::Move { direction: 9 }),
        Err(ContractError::CharacterDefeated)
    );
}

#[test]
fn damage_is_floored_at_zero() {
    let hazard = Tile::damage_inducer(u32::MAX).unwrap();
    let mut state = start(Some(layout_with(1, 0, hazard)));
    let mut probe = state.clone();
    assert_eq!(
        execute(&mut probe, &sender("host"), ExecuteMsg::Attack { direction: 1 }),
        Ok(Response::Attack { health: 0 })
    );
    assert_eq!(
        execute(&mut state, &sender("anyone"), ExecuteMsg::Move { direction: 1 }),
        Ok(Response::Move { x: 1, y: 0, health: 0 })
    );
    assert_eq!(state.character.current_status(), Status::Defeated);
    assert_eq!(position(&state), (1, 0));
}

#[test]
fn a_walk_along_the_top_row_stays_on_the_grid() {
    let mut state = start(None);
    for step in 1..=7 {
        assert_eq!(
            execute(&mut state, &sender("anyone"), ExecuteMsg::Move { direction: 1 }),
            Ok(Response::Move { x: step, y: 0, health: 100 })
        );
    }
    assert_eq!(
        execute(&mut state, &sender("anyone"), ExecuteMsg::Move { direction: 1 }),
        Err(ContractError::OutOfBounds)
    );
    assert_eq!(position(&state), (7, 0));
    assert_eq!(
        execute(&mut state, &sender("anyone"), ExecuteMsg::Move { direction: 2 }),
        Ok(Response::Move { x: 7, y: 1, health: 100 })
    );
    assert_eq!(
        execute(&mut state, &sender("anyone"), ExecuteMsg::Move { direction: 3 }),
        Ok(Response::Move { x: 6, y: 1, health: 100 })
    );
    assert_eq!(
        execute(&mut state, &sender("anyone"), ExecuteMsg::Move { direction: 0 }),
        Ok(Response::Move { x: 6, y: 0, health: 100 })
    );
    assert!(state.character.is_wf());
}

#[test]
fn queries_repeat_and_change_nothing() {
    let mut state = start(None);
    execute(&mut state, &sender("anyone"), ExecuteMsg::Move { direction: 2 }).unwrap();
    let before = state.clone();
    let first = query(&state, QueryMsg::GetPosition { id: 0 });
    let second = query(&state, QueryMsg::GetPosition { id: 0 });
    assert_eq!(first, second);
    assert_eq!(first, Ok(QueryResponse::Position(GetPositionResponse { x: 0, y: 1 })));
    let first = query(&state, QueryMsg::GetHealth { id: 0 });
    let second = query(&state, QueryMsg::GetHealth { id: 0 });
    assert_eq!(first, second);
    assert_eq!(first, Ok(QueryResponse::Health(GetHealthResponse { health: 100 })));
    assert_eq!(state, before);
}

#[test]
fn queries_for_another_id_find_nothing() {
    let state = start(None);
    assert_eq!(query(&state, QueryMsg::GetPosition { id: 1 }), Err(ContractError::NotFound));
    assert_eq!(query(&state, QueryMsg::GetHealth { id: 5 }), Err(ContractError::NotFound));
}

#[test]
fn responses_name_their_method() {
    assert_eq!(Response::Instantiate.method(), "instantiate");
    assert_eq!(Response::Move { x: 1, y: 2, health: 3 }.method(), "move");
    assert_eq!(Response::Attack { health: 3 }.method(), "attack");
    assert_eq!(Response::AddUniversity.method(), "add_uni");
    assert_eq!(Response::RemoveUniversity.method(), "remove_university");
    assert_eq!(Response::AddDegree.method(), "add_degree");
    assert_eq!(Response::RemoveDegree.method(), "remove_degree");
}
