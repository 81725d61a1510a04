use space_war::api::{
    CreateGameResponse, GameStatus, HttpMethod, JoinGameResponse, LobbyStream, RequestBody, Ship,
    ShipColor,
};
use space_war::app::{App, AppEffect, AppMessage, AppState};

fn colors() -> Vec<ShipColor> {
    vec![
        ShipColor { id: "c-red".to_string(), name: "Red".to_string() },
        ShipColor { id: "c-blue".to_string(), name: "Blue".to_string() },
        ShipColor { id: "c-red-2".to_string(), name: "Red".to_string() },
    ]
}

fn ships() -> Vec<Ship> {
    vec![
        Ship {
            id: "s1".to_string(),
            class_name: "Scout".to_string(),
            character: 'S',
            max_speed: 4,
            max_torpedo_count: 1,
        },
        Ship {
            id: "s2".to_string(),
            class_name: "Destroyer".to_string(),
            character: 'D',
            max_speed: 2,
            max_torpedo_count: 4,
        },
    ]
}

fn created() -> CreateGameResponse {
    CreateGameResponse {
        game_id: "g1".to_string(),
        status: "Lobby".to_string(),
        player_id: "p1".to_string(),
        token: "tok".to_string(),
        game_code: 777,
    }
}

#[test]
fn app_ident() {
    assert_eq!(App::ident(), "app");
}

#[test]
fn mounting_shows_home_and_asks_for_the_catalogue() {
    let mut app = App::default();
    let mut state = AppState::default();
    let effects = app.on_mount(&mut state, 80, 24);
    assert_eq!((state.width, state.height), (80, 24));
    assert_eq!(state.current_route, "Home");
    assert_eq!(effects.len(), 2);
    match &effects[0] {
        AppEffect::FetchShipColors(r) => {
            assert_eq!(r.url, "http://localhost:3000/api/players/colors")
        }
        _ => panic!("expected colours"),
    }
    match &effects[1] {
        AppEffect::FetchShips(r) => assert_eq!(r.url, "http://localhost:3000/api/ships"),
        _ => panic!("expected ships"),
    }
}

#[test]
fn naming_then_creating_a_game() {
    let mut app = App::default();
    let mut state = AppState::default();
    assert!(app.on_message(AppMessage::NameSet("Ada".to_string()), &mut state).is_none());
    assert_eq!(state.player_name, "Ada");
    assert_eq!(state.current_route, "Start");
    match app.on_message(AppMessage::CreateGame, &mut state) {
        Some(AppEffect::CreateGame(r)) => {
            assert_eq!(r.method, HttpMethod::Post);
            match r.body {
                RequestBody::PlayerName { player_name } => assert_eq!(player_name, "Ada"),
                _ => panic!("wrong body"),
            }
        }
        _ => panic!("expected a create request"),
    }
}

#[test]
fn created_game_opens_the_lobby() {
    let mut app = App::default();
    let mut state = AppState::default();
    match app.on_message(AppMessage::GameCreated(created()), &mut state) {
        Some(AppEffect::OpenLobbyStream(r)) => {
            assert_eq!(r.url, "http://localhost:3000/api/games/g1/lobby/stream")
        }
        _ => panic!("expected the lobby stream"),
    }
    assert_eq!(state.current_route, "Lobby");
    assert_eq!(state.game_status, "Lobby");
    assert_eq!(state.game_code, 777);
    assert_eq!(app.0.token.as_deref(), Some("tok"));
    assert_eq!(app.0.game_id.as_deref(), Some("g1"));
    assert_eq!(app.0.player_id.as_deref(), Some("p1"));
}

#[test]
fn joining_a_game() {
    let mut app = App::default();
    let mut state = AppState::default();
    state.player_name = "Bob".to_string();
    match app.on_message(AppMessage::JoinGame(42), &mut state) {
        Some(AppEffect::JoinGame(r)) => match r.body {
            RequestBody::JoinGame { player_name, code } => {
                assert_eq!(player_name, "Bob");
                assert_eq!(code, 42);
            }
            _ => panic!("wrong body"),
        },
        _ => panic!("expected a join request"),
    }
    let joined = JoinGameResponse {
        token: "t2".to_string(),
        game_id: "g2".to_string(),
        player_id: "p2".to_string(),
    };
    match app.on_message(AppMessage::GameJoined(joined), &mut state) {
        Some(AppEffect::OpenLobbyStream(r)) => {
            assert_eq!(r.url, "http://localhost:3000/api/games/g2/lobby/stream")
        }
        _ => panic!("expected the lobby stream"),
    }
    assert_eq!(app.0.token.as_deref(), Some("t2"));
    assert_eq!(app.0.game_id.as_deref(), Some("g2"));
    assert_eq!(app.0.player_id.as_deref(), Some("p2"));
    assert_eq!(state.current_route, "Lobby");
}

#[test]
fn lobby_updates_go_to_the_lobby() {
    let mut app = App::default();
    let mut state = AppState::default();
    let update = LobbyStream { players: vec![], game_status: GameStatus::Playing };
    match app.on_message(AppMessage::LobbyUpdate(update), &mut state) {
        Some(AppEffect::ForwardToLobby(l)) => assert_eq!(l.game_status, GameStatus::Playing),
        _ => panic!("expected a forward"),
    }
}

#[test]
fn catalogue_is_kept_and_named() {
    let mut app = App::default();
    let mut state = AppState::default();
    assert!(app.on_message(AppMessage::PossibleShipColors(colors()), &mut state).is_none());
    assert_eq!(state.possible_ship_color_names, vec!["Red", "Blue", "Red"]);
    assert_eq!(app.0.possible_ship_colors.len(), 3);
    assert!(app.on_message(AppMessage::PossibleShips(ships()), &mut state).is_none());
    assert_eq!(state.possible_ship_names, vec!["Scout", "Destroyer"]);
    assert_eq!(state.possible_ship_chars, vec!['S', 'D']);
}

#[test]
fn changing_colour_and_ship_needs_a_token_and_a_known_name() {
    let mut app = App::default();
    let mut state = AppState::default();
    app.on_message(AppMessage::PossibleShipColors(colors()), &mut state);
    app.on_message(AppMessage::PossibleShips(ships()), &mut state);
    assert!(app.on_message(AppMessage::ChangingShipColor("Red".to_string()), &mut state).is_none());
    assert!(app.on_message(AppMessage::ChangeShip("Scout".to_string()), &mut state).is_none());
    assert!(app.on_message(AppMessage::ReadyUp, &mut state).is_none());

    app.on_message(AppMessage::GameCreated(created()), &mut state);
    match app.on_message(AppMessage::ChangingShipColor("Red".to_string()), &mut state) {
        Some(AppEffect::Send(r)) => match r.body {
            RequestBody::ColorId { color_id } => assert_eq!(color_id, "c-red"),
            _ => panic!("wrong body"),
        },
        _ => panic!("expected a colour request"),
    }
    assert!(app.on_message(AppMessage::ChangingShipColor("Green".to_string()), &mut state).is_none());
    match app.on_message(AppMessage::ChangeShip("Destroyer".to_string()), &mut state) {
        Some(AppEffect::Send(r)) => {
            assert_eq!(r.url, "http://localhost:3000/api/players/ship/s2");
            assert_eq!(r.token.as_deref(), Some("tok"));
        }
        _ => panic!("expected a ship request"),
    }
    assert!(app.on_message(AppMessage::ChangeShip("Carrier".to_string()), &mut state).is_none());
    match app.on_message(AppMessage::ReadyUp, &mut state) {
        Some(AppEffect::Send(r)) => {
            assert_eq!(r.url, "http://localhost:3000/api/players/ready_up");
            assert_eq!(r.token.as_deref(), Some("tok"));
        }
        _ => panic!("expected a ready request"),
    }
}

#[test]
fn quitting_with_and_without_a_session() {
    let mut app = App::default();
    let mut state = AppState::default();
    assert!(matches!(app.on_event("quit"), Some(AppEffect::QuitWithoutServer)));
    assert!(app.on_event("something else").is_none());
    app.on_message(AppMessage::GameCreated(created()), &mut state);
    match app.on_event("quit") {
        Some(AppEffect::LeaveGame(r)) => {
            assert_eq!(r.method, HttpMethod::Delete);
            assert_eq!(r.token.as_deref(), Some("tok"));
        }
        _ => panic!("expected a leave request"),
    }
    assert!(matches!(app.on_message(AppMessage::Quit, &mut state), Some(AppEffect::StopRuntime)));
}
