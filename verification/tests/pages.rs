use space_war::api::{GameOverPlayer, GameStatus, GetGameByIdResponse, LobbyStream, PlayerResponse};
use space_war::app::AppMessage;
use space_war::pages::game_over::{GameOver, GameOverEffect, GameOverState};
use space_war::pages::lobby::{LobbyPage, LobbyPageState};
use space_war::pages::splash::{SplashPage, SplashPageState};
use space_war::pages::start::{StartPage, StartPageState};
use space_war::router::{Route, Router};

#[test]
fn page_names() {
    assert_eq!(LobbyPage::ident(), "lobby_page");
    assert_eq!(GameOver::name(), "game_over_page");
}

#[test]
fn splash_begins_only_with_a_name() {
    let mut page = SplashPage;
    let mut state = SplashPageState::default();
    assert!(page.on_event("begin", None, &mut state).is_none());
    page.on_event("name_changed", Some("Ada".to_string()), &mut state);
    assert!(state.can_begin);
    match page.on_event("begin", None, &mut state) {
        Some(AppMessage::NameSet(n)) => assert_eq!(n, "Ada"),
        _ => panic!("expected the name"),
    }
    page.on_event("name_changed", None, &mut state);
    assert_eq!(state.player_name, "");
    assert!(!state.can_begin);
}

#[test]
fn splash_enter_sends_the_name_as_it_stands() {
    let mut page = SplashPage;
    let state = SplashPageState::default();
    match page.on_key(true, &state) {
        Some(AppMessage::NameSet(n)) => assert_eq!(n, ""),
        _ => panic!("expected the name"),
    }
    assert!(page.on_key(false, &state).is_none());
}

#[test]
fn start_page_creates_and_joins() {
    let mut page = StartPage;
    let mut state = StartPageState::default();
    assert!(matches!(page.on_event("create_game", None, &mut state), Some(AppMessage::CreateGame)));
    let join = |page: &mut StartPage, state: &mut StartPageState, code: &str| {
        page.on_event("game_code_changed", Some(code.to_string()), state);
        match page.on_event("join_game", None, state) {
            Some(AppMessage::JoinGame(c)) => c,
            _ => panic!("expected a join"),
        }
    };
    assert_eq!(join(&mut page, &mut state, "42"), 42);
    assert_eq!(join(&mut page, &mut state, "-7"), -7);
    assert_eq!(join(&mut page, &mut state, "+5"), 5);
    assert_eq!(join(&mut page, &mut state, "abc"), 0);
    assert_eq!(join(&mut page, &mut state, ""), 0);
    assert_eq!(join(&mut page, &mut state, "99999999999"), 0);
    assert_eq!(join(&mut page, &mut state, "2147483647"), 2147483647);
    assert_eq!(join(&mut page, &mut state, "2147483648"), 0);
    assert_eq!(join(&mut page, &mut state, "-2147483648"), -2147483648);
    assert_eq!(join(&mut page, &mut state, "-2147483649"), 0);
    assert_eq!(join(&mut page, &mut state, "007"), 7);
    assert_eq!(join(&mut page, &mut state, "-"), 0);
    assert_eq!(join(&mut page, &mut state, "+"), 0);
    assert_eq!(join(&mut page, &mut state, "12a"), 0);
    assert_eq!(join(&mut page, &mut state, " 12"), 0);
    assert_eq!(join(&mut page, &mut state, "--1"), 0);
    assert_eq!(join(&mut page, &mut state, "\u{0663}"), 0);
    page.on_event("game_code_changed", None, &mut state);
    assert_eq!(state.game_code, "");
}

#[test]
fn lobby_shows_the_players_of_the_update() {
    let mut page = LobbyPage;
    let mut state = LobbyPageState::default();
    let update = LobbyStream {
        players: vec![
            PlayerResponse {
                name: "Ada".to_string(),
                ship_class: "Scout".to_string(),
                ship_character: 'S',
                ship_color: "red".to_string(),
                ready: true,
            },
            PlayerResponse {
                name: "Bob".to_string(),
                ship_class: "Destroyer".to_string(),
                ship_character: 'D',
                ship_color: "blue".to_string(),
                ready: false,
            },
        ],
        game_status: GameStatus::Lobby,
    };
    page.on_message(AppMessage::LobbyUpdate(update), &mut state);
    assert_eq!(state.player_names, vec!["Ada", "Bob"]);
    assert_eq!(state.player_colors, vec!["red", "blue"]);
    assert_eq!(state.player_ships, vec!['S', 'D']);
    assert_eq!(state.player_ready, vec![true, false]);
    page.on_message(AppMessage::ReadyUp, &mut state);
    assert_eq!(state.player_names.len(), 2);
}

#[test]
fn lobby_events_ask_the_app() {
    let mut page = LobbyPage;
    match page.on_event("set_ship_color", Some("Red".to_string())) {
        Some(AppMessage::ChangingShipColor(c)) => assert_eq!(c, "Red"),
        _ => panic!("expected a colour change"),
    }
    match page.on_event("set_ship", Some("Scout".to_string())) {
        Some(AppMessage::ChangeShip(c)) => assert_eq!(c, "Scout"),
        _ => panic!("expected a ship change"),
    }
    assert!(page.on_event("set_ship", None).is_none());
}

#[test]
fn game_over_tells_the_living_from_the_dead() {
    let mut page = GameOver;
    let mut state = GameOverState::default();
    let response = GetGameByIdResponse {
        id: "g9".to_string(),
        players: vec![
            GameOverPlayer { name: "Ada".to_string(), hitpoints: 3 },
            GameOverPlayer { name: "Bob".to_string(), hitpoints: 0 },
            GameOverPlayer { name: "Cy".to_string(), hitpoints: -2 },
        ],
        status: GameStatus::GameOver,
    };
    let effects = page.on_message(response, &mut state);
    match effects.as_slice() {
        [GameOverEffect::Log(first), GameOverEffect::Log(second)] => {
            assert_eq!(first, "Got game info");
            assert!(second.starts_with("id: g9, players: "));
            assert!(second.contains("Ada") && second.ends_with("status: GameOver"));
        }
        _ => panic!("expected two log lines"),
    }
    assert_eq!(state.game_id, "g9");
    assert_eq!(state.player_names, vec!["Ada", "Bob", "Cy"]);
    assert_eq!(state.player_hitpoints, vec![3, 0, -2]);
    assert_eq!(state.player_status, vec!["alive", "dead", "dead"]);
}

#[test]
fn game_over_page_logs_and_asks_for_the_game() {
    let mut page = GameOver;
    match page.on_mount().as_slice() {
        [GameOverEffect::Log(text), GameOverEffect::GetGame] => {
            assert_eq!(text, "game over page loaded")
        }
        _ => panic!("expected a log line and a request"),
    }
}

#[test]
fn routes_and_navigation() {
    assert_eq!(Route::Home.into_string(), "Home");
    assert_eq!(Route::Start.into_string(), "Start");
    assert_eq!(Route::Lobby.into_string(), "Lobby");
    assert_eq!(Route::Game.into_string(), "Game");
    assert_eq!(Route::GameOver.into_string(), "GameOver");
    assert_eq!(Route::default(), Route::Home);
    let mut router = Router;
    assert_eq!(router.on_event("nav_to", Some(Route::Lobby)), Route::Lobby);
    assert_eq!(router.on_event("nav_to", None), Route::Home);
}
