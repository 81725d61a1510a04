use space_war::api::{
    change_ship, create_game, get_game_sse, get_lobby_sse, get_player, get_possible_colors,
    get_possible_ships, join_game, quit, ready_up, set_ship_color, submit_game_turn, GameStatus,
    HttpMethod, RequestBody,
};
use space_war::game::world::vector::Vector;
use space_war::game::TurnCommand;

#[test]
fn create_game_posts_the_name() {
    let req = create_game("Ada".to_string());
    assert_eq!(req.method, HttpMethod::Post);
    assert_eq!(req.url, "http://localhost:3000/api/games");
    assert!(req.token.is_none());
    match req.body {
        RequestBody::PlayerName { player_name } => assert_eq!(player_name, "Ada"),
        _ => panic!("wrong body"),
    }
}

#[test]
fn join_game_posts_name_and_code() {
    let req = join_game("Bob".to_string(), 1234);
    assert_eq!(req.method, HttpMethod::Post);
    assert_eq!(req.url, "http://localhost:3000/api/games/join");
    match req.body {
        RequestBody::JoinGame { player_name, code } => {
            assert_eq!(player_name, "Bob");
            assert_eq!(code, 1234);
        }
        _ => panic!("wrong body"),
    }
}

#[test]
fn stream_addresses_carry_the_game_id() {
    let lobby = get_lobby_sse("g-42");
    assert_eq!(lobby.method, HttpMethod::Get);
    assert_eq!(lobby.url, "http://localhost:3000/api/games/g-42/lobby/stream");
    let game = get_game_sse("g-42");
    assert_eq!(game.url, "http://localhost:3000/api/games/g-42/stream");
}

#[test]
fn catalogue_requests() {
    assert_eq!(get_possible_colors().url, "http://localhost:3000/api/players/colors");
    assert_eq!(get_possible_ships().url, "http://localhost:3000/api/ships");
    assert_eq!(get_possible_ships().method, HttpMethod::Get);
}

#[test]
fn player_requests_carry_the_token() {
    let color = set_ship_color("tok".to_string(), "c1");
    assert_eq!(color.method, HttpMethod::Put);
    assert_eq!(color.url, "http://localhost:3000/api/players/colors");
    assert_eq!(color.token.as_deref(), Some("tok"));
    match color.body {
        RequestBody::ColorId { color_id } => assert_eq!(color_id, "c1"),
        _ => panic!("wrong body"),
    }
    let ship = change_ship("s9", "tok".to_string());
    assert_eq!(ship.method, HttpMethod::Put);
    assert_eq!(ship.url, "http://localhost:3000/api/players/ship/s9");
    assert_eq!(ship.token.as_deref(), Some("tok"));
    let ready = ready_up("tok".to_string());
    assert_eq!(ready.url, "http://localhost:3000/api/players/ready_up");
    let leave = quit("tok".to_string());
    assert_eq!(leave.method, HttpMethod::Delete);
    assert_eq!(leave.url, "http://localhost:3000/api/players");
}

#[test]
fn no_player_request_without_a_token() {
    assert!(get_player(String::new()).is_none());
    let req = get_player("tok".to_string()).unwrap();
    assert_eq!(req.method, HttpMethod::Get);
    assert_eq!(req.url, "http://localhost:3000/api/players");
    assert_eq!(req.token.as_deref(), Some("tok"));
}

#[test]
fn turn_command_body() {
    let command = TurnCommand {
        speed_change: -1,
        destination: Some(Vector::new(3, 4)),
        torpedo_target: Some(Vector::new(9, 9)),
    };
    let req = submit_game_turn("tok", "g1", command);
    assert_eq!(req.method, HttpMethod::Post);
    assert_eq!(req.url, "http://localhost:3000/api/games/g1/command");
    assert_eq!(req.token.as_deref(), Some("tok"));
    match req.body {
        RequestBody::TurnCommand(body) => {
            assert_eq!(body.speed_change, -1);
            assert_eq!(body.destination, Some((3, 4)));
        }
        _ => panic!("wrong body"),
    }
    let no_destination = TurnCommand { speed_change: 1, destination: None, torpedo_target: None };
    match submit_game_turn("tok", "g1", no_destination).body {
        RequestBody::TurnCommand(body) => assert_eq!(body.destination, None),
        _ => panic!("wrong body"),
    }
}

#[test]
fn game_status_defaults_to_lobby() {
    assert_eq!(GameStatus::default(), GameStatus::Lobby);
}
