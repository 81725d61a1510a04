use space_war::api::{DBPlayer, GameStream, GameStreamGame, GameStreamPlayer};
use space_war::game::world::vector::Vector;
use space_war::game::world::{TerminalColor, World};
use space_war::game::{Game, GameEffect, GameEvent, GameMessage, GameState};

fn player(id: &str, color: &str, ready: bool) -> GameStreamPlayer {
    player_at(id, color, ready, 1, 1)
}

fn player_at(id: &str, color: &str, ready: bool, x: i32, y: i32) -> GameStreamPlayer {
    GameStreamPlayer {
        id: id.to_string(),
        name: id.to_uppercase(),
        ship: 'X',
        ship_max_speed: 2,
        color: color.to_string(),
        ready,
        position_x: x,
        position_y: y,
        ship_classname: "Scout".to_string(),
    }
}

fn stream(host: &str, turn: i32, players: Vec<GameStreamPlayer>) -> GameStream {
    GameStream {
        game: GameStreamGame {
            id: "g1".to_string(),
            host_id: host.to_string(),
            width: 30,
            height: 20,
            turn_number: turn,
        },
        players,
    }
}

fn game() -> (Game, GameState) {
    (Game(World::default()), GameState::default())
}

fn logged(effect: Option<GameEffect>) -> String {
    match effect {
        Some(GameEffect::Log(text)) => text,
        _ => panic!("expected a log message"),
    }
}

#[test]
fn game_ident() {
    assert_eq!(Game::ident(), "game");
}

#[test]
fn event_names() {
    assert_eq!(GameEvent::from_name("decrease_speed"), Some(GameEvent::DecreaseSpeed));
    assert_eq!(GameEvent::from_name("submit_command"), Some(GameEvent::SubmitCommand));
    assert_eq!(
        GameEvent::from_name("toggle_set_torpedo_target"),
        Some(GameEvent::ToggleSetTorpedoTarget)
    );
    assert_eq!(GameEvent::from_name("fly"), None);
}

#[test]
fn mounting_allows_a_turn_and_asks_for_the_player() {
    let (mut g, mut s) = game();
    assert!(matches!(g.on_mount(&mut s), GameEffect::GetPlayerFromServer));
    assert!(s.can_take_turn);
}

#[test]
fn speed_change_is_held_between_minus_one_and_one() {
    let (mut g, mut s) = game();
    s.player_speed = 3;
    assert_eq!(logged(g.on_event(GameEvent::IncreaseSpeed, &mut s)), "Increasing speed to 1");
    assert_eq!(logged(g.on_event(GameEvent::IncreaseSpeed, &mut s)), "Increasing speed to 1");
    assert_eq!(s.command_speed_change, 1);
    g.on_event(GameEvent::DecreaseSpeed, &mut s);
    g.on_event(GameEvent::DecreaseSpeed, &mut s);
    g.on_event(GameEvent::DecreaseSpeed, &mut s);
    assert_eq!(s.command_speed_change, -1);
    assert!(g.on_event(GameEvent::DecreaseSpeed, &mut s).is_none());
    assert!(g.on_event(GameEvent::ResetSpeedChange, &mut s).is_none());
    assert_eq!(s.command_speed_change, 0);
}

#[test]
fn raising_a_negative_speed_change_logs_its_value() {
    let (mut g, mut s) = game();
    s.player_speed = 2;
    s.command_speed_change = -1;
    assert_eq!(logged(g.on_event(GameEvent::IncreaseSpeed, &mut s)), "Increasing speed to 0");
    s.command_speed_change = -1;
    g.on_event(GameEvent::DecreaseSpeed, &mut s);
    assert_eq!(s.command_speed_change, -1);
}

#[test]
fn a_stopped_ship_cannot_slow_down() {
    let (mut g, mut s) = game();
    s.player_speed = 0;
    g.on_event(GameEvent::DecreaseSpeed, &mut s);
    assert_eq!(s.command_speed_change, 0);
    s.command_speed_change = 1;
    g.on_event(GameEvent::DecreaseSpeed, &mut s);
    assert_eq!(s.command_speed_change, 0);
}

#[test]
fn submitting_sends_the_command_and_clears_it() {
    let (mut g, mut s) = game();
    s.can_take_turn = true;
    s.command_speed_change = 1;
    s.setting_destination = true;
    s.command_destination_set = true;
    s.command_destination_x = 4;
    s.command_destination_y = 5;
    g.0.display_possible_destinations = true;
    g.0.torpedo_target = Some(Vector::new(7, 8));
    match g.on_event(GameEvent::SubmitCommand, &mut s) {
        Some(GameEffect::SubmitTurnCommand(c)) => {
            assert_eq!(c.speed_change, 1);
            assert_eq!(c.destination, Some(Vector::new(4, 5)));
            assert_eq!(c.torpedo_target, Some(Vector::new(7, 8)));
        }
        _ => panic!("expected a command"),
    }
    assert!(!s.can_take_turn);
    assert_eq!(s.command_speed_change, 0);
    assert!(!s.setting_destination && !s.command_destination_set);
    assert!(!g.0.display_possible_destinations);
}

#[test]
fn submitting_without_a_destination() {
    let (mut g, mut s) = game();
    match g.on_event(GameEvent::SubmitCommand, &mut s) {
        Some(GameEffect::SubmitTurnCommand(c)) => assert_eq!(c.destination, None),
        _ => panic!("expected a command"),
    }
}

#[test]
fn toggling_destination_choice() {
    let (mut g, mut s) = game();
    g.on_event(GameEvent::ToggleSetDestination, &mut s);
    assert!(s.setting_destination && g.0.display_possible_destinations);
    s.command_destination_set = true;
    g.on_event(GameEvent::ToggleSetDestination, &mut s);
    assert!(!s.setting_destination && !g.0.display_possible_destinations);
    assert!(!s.command_destination_set);
}

#[test]
fn toggling_torpedo_choice_off_clears_the_target() {
    let (mut g, mut s) = game();
    g.on_event(GameEvent::ToggleSetTorpedoTarget, &mut s);
    assert!(s.setting_torpedo_target && g.0.setting_torpedo_target);
    let text = logged(g.on_mouse(&mut s, true, Vector::new(0, 0), Some((3, 2))));
    assert_eq!(text, "Setting torpedo target to be: (3,2)");
    assert!(s.torpedo_target_set);
    assert_eq!((s.torpedo_target_x, s.torpedo_target_y), (3, 2));
    assert_eq!(g.0.torpedo_target, Some(Vector::new(3, 2)));
    g.on_event(GameEvent::ToggleSetTorpedoTarget, &mut s);
    assert!(!s.torpedo_target_set);
    assert_eq!(g.0.torpedo_target, None);
}

#[test]
fn clicking_chooses_a_destination_once() {
    let (mut g, mut s) = game();
    g.on_event(GameEvent::ToggleSetDestination, &mut s);
    assert!(g.on_mouse(&mut s, false, Vector::new(0, 0), Some((1, 1))).is_none());
    assert!(!s.command_destination_set);
    let text = logged(g.on_mouse(&mut s, true, Vector::new(0, 0), Some((6, 2))));
    assert!(text.starts_with("Mouse clicked in canvas on cell: "));
    assert!(text.contains('6') && text.contains('2'));
    assert!(s.command_destination_set);
    assert!(!g.0.display_possible_destinations);
    assert!(g.on_mouse(&mut s, true, Vector::new(0, 0), Some((9, 9))).is_none());
    assert_eq!((s.command_destination_x, s.command_destination_y), (6, 2));
}

#[test]
fn a_click_off_the_canvas_chooses_nothing() {
    let (mut g, mut s) = game();
    g.on_event(GameEvent::ToggleSetDestination, &mut s);
    assert!(g.on_mouse(&mut s, true, Vector::new(0, 0), None).is_none());
    assert!(!s.command_destination_set);
    assert!(g.0.display_possible_destinations);
}

#[test]
fn mouse_moves_are_followed_while_aiming() {
    let (mut g, mut s) = game();
    g.on_event(GameEvent::ToggleSetTorpedoTarget, &mut s);
    g.on_mouse(&mut s, false, Vector::new(12, 7), None);
    assert_eq!(g.0.mouse_position, Vector::new(12, 7));
}

#[test]
fn first_update_fills_the_world_and_later_ones_take_ready_flags() {
    let (mut g, mut s) = game();
    let first = stream("host", 1, vec![player("a", "red", false), player("b", "blue", false)]);
    let text = logged(g.on_message(GameMessage::GameUpdate(first), &mut s));
    assert!(text.starts_with("world initiated: "));
    assert_eq!(
        g.0.draw(),
        vec![('X', TerminalColor::Red, (2, 1)), ('X', TerminalColor::Blue, (2, 1))]
    );
    assert_eq!(g.0.player_ids, vec!["a".to_string(), "b".to_string()]);
    assert_eq!((g.0.width, g.0.height, g.0.cell_width), (30, 20, 2));
    assert_eq!((s.width, s.height), (30, 20));
    assert_eq!(s.id, "g1");
    assert_eq!(s.host_id, "host");
    assert_eq!(g.0.turn, 1);
    assert!(!s.animating_completed_turn);

    let later = stream("other", 2, vec![player("b", "red", true), player("z", "red", true)]);
    g.on_message(GameMessage::GameUpdate(later), &mut s);
    assert_eq!(g.0.player_ids, vec!["a".to_string(), "b".to_string()]);
    assert_eq!(g.0.players_ready, vec![false, true]);
    assert_eq!(s.host_id, "other");
    assert!(s.animating_completed_turn);
    assert_eq!(g.0.next_turn_number, 2);
    assert_eq!(g.0.turn, 1);
}

#[test]
fn a_new_turn_moves_the_ships_and_finishing_it_allows_the_next() {
    let (mut g, mut s) = game();
    let first = stream("host", 1, vec![player_at("a", "red", false, 1, 1), player_at("b", "red", false, 2, 2)]);
    g.on_message(GameMessage::GameUpdate(first), &mut s);
    s.can_take_turn = false;

    let same_turn = stream("host", 1, vec![player_at("a", "red", true, 5, 5)]);
    assert!(g.on_message(GameMessage::GameUpdate(same_turn), &mut s).is_none());
    assert_eq!(g.0.player_positions, vec![Vector::new(1, 1), Vector::new(2, 2)]);
    assert!(!s.animating_completed_turn);

    let next_turn = stream("host", 2, vec![player_at("b", "red", false, 7, 3)]);
    assert!(g.on_message(GameMessage::GameUpdate(next_turn), &mut s).is_none());
    assert_eq!(g.0.player_positions, vec![Vector::new(1, 1), Vector::new(2, 2)]);
    assert_eq!(g.0.completed_turn.len(), 1);
    assert!(s.animating_completed_turn);

    g.finish_turn_animation(&mut s, false);
    assert!(s.animating_completed_turn && !s.can_take_turn);
    assert_eq!(g.0.player_positions, vec![Vector::new(1, 1), Vector::new(2, 2)]);
    assert_eq!(g.0.turn, 1);

    g.finish_turn_animation(&mut s, true);
    assert!(!s.animating_completed_turn && s.can_take_turn);
    assert_eq!(g.0.player_positions, vec![Vector::new(1, 1), Vector::new(7, 3)]);
    assert!(g.0.completed_turn.is_empty());
    assert_eq!(g.0.turn, 2);
}

#[test]
fn game_updates_leave_the_choices_alone() {
    let (mut g, mut s) = game();
    g.on_message(GameMessage::GameUpdate(stream("host", 1, vec![player("a", "red", false)])), &mut s);
    s.setting_destination = true;
    s.command_destination_set = true;
    s.command_destination_x = 4;
    s.command_destination_y = 6;
    s.setting_torpedo_target = true;
    s.torpedo_target_set = true;
    s.torpedo_target_x = 9;
    s.torpedo_target_y = 8;
    g.on_message(GameMessage::GameUpdate(stream("host", 2, vec![player("a", "red", true)])), &mut s);
    assert!(s.setting_destination && s.command_destination_set);
    assert_eq!((s.command_destination_x, s.command_destination_y), (4, 6));
    assert!(s.setting_torpedo_target && s.torpedo_target_set);
    assert_eq!((s.torpedo_target_x, s.torpedo_target_y), (9, 8));
}

#[test]
fn player_state_and_submitted_turns() {
    let (mut g, mut s) = game();
    let p = DBPlayer { speed: 3, id: "p".to_string(), torpedo_count: 2 };
    assert!(g.on_message(GameMessage::GotPlayerFromServer(p), &mut s).is_none());
    assert_eq!((s.player_speed, s.player_torpedoes_remaining), (3, 2));
    assert!(matches!(
        g.on_message(GameMessage::GameTurnSubmitted, &mut s),
        Some(GameEffect::GetPlayerFromServer)
    ));
}

#[test]
fn unreadable_colour_in_the_first_update_is_refused() {
    let (mut g, mut s) = game();
    let bad = stream("host", 1, vec![player("a", "no such colour", false)]);
    assert!(g.on_message_checked(GameMessage::GameUpdate(bad), &mut s).is_err());
    assert!(g.0.no_players());
    let good = stream("host", 1, vec![player("a", "green", false)]);
    assert!(g.on_message_checked(GameMessage::GameUpdate(good), &mut s).is_ok());
    assert_eq!(g.0.player_characters, vec!['X']);
}
