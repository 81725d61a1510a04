use space_war::api::GameStreamPlayer;
use space_war::game::world::vector::Vector;
use space_war::game::world::{color_readable, TerminalColor, World};

fn player(id: &str, color: &str, ready: bool, x: i32, y: i32) -> GameStreamPlayer {
    GameStreamPlayer {
        id: id.to_string(),
        name: format!("name-{id}"),
        ship: 'A',
        ship_max_speed: 3,
        color: color.to_string(),
        ready,
        position_x: x,
        position_y: y,
        ship_classname: "Scout".to_string(),
    }
}

#[test]
fn new_world_has_no_players() {
    let world = World::default();
    assert!(world.no_players());
    assert_eq!(world.turn, 0);
    assert!(world.torpedo_target.is_none());
}

#[test]
fn set_size_fixes_the_cell_width() {
    let mut world = World::default();
    world.set_size(40, 20);
    assert_eq!((world.width, world.height, world.cell_width), (40, 20, 2));
}

#[test]
fn adding_players_fills_every_list() {
    let mut world = World::default();
    world.add_player(player("p1", "red", false, 1, 2));
    world.add_player(player("p2", "#00ff00", true, 3, 4));
    assert!(!world.no_players());
    assert_eq!(world.player_ids, vec!["p1".to_string(), "p2".to_string()]);
    assert_eq!(world.player_positions, vec![Vector::new(1, 2), Vector::new(3, 4)]);
    assert_eq!(world.players_ready, vec![false, true]);
    assert_eq!(world.player_colors, vec![TerminalColor::Red, TerminalColor::Rgb(0, 255, 0)]);
    assert_eq!(world.player_names[1], "name-p2");
    assert_eq!(world.player_max_speeds, vec![3, 3]);
}

#[test]
fn colours_that_the_toolkit_reads() {
    assert!(color_readable("red"));
    assert!(color_readable("RED"));
    assert!(color_readable("#FF0000"));
    assert!(color_readable("10"));
    assert!(!color_readable("not a colour"));
    assert!(!color_readable("#é1"));
    assert!(!color_readable(""));
    assert!(color_readable("blac\u{212A}"));
}

#[test]
fn each_player_gets_the_colour_the_toolkit_reads() {
    let mut world = World::default();
    world.add_player(player("p1", "LIGHT_BLUE", false, 0, 0));
    world.add_player(player("p2", "200", false, 0, 0));
    world.add_player(player("p3", "#0a0B0c", false, 0, 0));
    world.add_player(player("p4", "blac\u{212A}", false, 0, 0));
    world.add_player(player("p5", "dark_grey", false, 0, 0));
    assert_eq!(
        world.player_colors,
        vec![
            TerminalColor::LightBlue,
            TerminalColor::AnsiVal(200),
            TerminalColor::Rgb(10, 11, 12),
            TerminalColor::Black,
            TerminalColor::DarkGrey,
        ]
    );
}

#[test]
fn unreadable_colour_adds_nobody() {
    let mut world = World::default();
    assert!(!world.try_add_player(player("p1", "not a colour", false, 0, 0)));
    assert!(world.no_players());
    assert!(world.try_add_player(player("p1", "blue", false, 0, 0)));
    assert_eq!(world.player_characters, vec!['A']);
}

#[test]
fn updates_set_ready_flags_by_id() {
    let mut world = World::default();
    world.add_player(player("p1", "red", false, 0, 0));
    world.add_player(player("p2", "red", false, 0, 0));
    world.add_player(player("p3", "red", true, 0, 0));
    world.update_players(vec![
        player("p2", "red", true, 9, 9),
        player("nobody", "red", true, 0, 0),
        player("p3", "red", true, 0, 0),
        player("p3", "red", false, 0, 0),
    ]);
    assert_eq!(world.players_ready, vec![false, true, false]);
    assert_eq!(world.player_positions[1], Vector::new(0, 0));
}

#[test]
fn duplicate_ids_update_the_first_player_only() {
    let mut world = World::default();
    world.add_player(player("p1", "red", false, 0, 0));
    world.add_player(player("p1", "red", false, 0, 0));
    world.update_players(vec![player("p1", "red", true, 0, 0)]);
    assert_eq!(world.players_ready, vec![true, false]);
}

#[test]
fn drawing_puts_each_ship_at_its_column() {
    let mut world = World::default();
    world.set_size(10, 10);
    world.add_player(player("p1", "red", false, 3, 4));
    world.add_player(player("p2", "white", false, -1, 0));
    let cells = world.draw();
    assert_eq!(
        cells,
        vec![('A', TerminalColor::Red, (6, 4)), ('A', TerminalColor::White, (-2, 0))]
    );
}

#[test]
fn colours_are_written_as_the_toolkit_writes_them() {
    let mut world = World::default();
    world.add_player(player("p1", "light_red", false, 0, 0));
    world.add_player(player("p2", "#0a0B0c", false, 0, 0));
    world.add_player(player("p3", "7", false, 0, 0));
    world.add_player(player("p4", "#fff", false, 0, 0));
    assert_eq!(
        world.player_color_texts(),
        vec!["LightRed".to_string(), "#0A0B0C".to_string(), "7".to_string(), "#FFFFFF".to_string()]
    );
}
