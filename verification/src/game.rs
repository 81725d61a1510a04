pub mod messages;
pub mod world;

use vstd::prelude::*;

use crate::api::{DBPlayer, GameStream, GameStreamPlayer};
use crate::game::world::vector::Vector;
use crate::game::messages::{
    canvas_click_log, canvas_click_text, speed_log, speed_log_text, starts_with, torpedo_log,
    torpedo_log_text, world_initiated_log,
};
use crate::game::world::{
    color_readable, parsed_color, positions_after_updates, readable_color, ready_after_updates,
    same_player_count, spec_cell, TerminalColor, World, is_first_index, position_updates_law,
};
use crate::text::same_text;

verus! {

/// What a player orders for the coming turn.
#[derive(Debug, Clone, Copy)]
pub struct TurnCommand {
    pub speed_change: i8,
    pub destination: Option<Vector>,
    pub torpedo_target: Option<Vector>,
}

/// The game screen: it holds the world.
pub struct Game(pub World);

impl Game {
    pub fn ident() -> (name: &'static str)
        ensures
            name@ == "game"@,
    {
        "game"
    }
}

/// What the game screen shows besides the world's per-player lists.
#[derive(Debug, Default)]
pub struct GameState {
    pub id: String,
    pub width: i32,
    pub height: i32,
    pub player_speed: i32,
    pub host_id: String,
    pub command_speed_change: i8,
    pub can_take_turn: bool,
    pub setting_destination: bool,
    pub command_destination_x: i32,
    pub command_destination_y: i32,
    pub command_destination_set: bool,
    pub player_torpedoes_remaining: i32,
    pub setting_torpedo_target: bool,
    pub torpedo_target_x: i32,
    pub torpedo_target_y: i32,
    pub torpedo_target_set: bool,
    pub animating_completed_turn: bool,
}

/// The messages that reach the game screen.
pub enum GameMessage {
    GameUpdate(GameStream),
    GotPlayerFromServer(DBPlayer),
    GameTurnSubmitted,
}

/// What the game screen asks of the application.
#[derive(Debug, Clone)]
pub enum GameEffect {
    /// Ask the server, through the application, for the player's current state.
    GetPlayerFromServer,
    /// Send the player's command for this turn to the server.
    SubmitTurnCommand(TurnCommand),
    /// Log the text.
    Log(String),
}

pub enum GameEffectView {
    GetPlayerFromServer,
    SubmitTurnCommand(TurnCommand),
    Log(Seq<char>),
}

impl View for GameEffect {
    type V = GameEffectView;

    open spec fn view(&self) -> GameEffectView {
        match self {
            GameEffect::GetPlayerFromServer => GameEffectView::GetPlayerFromServer,
            GameEffect::SubmitTurnCommand(c) => GameEffectView::SubmitTurnCommand(*c),
            GameEffect::Log(t) => GameEffectView::Log(t@),
        }
    }
}

pub open spec fn game_effect_view(e: Option<GameEffect>) -> Option<GameEffectView> {
    match e {
        Some(e) => Some(e@),
        None => None,
    }
}

/// The user events of the game screen.
#[derive(Debug, Clone, Copy, PartialEq, Eq, Structural)]
pub enum GameEvent {
    DecreaseSpeed,
    ResetSpeedChange,
    IncreaseSpeed,
    SubmitCommand,
    ToggleSetDestination,
    ToggleSetTorpedoTarget,
}

pub open spec fn game_event_name(e: GameEvent) -> Seq<char> {
    match e {
        GameEvent::DecreaseSpeed => "decrease_speed"@,
        GameEvent::ResetSpeedChange => "reset_speed_change"@,
        GameEvent::IncreaseSpeed => "increase_speed"@,
        GameEvent::SubmitCommand => "submit_command"@,
        GameEvent::ToggleSetDestination => "toggle_set_destination"@,
        GameEvent::ToggleSetTorpedoTarget => "toggle_set_torpedo_target"@,
    }
}

impl GameEvent {
    /// The event that the templates send under `name`, if it is one of the game screen's.
    pub fn from_name(name: &str) -> (event: Option<GameEvent>)
        ensures
            match event {
                Some(e) => game_event_name(e) == name@,
                None => forall|e: GameEvent| game_event_name(e) != name@,
            },
    {
        if same_text(name, "decrease_speed") {
            Some(GameEvent::DecreaseSpeed)
        } else if same_text(name, "reset_speed_change") {
            Some(GameEvent::ResetSpeedChange)
        } else if same_text(name, "increase_speed") {
            Some(GameEvent::IncreaseSpeed)
        } else if same_text(name, "submit_command") {
            Some(GameEvent::SubmitCommand)
        } else if same_text(name, "toggle_set_destination") {
            Some(GameEvent::ToggleSetDestination)
        } else if same_text(name, "toggle_set_torpedo_target") {
            Some(GameEvent::ToggleSetTorpedoTarget)
        } else {
            proof {
                assert forall|e: GameEvent| game_event_name(e) != name@ by {
                    match e {
                        GameEvent::DecreaseSpeed => {},
                        GameEvent::ResetSpeedChange => {},
                        GameEvent::IncreaseSpeed => {},
                        GameEvent::SubmitCommand => {},
                        GameEvent::ToggleSetDestination => {},
                        GameEvent::ToggleSetTorpedoTarget => {},
                    }
                }
            }
            None
        }
    }
}

/// `v` held between `lo` and `hi`.
pub open spec fn clamp(v: int, lo: int, hi: int) -> int {
    if v < lo {
        lo
    } else if v > hi {
        hi
    } else {
        v
    }
}

fn clamp_i8(v: i8, lo: i8, hi: i8) -> (r: i8)
    requires
        lo <= hi,
    ensures
        r == clamp(v as int, lo as int, hi as int),
{
    if v < lo {
        lo
    } else if v > hi {
        hi
    } else {
        v
    }
}

/// The event can be handled without the speed change leaving the range of an `i8`.
pub open spec fn event_fits(s: GameState, e: GameEvent) -> bool {
    &&& e is DecreaseSpeed ==> s.command_speed_change > i8::MIN
    &&& e is IncreaseSpeed ==> s.command_speed_change < i8::MAX
}

/// The command that submitting sends: the chosen speed change, the destination if one
/// was set, and the torpedo target.
pub open spec fn command_of(w: World, s: GameState) -> TurnCommand {
    TurnCommand {
        speed_change: s.command_speed_change,
        destination: if s.command_destination_set {
            Some(Vector { x: s.command_destination_x, y: s.command_destination_y })
        } else {
            None
        },
        torpedo_target: w.torpedo_target,
    }
}

/// How the game screen answers a user event: the world and the screen afterwards,
/// and what it asks for: the command it submits, or a log text.
pub open spec fn game_event_transition(w: World, s: GameState, e: GameEvent) -> (
    World,
    GameState,
    Option<GameEffectView>,
) {
    match e {
        GameEvent::DecreaseSpeed => {
            let min_speed_change: int = if s.player_speed == 0 { 0 } else { -1 };
            (
                w,
                GameState {
                    command_speed_change: clamp(
                        s.command_speed_change - 1,
                        min_speed_change,
                        1,
                    ) as i8,
                    ..s
                },
                None,
            )
        },
        GameEvent::ResetSpeedChange => (w, GameState { command_speed_change: 0, ..s }, None),
        GameEvent::IncreaseSpeed => {
            let v = clamp(s.command_speed_change + 1, -1, 1) as i8;
            (
                w,
                GameState { command_speed_change: v, ..s },
                Some(GameEffectView::Log(speed_log_text(v))),
            )
        },
        GameEvent::SubmitCommand => (
            World { display_possible_destinations: false, ..w },
            GameState {
                can_take_turn: false,
                command_speed_change: 0,
                setting_destination: false,
                command_destination_set: false,
                ..s
            },
            Some(GameEffectView::SubmitTurnCommand(command_of(w, s))),
        ),
        GameEvent::ToggleSetDestination => {
            let setting = !s.setting_destination;
            (
                World { display_possible_destinations: setting, ..w },
                GameState {
                    setting_destination: setting,
                    command_destination_set: if setting {
                        s.command_destination_set
                    } else {
                        false
                    },
                    ..s
                },
                None,
            )
        },
        GameEvent::ToggleSetTorpedoTarget => {
            let setting = !s.setting_torpedo_target;
            (
                World {
                    setting_torpedo_target: setting,
                    torpedo_target: if setting { w.torpedo_target } else { None },
                    ..w
                },
                GameState {
                    setting_torpedo_target: setting,
                    torpedo_target_set: if setting { s.torpedo_target_set } else { false },
                    ..s
                },
                None,
            )
        },
    }
}

/// How the game screen answers the mouse: `left_up` tells whether the left button was
/// released, `position` is where the mouse is, and `canvas_cell` the canvas cell under it,
/// if any. Choosing a destination stops showing the possible ones.
pub open spec fn game_mouse_transition(
    w: World,
    s: GameState,
    left_up: bool,
    position: Vector,
    canvas_cell: Option<(u16, u16)>,
) -> (World, GameState, Option<GameEffectView>) {
    if w.display_possible_destinations && left_up && !s.command_destination_set {
        match canvas_cell {
            Some(c) => (
                World { display_possible_destinations: false, ..w },
                GameState {
                    command_destination_x: c.0 as i32,
                    command_destination_y: c.1 as i32,
                    command_destination_set: true,
                    ..s
                },
                Some(GameEffectView::Log(canvas_click_text(c.0, c.1))),
            ),
            None => (w, s, None),
        }
    } else if w.setting_torpedo_target && left_up && !s.torpedo_target_set {
        match canvas_cell {
            Some(c) => (
                World { torpedo_target: Some(Vector { x: c.0 as i32, y: c.1 as i32 }), ..w },
                GameState {
                    torpedo_target_x: c.0 as i32,
                    torpedo_target_y: c.1 as i32,
                    torpedo_target_set: true,
                    ..s
                },
                Some(GameEffectView::Log(torpedo_log_text(c.0 as i32, c.1 as i32))),
            ),
            None => (w, s, None),
        }
    } else if w.setting_torpedo_target {
        (World { mouse_position: position, ..w }, s, None)
    } else {
        (w, s, None)
    }
}

/// Finishing the display of a completed turn, from the world `w0` and screen `s0` to `w`
/// and `s`: each ship takes the position that the turn's report gives its player, the
/// report is spent, the world is at the turn the server reported, the screen stops showing
/// the turn and the player may take the next one. Nothing else changes.
pub open spec fn turn_finished(w0: World, s0: GameState, w: World, s: GameState) -> bool {
    &&& w.player_positions@ == positions_after_updates(
        w0.player_positions@,
        w0.player_ids@,
        w0.completed_turn@,
    )
    &&& w.completed_turn@.len() == 0
    &&& w.turn == w0.next_turn_number
    &&& w.players_unchanged_but_ready_and_positions(w0)
    &&& w.players_ready@ == w0.players_ready@
    &&& w.width == w0.width
    &&& w.height == w0.height
    &&& w.cell_width == w0.cell_width
    &&& w.host_id == w0.host_id
    &&& w.next_turn_number == w0.next_turn_number
    &&& w.display_possible_destinations == w0.display_possible_destinations
    &&& w.setting_torpedo_target == w0.setting_torpedo_target
    &&& w.torpedo_target == w0.torpedo_target
    &&& w.mouse_position == w0.mouse_position
    &&& s == (GameState { animating_completed_turn: false, can_take_turn: true, ..s0 })
}

/// Every player's colour is one that the toolkit reads.
pub open spec fn colors_parse(players: Seq<GameStreamPlayer>) -> bool {
    forall|i: int| 0 <= i < players.len() ==> readable_color(#[trigger] players[i].color@)
}

/// The server reports a turn beyond the one known, and the screen should show
/// the finished turn before going on.
pub open spec fn turn_advances(w: World, s: GameState, turn_number: i32) -> bool {
    &&& w.next_turn_number < turn_number
    &&& w.turn != 0
    &&& !s.animating_completed_turn
}

impl Game {
    /// On mounting: the player may take a turn, and the player's state is asked for.
    pub fn on_mount(&mut self, state: &mut GameState) -> (effect: GameEffect)
        ensures
            *final(state) == (GameState { can_take_turn: true, ..*old(state) }),
            final(self).0 == old(self).0,
            effect is GetPlayerFromServer,
    {
        state.can_take_turn = true;
        GameEffect::GetPlayerFromServer
    }

    /// Handles a user event; see [`game_event_transition`].
    pub fn on_event(&mut self, event: GameEvent, state: &mut GameState) -> (effect: Option<
        GameEffect,
    >)
        requires
            event_fits(*old(state), event),
        ensures
            ({
                let (w, s, e) = game_event_transition(old(self).0, *old(state), event);
                &&& final(self).0 == w
                &&& *final(state) == s
                &&& game_effect_view(effect) == e
            }),
    {
        match event {
            GameEvent::DecreaseSpeed => {
                let current_speed_change = state.command_speed_change - 1;
                let min_speed_change: i8 = if state.player_speed == 0 {
                    0
                } else {
                    -1
                };
                state.command_speed_change = clamp_i8(current_speed_change, min_speed_change, 1);
                None
            },
            GameEvent::ResetSpeedChange => {
                state.command_speed_change = 0;
                None
            },
            GameEvent::IncreaseSpeed => {
                let current_speed_change = state.command_speed_change + 1;
                let current_speed_change = clamp_i8(current_speed_change, -1, 1);
                state.command_speed_change = current_speed_change;
                Some(GameEffect::Log(speed_log(current_speed_change)))
            },
            GameEvent::SubmitCommand => {
                let speed_change = state.command_speed_change;
                let destination = if state.command_destination_set {
                    Some(Vector::new(state.command_destination_x, state.command_destination_y))
                } else {
                    None
                };
                let torpedo_target = self.0.torpedo_target;
                let command = TurnCommand { speed_change, destination, torpedo_target };
                state.can_take_turn = false;
                state.command_speed_change = 0;
                state.setting_destination = false;
                self.0.display_possible_destinations = false;
                state.command_destination_set = false;
                Some(GameEffect::SubmitTurnCommand(command))
            },
            GameEvent::ToggleSetDestination => {
                let setting_destination = !state.setting_destination;
                state.setting_destination = setting_destination;
                self.0.display_possible_destinations = setting_destination;
                if !setting_destination {
                    state.command_destination_set = false;
                }
                None
            },
            GameEvent::ToggleSetTorpedoTarget => {
                let setting_torpedo_target = !state.setting_torpedo_target;
                state.setting_torpedo_target = setting_torpedo_target;
                self.0.setting_torpedo_target = setting_torpedo_target;
                if !setting_torpedo_target {
                    state.torpedo_target_set = false;
                    self.0.torpedo_target = None;
                }
                None
            },
        }
    }

    /// Handles the mouse; see [`game_mouse_transition`].
    pub fn on_mouse(
        &mut self,
        state: &mut GameState,
        left_up: bool,
        position: Vector,
        canvas_cell: Option<(u16, u16)>,
    ) -> (effect: Option<GameEffect>)
        ensures
            (final(self).0, *final(state), game_effect_view(effect)) == game_mouse_transition(
                old(self).0,
                *old(state),
                left_up,
                position,
                canvas_cell,
            ),
    {
        if self.0.display_possible_destinations && left_up && !state.command_destination_set {
            if let Some(coords) = canvas_cell {
                state.command_destination_x = coords.0 as i32;
                state.command_destination_y = coords.1 as i32;
                state.command_destination_set = true;
                self.0.display_possible_destinations = false;
                return Some(GameEffect::Log(canvas_click_log(coords.0, coords.1)));
            }
            None
        } else if self.0.setting_torpedo_target && left_up && !state.torpedo_target_set {
            if let Some(coords) = canvas_cell {
                let x = coords.0 as i32;
                let y = coords.1 as i32;
                state.torpedo_target_x = x;
                state.torpedo_target_y = y;
                self.0.torpedo_target = Some(Vector::new(x, y));
                state.torpedo_target_set = true;
                return Some(GameEffect::Log(torpedo_log(x, y)));
            }
            None
        } else if self.0.setting_torpedo_target {
            self.0.mouse_position = position;
            None
        } else {
            None
        }
    }

    /// Once the completed turn has been shown (`done`), finishes it; see [`turn_finished`].
    /// Nothing changes while the turn is not shown or not done.
    pub fn finish_turn_animation(&mut self, state: &mut GameState, done: bool)
        requires
            same_player_count(&old(self).0),
        ensures
            same_player_count(&final(self).0),
            (done && old(state).animating_completed_turn) ==> turn_finished(
                old(self).0,
                *old(state),
                final(self).0,
                *final(state),
            ),
            !(done && old(state).animating_completed_turn) ==> final(self).0 == old(self).0
                && *final(state) == *old(state),
    {
        if done && state.animating_completed_turn {
            let mut moves: Vec<GameStreamPlayer> = Vec::new();
            std::mem::swap(&mut moves, &mut self.0.completed_turn);
            self.0.update_positions(&moves);
            state.animating_completed_turn = false;
            state.can_take_turn = true;
            self.0.turn = self.0.next_turn_number;
        }
    }
}

pub open spec fn ships_of(players: Seq<GameStreamPlayer>) -> Seq<char> {
    players.map_values(|p: GameStreamPlayer| p.ship)
}

pub open spec fn positions_of(players: Seq<GameStreamPlayer>) -> Seq<Vector> {
    players.map_values(|p: GameStreamPlayer| Vector { x: p.position_x, y: p.position_y })
}

pub open spec fn ids_of(players: Seq<GameStreamPlayer>) -> Seq<String> {
    players.map_values(|p: GameStreamPlayer| p.id)
}

pub open spec fn names_of(players: Seq<GameStreamPlayer>) -> Seq<String> {
    players.map_values(|p: GameStreamPlayer| p.name)
}

pub open spec fn max_speeds_of(players: Seq<GameStreamPlayer>) -> Seq<i32> {
    players.map_values(|p: GameStreamPlayer| p.ship_max_speed)
}

pub open spec fn ready_of(players: Seq<GameStreamPlayer>) -> Seq<bool> {
    players.map_values(|p: GameStreamPlayer| p.ready)
}

pub open spec fn classnames_of(players: Seq<GameStreamPlayer>) -> Seq<String> {
    players.map_values(|p: GameStreamPlayer| p.ship_classname)
}

/// The colour that the toolkit reads in each player's colour text.
pub open spec fn colors_of(players: Seq<GameStreamPlayer>) -> Seq<TerminalColor> {
    players.map_values(|p: GameStreamPlayer| parsed_color(p.color@).unwrap())
}

/// The world holds exactly the given players, in order.
pub open spec fn holds_players(w: World, players: Seq<GameStreamPlayer>) -> bool {
    &&& w.player_characters@ == ships_of(players)
    &&& w.player_positions@ == positions_of(players)
    &&& w.player_colors@ == colors_of(players)
    &&& w.player_ids@ == ids_of(players)
    &&& w.player_names@ == names_of(players)
    &&& w.player_max_speeds@ == max_speeds_of(players)
    &&& w.players_ready@ == ready_of(players)
    &&& w.player_ship_classnames@ == classnames_of(players)
}

/// What a game update may be applied to: a consistent world, and players whose
/// colours the toolkit reads when the world has none yet.
pub open spec fn update_applies(w: World, players: Seq<GameStreamPlayer>) -> bool {
    &&& same_player_count(&w)
    &&& w.player_characters@.len() == 0 ==> colors_parse(players)
}

/// What handling a message from the server does: the world `w0` and screen `s0` before,
/// `w` and `s` after, and the effect.
pub open spec fn message_handled(
    w0: World,
    s0: GameState,
    message: GameMessage,
    w: World,
    s: GameState,
    effect: Option<GameEffect>,
) -> bool {
    match message {
        GameMessage::GameUpdate(g) => {
            let advance = turn_advances(w0, s0, g.game.turn_number);
            &&& s.animating_completed_turn == (s0.animating_completed_turn || advance)
            &&& w.host_id@ == g.game.host_id@
            &&& s.host_id@ == if w0.host_id@ != g.game.host_id@ {
                g.game.host_id@
            } else {
                s0.host_id@
            }
            &&& s.player_speed == s0.player_speed
            &&& s.player_torpedoes_remaining == s0.player_torpedoes_remaining
            &&& s.can_take_turn == s0.can_take_turn
            &&& s.command_speed_change == s0.command_speed_change
            &&& s.setting_destination == s0.setting_destination
            &&& s.command_destination_x == s0.command_destination_x
            &&& s.command_destination_y == s0.command_destination_y
            &&& s.command_destination_set == s0.command_destination_set
            &&& s.setting_torpedo_target == s0.setting_torpedo_target
            &&& s.torpedo_target_x == s0.torpedo_target_x
            &&& s.torpedo_target_y == s0.torpedo_target_y
            &&& s.torpedo_target_set == s0.torpedo_target_set
            &&& w.display_possible_destinations == w0.display_possible_destinations
            &&& w.setting_torpedo_target == w0.setting_torpedo_target
            &&& w.torpedo_target == w0.torpedo_target
            &&& w.mouse_position == w0.mouse_position
            &&& if w0.player_characters@.len() == 0 {
                &&& effect matches Some(GameEffect::Log(t)) && starts_with(t@, "world initiated: "@)
                &&& w.width == g.game.width
                &&& w.height == g.game.height
                &&& w.cell_width == 2
                &&& s.id@ == g.game.id@
                &&& s.width == g.game.width
                &&& s.height == g.game.height
                &&& holds_players(w, g.players@)
                &&& w.turn == g.game.turn_number
                &&& w.next_turn_number == g.game.turn_number
                &&& w.completed_turn@ == w0.completed_turn@
            } else {
                &&& w.width == w0.width
                &&& w.height == w0.height
                &&& w.cell_width == w0.cell_width
                &&& s.id == s0.id
                &&& s.width == s0.width
                &&& s.height == s0.height
                &&& effect is None
                &&& w.players_unchanged_but_ready_and_positions(w0)
                &&& w.player_positions@ == w0.player_positions@
                &&& w.completed_turn@ == if advance {
                    g.players@
                } else {
                    w0.completed_turn@
                }
                &&& w.players_ready@ == ready_after_updates(
                    w0.players_ready@,
                    w0.player_ids@,
                    g.players@,
                )
                &&& w.turn == w0.turn
                &&& w.next_turn_number == if advance {
                    g.game.turn_number
                } else {
                    w0.next_turn_number
                }
            }
        },
        GameMessage::GotPlayerFromServer(p) => {
            &&& effect is None
            &&& s == (GameState {
                player_speed: p.speed,
                player_torpedoes_remaining: p.torpedo_count,
                ..s0
            })
            &&& w == w0
        },
        GameMessage::GameTurnSubmitted => {
            &&& effect matches Some(GameEffect::GetPlayerFromServer)
            &&& s == s0
            &&& w == w0
        },
    }
}

impl Game {
    /// Fills the empty world with the players of the first update, in order.
    fn add_players(&mut self, players: Vec<GameStreamPlayer>)
        requires
            same_player_count(&old(self).0),
            old(self).0.player_characters@.len() == 0,
            colors_parse(players@),
        ensures
            same_player_count(&final(self).0),
            holds_players(final(self).0, players@),
            final(self).0.rest_unchanged(old(self).0),
    {
        let ghost all = players@;
        let mut rest = players;
        let mut k: usize = 0;
        let n = rest.len();
        assert(all.skip(0) =~= all);
        assert(ships_of(all.take(0)) =~= self.0.player_characters@);
        assert(positions_of(all.take(0)) =~= self.0.player_positions@);
        assert(ids_of(all.take(0)) =~= self.0.player_ids@);
        assert(names_of(all.take(0)) =~= self.0.player_names@);
        assert(max_speeds_of(all.take(0)) =~= self.0.player_max_speeds@);
        assert(ready_of(all.take(0)) =~= self.0.players_ready@);
        assert(classnames_of(all.take(0)) =~= self.0.player_ship_classnames@);
        assert(colors_of(all.take(0)) =~= self.0.player_colors@);
        while k < n
            invariant
                n == all.len(),
                k <= n,
                rest@ == all.skip(k as int),
                colors_parse(all),
                same_player_count(&self.0),
                holds_players(self.0, all.take(k as int)),
                self.0.rest_unchanged(old(self).0),
            decreases n - k,
        {
            let player = rest.remove(0);
            assert(player == all[k as int]);
            assert(readable_color(all[k as int].color@));
            self.0.add_player(player);
            proof {
                let t = all.take(k + 1);
                assert(t =~= all.take(k as int).push(all[k as int]));
                assert(ships_of(t) =~= ships_of(all.take(k as int)).push(all[k as int].ship));
                assert(positions_of(t) =~= positions_of(all.take(k as int)).push(
                    Vector { x: all[k as int].position_x, y: all[k as int].position_y },
                ));
                assert(ids_of(t) =~= ids_of(all.take(k as int)).push(all[k as int].id));
                assert(names_of(t) =~= names_of(all.take(k as int)).push(all[k as int].name));
                assert(max_speeds_of(t) =~= max_speeds_of(all.take(k as int)).push(
                    all[k as int].ship_max_speed,
                ));
                assert(ready_of(t) =~= ready_of(all.take(k as int)).push(all[k as int].ready));
                assert(classnames_of(t) =~= classnames_of(all.take(k as int)).push(
                    all[k as int].ship_classname,
                ));
                assert(colors_of(t) =~= colors_of(all.take(k as int)).push(
                    parsed_color(all[k as int].color@).unwrap(),
                ));
                assert(rest@ =~= all.skip(k + 1));
            }
            k = k + 1;
        }
        assert(all.take(n as int) =~= all);
    }

    /// Handles a message from the server.
    ///
    /// A game update first notes a turn that the server has moved past, then takes the
    /// server's host. The first update fills the empty world: its size, its players and its
    /// turn, and logs the world; later ones take the players' ready flags, and keep the report
    /// of a turn that moved on for when it has been shown. The player's state gives the
    /// speed and the torpedoes left. A submitted turn asks for the player's state.
    pub fn on_message(&mut self, message: GameMessage, state: &mut GameState) -> (effect: Option<
        GameEffect,
    >)
        requires
            message matches GameMessage::GameUpdate(g) ==> update_applies(
                old(self).0,
                g.players@,
            ),
            !(message is GameUpdate) ==> same_player_count(&old(self).0),
        ensures
            same_player_count(&final(self).0),
            message_handled(
                old(self).0,
                *old(state),
                message,
                final(self).0,
                *final(state),
                effect,
            ),
    {
        match message {
            GameMessage::GameUpdate(game_stream) => {
                let turn_number = game_stream.game.turn_number;
                let advanced = self.0.next_turn_number < turn_number && self.0.turn != 0
                    && !state.animating_completed_turn;
                if advanced {
                    state.animating_completed_turn = true;
                    self.0.next_turn_number = turn_number;
                }
                if self.0.host_id != game_stream.game.host_id {
                    self.0.host_id = game_stream.game.host_id;
                    state.host_id = self.0.host_id.clone();
                }
                if self.0.no_players() {
                    let width = game_stream.game.width;
                    let height = game_stream.game.height;
                    self.0.set_size(width, height);
                    state.id = game_stream.game.id;
                    state.width = width;
                    state.height = height;
                    self.add_players(game_stream.players);
                    let log = world_initiated_log(&self.0);
                    self.0.turn = turn_number;
                    self.0.next_turn_number = self.0.turn;
                    Some(GameEffect::Log(log))
                } else {
                    self.0.update_ready(&game_stream.players);
                    if advanced {
                        self.0.completed_turn = game_stream.players;
                    }
                    None
                }
            },
            GameMessage::GotPlayerFromServer(db_player) => {
                state.player_speed = db_player.speed;
                state.player_torpedoes_remaining = db_player.torpedo_count;
                None
            },
            GameMessage::GameTurnSubmitted => Some(GameEffect::GetPlayerFromServer),
        }
    }
}

/// Whether the toolkit reads every player's colour.
pub fn colors_readable(players: &Vec<GameStreamPlayer>) -> (readable: bool)
    ensures
        readable == colors_parse(players@),
{
    let n = players.len();
    for i in 0..n
        invariant
            n == players@.len(),
            forall|j: int| 0 <= j < i ==> readable_color(#[trigger] players@[j].color@),
    {
        if !color_readable(players[i].color.as_str()) {
            return false;
        }
    }
    true
}

impl Game {
    /// Handles the message as [`Game::on_message`] does when it applies; hands it back
    /// untouched, with the screen and the world as they were, when the first update
    /// brings a colour that the toolkit does not read.
    pub fn on_message_checked(&mut self, message: GameMessage, state: &mut GameState) -> (result:
        Result<Option<GameEffect>, GameMessage>)
        requires
            same_player_count(&old(self).0),
        ensures
            same_player_count(&final(self).0),
            result is Err <==> (message matches GameMessage::GameUpdate(g)
                && !update_applies(old(self).0, g.players@)),
            result is Err ==> final(self).0 == old(self).0 && *final(state) == *old(state),
            result matches Ok(effect) ==> message_handled(
                old(self).0,
                *old(state),
                message,
                final(self).0,
                *final(state),
                effect,
            ),
    {
        let applies = match &message {
            GameMessage::GameUpdate(g) => !self.0.no_players() || colors_readable(&g.players),
            _ => true,
        };
        if applies {
            Ok(self.on_message(message, state))
        } else {
            Err(message)
        }
    }
}

/// The speed change chosen for a turn stays between -1 and 1 whatever the player does.
pub proof fn speed_change_stays_in_range(w: World, s: GameState, e: GameEvent)
    requires
        -1 <= s.command_speed_change <= 1,
    ensures
        event_fits(s, e),
        -1 <= game_event_transition(w, s, e).1.command_speed_change <= 1,
{
}

/// A ship that stands still cannot be ordered to slow down.
pub proof fn stopped_ship_cannot_slow_down(w: World, s: GameState)
    requires
        s.player_speed == 0,
        s.command_speed_change > i8::MIN,
    ensures
        game_event_transition(w, s, GameEvent::DecreaseSpeed).1.command_speed_change >= 0,
{
}

/// Submitting sends the command as chosen, then clears the choice and waits for the next turn.
pub proof fn submitting_sends_then_clears(w: World, s: GameState)
    ensures
        ({
            let (w1, s1, c) = game_event_transition(w, s, GameEvent::SubmitCommand);
            &&& c == Some(GameEffectView::SubmitTurnCommand(command_of(w, s)))
            &&& s1.command_speed_change == 0
            &&& !s1.can_take_turn
            &&& !s1.setting_destination
            &&& !s1.command_destination_set
            &&& !w1.display_possible_destinations
        }),
{
}

/// Toggling the choice of a destination, or of a torpedo target, twice puts the flags back
/// as they were when nothing was chosen; toggling a choice off clears it.
pub proof fn toggles_undo_themselves(w: World, s: GameState)
    ensures
        ({
            let (w1, s1, _) = game_event_transition(w, s, GameEvent::ToggleSetDestination);
            let (w2, s2, _) = game_event_transition(w1, s1, GameEvent::ToggleSetDestination);
            &&& s2.setting_destination == s.setting_destination
            &&& w2.display_possible_destinations == s.setting_destination
            &&& (!s1.setting_destination ==> !s1.command_destination_set)
            &&& (!s2.setting_destination ==> !s2.command_destination_set)
        }),
        ({
            let (w1, s1, _) = game_event_transition(w, s, GameEvent::ToggleSetTorpedoTarget);
            let (w2, s2, _) = game_event_transition(w1, s1, GameEvent::ToggleSetTorpedoTarget);
            &&& s2.setting_torpedo_target == s.setting_torpedo_target
            &&& w2.setting_torpedo_target == s.setting_torpedo_target
            &&& (!s1.setting_torpedo_target ==> !s1.torpedo_target_set && w1.torpedo_target
                is None)
            &&& (!s2.setting_torpedo_target ==> !s2.torpedo_target_set && w2.torpedo_target
                is None)
        }),
{
}

/// A chosen destination, and a chosen torpedo target, stay as chosen whatever the mouse does.
pub proof fn mouse_keeps_chosen_cells(
    w: World,
    s: GameState,
    left_up: bool,
    position: Vector,
    canvas_cell: Option<(u16, u16)>,
)
    ensures
        ({
            let (w1, s1, _) = game_mouse_transition(w, s, left_up, position, canvas_cell);
            &&& s.command_destination_set ==> s1.command_destination_set
                && s1.command_destination_x == s.command_destination_x
                && s1.command_destination_y == s.command_destination_y
            &&& s.torpedo_target_set ==> s1.torpedo_target_set
                && s1.torpedo_target_x == s.torpedo_target_x
                && s1.torpedo_target_y == s.torpedo_target_y
                && w1.torpedo_target == w.torpedo_target
        }),
{
}

/// The first game update fills the world with its players; a later update keeps them where
/// they are, changing only their ready flags.
pub proof fn first_update_sets_the_players(
    w0: World,
    s0: GameState,
    g1: GameStream,
    w1: World,
    s1: GameState,
    e1: Option<GameEffect>,
    g2: GameStream,
    w2: World,
    s2: GameState,
    e2: Option<GameEffect>,
)
    requires
        w0.player_characters@.len() == 0,
        g1.players@.len() > 0,
        message_handled(w0, s0, GameMessage::GameUpdate(g1), w1, s1, e1),
        message_handled(w1, s1, GameMessage::GameUpdate(g2), w2, s2, e2),
    ensures
        w2.player_ids@ == ids_of(g1.players@),
        w2.player_names@ == names_of(g1.players@),
        w2.player_characters@ == ships_of(g1.players@),
        w2.player_positions@ == positions_of(g1.players@),
        w2.width == g1.game.width,
        w2.height == g1.game.height,
        w2.turn == g1.game.turn_number,
{
    assert(w1.player_characters@.len() == g1.players@.len());
}

/// Outside the choice of a destination, the mouse never sets one.
pub proof fn destination_needs_the_choice(
    w: World,
    s: GameState,
    left_up: bool,
    position: Vector,
    canvas_cell: Option<(u16, u16)>,
)
    requires
        !w.display_possible_destinations,
    ensures
        game_mouse_transition(w, s, left_up, position, canvas_cell).1.command_destination_set
            == s.command_destination_set,
{
}

/// Turning the choice of a destination on and then releasing the left button over a canvas
/// cell makes that cell the destination, and stops showing the possible destinations.
pub proof fn choosing_then_clicking_sets_the_destination(
    w: World,
    s: GameState,
    position: Vector,
    cell: (u16, u16),
)
    requires
        !s.setting_destination,
        !s.command_destination_set,
    ensures
        ({
            let (w1, s1, _) = game_event_transition(w, s, GameEvent::ToggleSetDestination);
            let (w2, s2, e) = game_mouse_transition(w1, s1, true, position, Some(cell));
            &&& s2.command_destination_set
            &&& s2.command_destination_x == cell.0 as i32
            &&& s2.command_destination_y == cell.1 as i32
            &&& command_of(w2, s2).destination == Some(
                Vector { x: cell.0 as i32, y: cell.1 as i32 },
            )
            &&& !w2.display_possible_destinations
            &&& e == Some(GameEffectView::Log(canvas_click_text(cell.0, cell.1)))
        }),
{
}

/// When the server reports a new turn, the ships stay where they are while the turn is
/// shown; once it has been shown, each ship moves to the position that the report gives its
/// player, and the player may act again.
pub proof fn new_turn_moves_ships(
    w0: World,
    s0: GameState,
    g: GameStream,
    w1: World,
    s1: GameState,
    e: Option<GameEffect>,
    w2: World,
    s2: GameState,
    i: int,
    k: int,
)
    requires
        same_player_count(&w0),
        w0.player_characters@.len() > 0,
        turn_advances(w0, s0, g.game.turn_number),
        message_handled(w0, s0, GameMessage::GameUpdate(g), w1, s1, e),
        turn_finished(w1, s1, w2, s2),
        is_first_index(w0.player_ids@, w0.player_ids@[i]@, i),
        0 <= k < g.players@.len(),
        g.players@[k].id@ == w0.player_ids@[i]@,
        forall|k2: int|
            k < k2 < g.players@.len() ==> #[trigger] g.players@[k2].id@ != w0.player_ids@[i]@,
    ensures
        w1.player_positions@ == w0.player_positions@,
        s1.animating_completed_turn,
        w2.player_positions@[i] == (Vector {
            x: g.players@[k].position_x,
            y: g.players@[k].position_y,
        }),
        s2.can_take_turn,
        !s2.animating_completed_turn,
        w2.turn == g.game.turn_number,
{
    position_updates_law(w1.player_positions@, w1.player_ids@, g.players@, i, k);
}

/// After the first game update, drawing the world puts each player's ship in the colour
/// that the toolkit reads in the player's colour text, at the player's position, its
/// column scaled by the cell width.
pub proof fn first_update_draws_each_ship_in_its_colour(
    w0: World,
    s0: GameState,
    g: GameStream,
    w: World,
    s: GameState,
    e: Option<GameEffect>,
    i: int,
)
    requires
        w0.player_characters@.len() == 0,
        message_handled(w0, s0, GameMessage::GameUpdate(g), w, s, e),
        0 <= i < g.players@.len(),
    ensures
        spec_cell(&w, i) == (
            g.players@[i].ship,
            parsed_color(g.players@[i].color@).unwrap(),
            ((g.players@[i].position_x * 2) as i32, g.players@[i].position_y),
        ),
{
}

/// The speed change for the coming turn, from a value in -1..=1: lowering it takes one
/// off, down to -1 for a moving ship and down to 0 for a stopped one; raising it adds one,
/// up to 1; resetting it makes it 0.
pub proof fn speed_change_events(w: World, s: GameState)
    requires
        -1 <= s.command_speed_change <= 1,
    ensures
        s.player_speed != 0 ==> game_event_transition(w, s, GameEvent::DecreaseSpeed).1.command_speed_change
            == if s.command_speed_change == -1 {
            -1
        } else {
            s.command_speed_change - 1
        },
        s.player_speed == 0 ==> game_event_transition(w, s, GameEvent::DecreaseSpeed).1.command_speed_change
            == 0,
        game_event_transition(w, s, GameEvent::IncreaseSpeed).1.command_speed_change == if s.command_speed_change
            == 1 {
            1
        } else {
            s.command_speed_change + 1
        },
        game_event_transition(w, s, GameEvent::ResetSpeedChange).1.command_speed_change == 0,
        game_event_transition(w, s, GameEvent::IncreaseSpeed).2 == Some(
            GameEffectView::Log(
                speed_log_text(
                    game_event_transition(w, s, GameEvent::IncreaseSpeed).1.command_speed_change,
                ),
            ),
        ),
        game_event_transition(w, s, GameEvent::DecreaseSpeed).2 is None,
        game_event_transition(w, s, GameEvent::ResetSpeedChange).2 is None,
{
}

/// The command that submitting sends carries the speed change, the destination (when one
/// was set) and the torpedo target exactly as the player chose them.
pub proof fn submitted_command_is_the_choice(w: World, s: GameState)
    ensures
        game_event_transition(w, s, GameEvent::SubmitCommand).2 matches Some(
            GameEffectView::SubmitTurnCommand(c),
        ) && c.speed_change == s.command_speed_change && c.torpedo_target == w.torpedo_target
            && (s.command_destination_set ==> c.destination == Some(
            Vector { x: s.command_destination_x, y: s.command_destination_y },
        )) && (!s.command_destination_set ==> c.destination is None),
{
}

/// Without a release of the left button, the mouse chooses nothing: no destination, no
/// torpedo target, and no message; at most the aim follows the mouse.
pub proof fn no_release_chooses_nothing(
    w: World,
    s: GameState,
    position: Vector,
    canvas_cell: Option<(u16, u16)>,
)
    ensures
        ({
            let (w1, s1, e) = game_mouse_transition(w, s, false, position, canvas_cell);
            &&& s1 == s
            &&& e is None
            &&& w1.torpedo_target == w.torpedo_target
            &&& w1.display_possible_destinations == w.display_possible_destinations
            &&& w1.setting_torpedo_target == w.setting_torpedo_target
            &&& w1.mouse_position == if w.setting_torpedo_target {
                position
            } else {
                w.mouse_position
            }
        }),
{
}

/// The first game update into an empty world gives the world, at each index, exactly the
/// ship, position, colour, id, name, top speed, ready flag and class of the update's player
/// at that index, and no other player.
pub proof fn first_update_copies_each_player(
    w0: World,
    s0: GameState,
    g: GameStream,
    w: World,
    s: GameState,
    e: Option<GameEffect>,
    i: int,
)
    requires
        w0.player_characters@.len() == 0,
        message_handled(w0, s0, GameMessage::GameUpdate(g), w, s, e),
        0 <= i < g.players@.len(),
    ensures
        w.player_characters@.len() == g.players@.len(),
        w.players_ready@.len() == g.players@.len(),
        w.players_ready@[i] == g.players@[i].ready,
        w.player_characters@[i] == g.players@[i].ship,
        w.player_positions@[i] == (Vector { x: g.players@[i].position_x, y: g.players@[i].position_y }),
        w.player_colors@[i] == parsed_color(g.players@[i].color@).unwrap(),
        w.player_ids@[i] == g.players@[i].id,
        w.player_names@[i] == g.players@[i].name,
        w.player_max_speeds@[i] == g.players@[i].ship_max_speed,
        w.player_ship_classnames@[i] == g.players@[i].ship_classname,
{
}

/// Releasing the left button over a canvas cell while aiming, with no destination being
/// chosen, makes that cell the torpedo target and logs it; releasing it off the canvas
/// changes nothing.
pub proof fn release_over_cell_aims_the_torpedo(
    w: World,
    s: GameState,
    position: Vector,
    cell: (u16, u16),
)
    requires
        !(w.display_possible_destinations && !s.command_destination_set),
        w.setting_torpedo_target,
        !s.torpedo_target_set,
    ensures
        ({
            let (w1, s1, e) = game_mouse_transition(w, s, true, position, Some(cell));
            &&& s1.torpedo_target_set
            &&& s1.torpedo_target_x == cell.0
            &&& s1.torpedo_target_y == cell.1
            &&& w1.torpedo_target == Some(Vector { x: cell.0 as i32, y: cell.1 as i32 })
            &&& s1.command_destination_set == s.command_destination_set
            &&& e == Some(GameEffectView::Log(torpedo_log_text(cell.0 as i32, cell.1 as i32)))
        }),
        game_mouse_transition(w, s, true, position, None) == (w, s, None::<GameEffectView>),
{
}

/// Releasing the left button over a canvas cell while the possible destinations are shown
/// and none is set makes that cell the destination, stops showing them, and leaves the torpedo
/// target alone; releasing it off the canvas changes nothing.
pub proof fn release_over_cell_sets_the_destination(
    w: World,
    s: GameState,
    position: Vector,
    cell: (u16, u16),
)
    requires
        w.display_possible_destinations,
        !s.command_destination_set,
    ensures
        ({
            let (w1, s1, e) = game_mouse_transition(w, s, true, position, Some(cell));
            &&& s1.command_destination_set
            &&& s1.command_destination_x == cell.0
            &&& s1.command_destination_y == cell.1
            &&& !w1.display_possible_destinations
            &&& w1.torpedo_target == w.torpedo_target
            &&& s1.torpedo_target_set == s.torpedo_target_set
            &&& e == Some(GameEffectView::Log(canvas_click_text(cell.0, cell.1)))
        }),
        game_mouse_transition(w, s, true, position, None) == (w, s, None::<GameEffectView>),
{
}

} // verus!
