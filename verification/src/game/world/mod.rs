pub mod vector;

use vstd::prelude::*;
use vstd::string::StrSliceExecFns;
use vstd::string::StringExecFns;

use crate::api::GameStreamPlayer;
use crate::game::messages::decimal;
use crate::game::world::vector::Vector;

use anathema::state::Color;

verus! {

/// A terminal colour, one variant per colour of the TUI toolkit.
#[derive(Debug, Clone, Copy, PartialEq, Eq, Structural)]
pub enum TerminalColor {
    Reset,
    Black,
    Red,
    Green,
    Yellow,
    Blue,
    Magenta,
    Cyan,
    Grey,
    DarkGrey,
    LightRed,
    LightGreen,
    LightYellow,
    LightBlue,
    LightMagenta,
    LightCyan,
    White,
    /// 24-bit colour.
    Rgb(u8, u8, u8),
    /// 8-bit colour.
    AnsiVal(u8),
}

impl Default for TerminalColor {
    fn default() -> (c: Self)
        ensures
            c == TerminalColor::Reset,
    {
        TerminalColor::Reset
    }
}

/// The colour that the toolkit reads in `s`: a colour name, an ANSI index or a hex code,
/// after lowering the text's case; `None` where it reads none.
pub uninterp spec fn parsed_color(s: Seq<char>) -> Option<TerminalColor>;

/// The text starts with `#`.
pub open spec fn starts_with_hash(s: Seq<char>) -> bool {
    s.len() > 0 && s[0] == '#'
}

/// The toolkit can read `s` without panicking: text that starts with `#` must be ASCII,
/// for on other such text the toolkit slices inside a character.
pub open spec fn color_text_safe(s: Seq<char>) -> bool {
    starts_with_hash(s) ==> vstd::utf8::is_ascii_chars(s)
}

/// A colour text that the toolkit reads, and reads without panicking.
pub open spec fn readable_color(s: Seq<char>) -> bool {
    color_text_safe(s) && parsed_color(s) is Some
}

/// `Color::from_str` of the toolkit, its colour given as a [`TerminalColor`]. Which colour
/// comes out depends on the text alone, and is named `parsed_color`.
#[verifier::external_body]
fn parse_color(s: &str) -> (c: Option<TerminalColor>)
    requires
        color_text_safe(s@),
    ensures
        c == parsed_color(s@),
{
    let color: Color = s.parse().ok()?;
    Some(match color {
        Color::Reset => TerminalColor::Reset, Color::Black => TerminalColor::Black,
        Color::Red => TerminalColor::Red, Color::Green => TerminalColor::Green,
        Color::Yellow => TerminalColor::Yellow, Color::Blue => TerminalColor::Blue,
        Color::Magenta => TerminalColor::Magenta, Color::Cyan => TerminalColor::Cyan,
        Color::Grey => TerminalColor::Grey, Color::DarkGrey => TerminalColor::DarkGrey,
        Color::LightRed => TerminalColor::LightRed, Color::LightGreen => TerminalColor::LightGreen,
        Color::LightYellow => TerminalColor::LightYellow, Color::LightBlue => TerminalColor::LightBlue,
        Color::LightMagenta => TerminalColor::LightMagenta, Color::LightCyan => TerminalColor::LightCyan,
        Color::White => TerminalColor::White, Color::AnsiVal(v) => TerminalColor::AnsiVal(v),
        Color::Rgb(r, g, b) => TerminalColor::Rgb(r, g, b),
    })
}

/// An upper-case hexadecimal digit.
pub open spec fn hex_digit(d: int) -> char {
    if d < 10 {
        ('0' as int + d) as char
    } else {
        ('A' as int + d - 10) as char
    }
}

/// A byte as two upper-case hexadecimal digits.
pub open spec fn hex_byte(b: u8) -> Seq<char> {
    seq![hex_digit(b as int / 16), hex_digit(b as int % 16)]
}

/// How the toolkit writes a colour for display: a named colour by its name, a 24-bit one
/// as `#` and six upper-case hexadecimal digits, an 8-bit one by its number.
pub open spec fn color_display_text(c: TerminalColor) -> Seq<char> {
    match c {
        TerminalColor::Reset => "Reset"@,
        TerminalColor::Black => "Black"@,
        TerminalColor::Red => "Red"@,
        TerminalColor::Green => "Green"@,
        TerminalColor::Yellow => "Yellow"@,
        TerminalColor::Blue => "Blue"@,
        TerminalColor::Magenta => "Magenta"@,
        TerminalColor::Cyan => "Cyan"@,
        TerminalColor::Grey => "Grey"@,
        TerminalColor::DarkGrey => "DarkGrey"@,
        TerminalColor::LightRed => "LightRed"@,
        TerminalColor::LightGreen => "LightGreen"@,
        TerminalColor::LightYellow => "LightYellow"@,
        TerminalColor::LightBlue => "LightBlue"@,
        TerminalColor::LightMagenta => "LightMagenta"@,
        TerminalColor::LightCyan => "LightCyan"@,
        TerminalColor::White => "White"@,
        TerminalColor::Rgb(r, g, b) => "#"@ + hex_byte(r) + hex_byte(g) + hex_byte(b),
        TerminalColor::AnsiVal(v) => decimal(v as int),
    }
}

/// `Display` of the toolkit's `Color`, given the colour as a [`TerminalColor`]; the
/// toolkit's source writes each colour as [`color_display_text`] says.
#[verifier::external_body]
fn color_display(c: TerminalColor) -> (text: String)
    ensures
        text@ == color_display_text(c),
{
    let color = match c {
        TerminalColor::Reset => Color::Reset, TerminalColor::Black => Color::Black,
        TerminalColor::Red => Color::Red, TerminalColor::Green => Color::Green,
        TerminalColor::Yellow => Color::Yellow, TerminalColor::Blue => Color::Blue,
        TerminalColor::Magenta => Color::Magenta, TerminalColor::Cyan => Color::Cyan,
        TerminalColor::Grey => Color::Grey, TerminalColor::DarkGrey => Color::DarkGrey,
        TerminalColor::LightRed => Color::LightRed, TerminalColor::LightGreen => Color::LightGreen,
        TerminalColor::LightYellow => Color::LightYellow, TerminalColor::LightBlue => Color::LightBlue,
        TerminalColor::LightMagenta => Color::LightMagenta, TerminalColor::LightCyan => Color::LightCyan,
        TerminalColor::White => Color::White, TerminalColor::AnsiVal(v) => Color::AnsiVal(v),
        TerminalColor::Rgb(r, g, b) => Color::Rgb(r, g, b),
    };
    color.to_string()
}

/// Whether the toolkit reads `s` as a colour without panicking.
pub fn color_readable(s: &str) -> (readable: bool)
    ensures
        readable == readable_color(s@),
{
    let n = s.unicode_len();
    if n > 0 && s.get_char(0) == '#' && !s.is_ascii() {
        return false;
    }
    parse_color(s).is_some()
}

/// Every player has one entry in each per-player list, and that entry sits at the same index in all of them.
pub open spec fn same_player_count(w: &World) -> bool {
    let n = w.player_characters@.len();
    &&& w.player_positions@.len() == n
    &&& w.player_colors@.len() == n
    &&& w.player_ids@.len() == n
    &&& w.player_names@.len() == n
    &&& w.player_max_speeds@.len() == n
    &&& w.players_ready@.len() == n
    &&& w.player_ship_classnames@.len() == n
}

/// `i` is the first index at which `ids` holds `id`.
pub open spec fn is_first_index(ids: Seq<String>, id: Seq<char>, i: int) -> bool {
    &&& 0 <= i < ids.len()
    &&& ids[i]@ == id
    &&& forall|j: int| 0 <= j < i ==> ids[j]@ != id
}

/// The first index at which `ids` holds `id`, if any.
pub open spec fn first_index_of(ids: Seq<String>, id: Seq<char>) -> Option<int> {
    if exists|i: int| is_first_index(ids, id, i) {
        Some(choose|i: int| is_first_index(ids, id, i))
    } else {
        None
    }
}

/// There is at most one first index.
pub proof fn first_index_is_unique(ids: Seq<String>, id: Seq<char>, i: int)
    requires
        is_first_index(ids, id, i),
    ensures
        first_index_of(ids, id) == Some(i),
{
    let k = choose|k: int| is_first_index(ids, id, k);
    assert(is_first_index(ids, id, k));
    if k < i {
        assert(ids[k]@ != id);
    } else if i < k {
        assert(ids[i]@ != id);
    }
}

/// A per-player list after the players of `updates` were applied in order: each update
/// sets, to `f` of it, the entry of the first player with its id, if there is one.
pub open spec fn values_after_updates<T>(
    values: Seq<T>,
    ids: Seq<String>,
    updates: Seq<GameStreamPlayer>,
    f: spec_fn(GameStreamPlayer) -> T,
) -> Seq<T>
    decreases updates.len(),
{
    if updates.len() == 0 {
        values
    } else {
        let before = values_after_updates(values, ids, updates.drop_last(), f);
        let last = updates.last();
        match first_index_of(ids, last.id@) {
            Some(i) => before.update(i, f(last)),
            None => before,
        }
    }
}

/// The ready flags after the updates: each takes the flag of its player's update.
pub open spec fn ready_after_updates(
    ready: Seq<bool>,
    ids: Seq<String>,
    updates: Seq<GameStreamPlayer>,
) -> Seq<bool> {
    values_after_updates(ready, ids, updates, |p: GameStreamPlayer| p.ready)
}

/// The positions after the updates: each takes the position of its player's update.
pub open spec fn positions_after_updates(
    positions: Seq<Vector>,
    ids: Seq<String>,
    updates: Seq<GameStreamPlayer>,
) -> Seq<Vector> {
    values_after_updates(
        positions,
        ids,
        updates,
        |p: GameStreamPlayer| Vector { x: p.position_x, y: p.position_y },
    )
}

/// One cell that drawing the world puts on the canvas: the ship's character,
/// its player's colour and the canvas position.
pub open spec fn spec_cell(w: &World, i: int) -> (char, TerminalColor, (i32, i32)) {
    (
        w.player_characters@[i],
        w.player_colors@[i],
        ((w.player_positions@[i].x * w.cell_width) as i32, w.player_positions@[i].y),
    )
}

/// Every ship's column on the canvas fits in an `i32`.
pub open spec fn columns_fit(w: &World) -> bool {
    forall|i: int|
        0 <= i < w.player_positions@.len() ==> i32::MIN <= #[trigger] w.player_positions@[i].x
            * w.cell_width <= i32::MAX
}

/// The game world as the client sees it: its size and the players, one entry per player
/// at the same index in each of the per-player lists.
#[derive(Debug)]
pub struct World {
    pub width: i32,
    pub height: i32,
    pub cell_width: i32,
    pub player_characters: Vec<char>,
    pub player_positions: Vec<Vector>,
    /// The colour each ship is drawn in.
    pub player_colors: Vec<TerminalColor>,
    pub player_ids: Vec<String>,
    pub player_names: Vec<String>,
    pub player_max_speeds: Vec<i32>,
    pub players_ready: Vec<bool>,
    pub player_ship_classnames: Vec<String>,
    pub host_id: String,
    pub turn: i32,
    /// The turn that the server reported last; ahead of `turn` while a finished turn is shown.
    pub next_turn_number: i32,
    /// The destinations that the player may choose are shown.
    pub display_possible_destinations: bool,
    /// The player is choosing where to fire a torpedo.
    pub setting_torpedo_target: bool,
    pub torpedo_target: Option<Vector>,
    pub mouse_position: Vector,
    /// The players as the server reported them at the end of the turn being shown; the
    /// ships take these positions once the turn has been shown.
    pub completed_turn: Vec<GameStreamPlayer>,
}

impl Default for World {
    fn default() -> (w: Self)
        ensures
            w.width == 0 && w.height == 0 && w.cell_width == 0,
            w.player_characters@.len() == 0,
            same_player_count(&w),
            w.host_id@.len() == 0,
            w.turn == 0,
            w.next_turn_number == 0,
            !w.display_possible_destinations,
            !w.setting_torpedo_target,
            w.torpedo_target is None,
            w.mouse_position == (Vector { x: 0, y: 0 }),
            w.completed_turn@.len() == 0,
    {
        World {
            width: 0,
            height: 0,
            cell_width: 0,
            player_characters: Vec::new(),
            player_positions: Vec::new(),
            player_colors: Vec::new(),
            player_ids: Vec::new(),
            player_names: Vec::new(),
            player_max_speeds: Vec::new(),
            players_ready: Vec::new(),
            player_ship_classnames: Vec::new(),
            host_id: String::new(),
            turn: 0,
            next_turn_number: 0,
            display_possible_destinations: false,
            setting_torpedo_target: false,
            torpedo_target: None,
            mouse_position: Vector::new(0, 0),
            completed_turn: Vec::new(),
        }
    }
}

impl World {
    /// All but the size and the cell width are as before.
    pub open spec fn players_unchanged(self, other: Self) -> bool {
        &&& self.player_characters@ == other.player_characters@
        &&& self.player_positions@ == other.player_positions@
        &&& self.player_colors@ == other.player_colors@
        &&& self.player_ids@ == other.player_ids@
        &&& self.player_names@ == other.player_names@
        &&& self.player_max_speeds@ == other.player_max_speeds@
        &&& self.players_ready@ == other.players_ready@
        &&& self.player_ship_classnames@ == other.player_ship_classnames@
    }

    /// All but the ready flags and the positions of the players are as before.
    pub open spec fn players_unchanged_but_ready_and_positions(self, other: Self) -> bool {
        &&& self.player_characters@ == other.player_characters@
        &&& self.player_colors@ == other.player_colors@
        &&& self.player_ids@ == other.player_ids@
        &&& self.player_names@ == other.player_names@
        &&& self.player_max_speeds@ == other.player_max_speeds@
        &&& self.player_ship_classnames@ == other.player_ship_classnames@
        &&& self.players_ready@.len() == other.players_ready@.len()
        &&& self.player_positions@.len() == other.player_positions@.len()
    }

    /// The fields that belong to no player are as before.
    pub open spec fn rest_unchanged(self, other: Self) -> bool {
        &&& self.width == other.width
        &&& self.height == other.height
        &&& self.cell_width == other.cell_width
        &&& self.host_id == other.host_id
        &&& self.turn == other.turn
        &&& self.next_turn_number == other.next_turn_number
        &&& self.display_possible_destinations == other.display_possible_destinations
        &&& self.setting_torpedo_target == other.setting_torpedo_target
        &&& self.torpedo_target == other.torpedo_target
        &&& self.mouse_position == other.mouse_position
        &&& self.completed_turn@ == other.completed_turn@
    }

    pub fn set_size(&mut self, width: i32, height: i32)
        ensures
            final(self).cell_width == 2,
            final(self).width == width,
            final(self).height == height,
            final(self).players_unchanged(*old(self)),
            final(self).host_id == old(self).host_id,
            final(self).turn == old(self).turn,
            final(self).next_turn_number == old(self).next_turn_number,
            final(self).display_possible_destinations == old(self).display_possible_destinations,
            final(self).setting_torpedo_target == old(self).setting_torpedo_target,
            final(self).torpedo_target == old(self).torpedo_target,
            final(self).mouse_position == old(self).mouse_position,
            final(self).completed_turn@ == old(self).completed_turn@,
    {
        self.cell_width = 2;
        self.width = width;
        self.height = height;
    }

    /// The world is `old` with `player` added at the end of every per-player list,
    /// its ship in `color`.
    pub open spec fn player_added(self, old: Self, player: GameStreamPlayer, color: TerminalColor) -> bool {
        &&& self.player_characters@ == old.player_characters@.push(player.ship)
        &&& self.player_positions@ == old.player_positions@.push(
            Vector { x: player.position_x, y: player.position_y },
        )
        &&& self.player_colors@ == old.player_colors@.push(color)
        &&& self.player_ids@ == old.player_ids@.push(player.id)
        &&& self.player_names@ == old.player_names@.push(player.name)
        &&& self.player_max_speeds@ == old.player_max_speeds@.push(player.ship_max_speed)
        &&& self.players_ready@ == old.players_ready@.push(player.ready)
        &&& self.player_ship_classnames@ == old.player_ship_classnames@.push(
            player.ship_classname,
        )
    }

    fn push_player(&mut self, player: GameStreamPlayer, color: TerminalColor)
        requires
            same_player_count(old(self)),
        ensures
            same_player_count(final(self)),
            final(self).player_added(*old(self), player, color),
            final(self).rest_unchanged(*old(self)),
    {
        let position = Vector::new(player.position_x, player.position_y);

        self.player_characters.push(player.ship);
        self.player_positions.push(position);
        self.player_colors.push(color);
        self.player_ids.push(player.id);
        self.player_names.push(player.name);
        self.player_max_speeds.push(player.ship_max_speed);
        self.players_ready.push(player.ready);
        self.player_ship_classnames.push(player.ship_classname);
    }

    /// Adds a player at the end of every per-player list, its ship in the colour that
    /// the toolkit reads in `player.color`.
    pub fn add_player(&mut self, player: GameStreamPlayer)
        requires
            same_player_count(old(self)),
            readable_color(player.color@),
        ensures
            same_player_count(final(self)),
            final(self).player_added(*old(self), player, parsed_color(player.color@).unwrap()),
            final(self).rest_unchanged(*old(self)),
    {
        let color = parse_color(player.color.as_str());
        match color {
            Some(color) => self.push_player(player, color),
            None => {},
        }
    }

    /// Adds the player as [`World::add_player`] does when the toolkit reads its colour;
    /// leaves the world as it was and returns `false` when it does not.
    pub fn try_add_player(&mut self, player: GameStreamPlayer) -> (added: bool)
        requires
            same_player_count(old(self)),
        ensures
            added == readable_color(player.color@),
            same_player_count(final(self)),
            added ==> final(self).player_added(
                *old(self),
                player,
                parsed_color(player.color@).unwrap(),
            ),
            !added ==> final(self).players_unchanged(*old(self)),
            final(self).rest_unchanged(*old(self)),
    {
        if color_readable(player.color.as_str()) {
            self.add_player(player);
            true
        } else {
            false
        }
    }

    /// Each player's colour as the toolkit writes it for display, in order.
    pub fn player_color_texts(&self) -> (texts: Vec<String>)
        ensures
            texts@.len() == self.player_colors@.len(),
            forall|i: int|
                0 <= i < texts@.len() ==> #[trigger] texts@[i]@ == color_display_text(
                    self.player_colors@[i],
                ),
    {
        let mut texts: Vec<String> = Vec::new();
        let n = self.player_colors.len();
        for i in 0..n
            invariant
                n == self.player_colors@.len(),
                texts@.len() == i,
                forall|j: int|
                    0 <= j < i ==> #[trigger] texts@[j]@ == color_display_text(
                        self.player_colors@[j],
                    ),
        {
            texts.push(color_display(self.player_colors[i]));
        }
        texts
    }

    pub fn no_players(&self) -> (none: bool)
        ensures
            none == (self.player_characters@.len() == 0),
    {
        self.player_characters.is_empty()
    }

    /// The cells that drawing the world puts on the canvas, one per player in order:
    /// the ship's character in its player's colour, at column `x * cell_width` and row `y`.
    pub fn draw(&self) -> (cells: Vec<(char, TerminalColor, (i32, i32))>)
        requires
            same_player_count(self),
            columns_fit(self),
        ensures
            cells@.len() == self.player_characters@.len(),
            forall|i: int| 0 <= i < cells@.len() ==> #[trigger] cells@[i] == spec_cell(self, i),
    {
        let mut cells: Vec<(char, TerminalColor, (i32, i32))> = Vec::new();
        let n = self.player_characters.len();
        for index in 0..n
            invariant
                n == self.player_characters@.len(),
                same_player_count(self),
                columns_fit(self),
                cells@.len() == index,
                forall|i: int| 0 <= i < index ==> #[trigger] cells@[i] == spec_cell(self, i),
        {
            let player_character = self.player_characters[index];
            let player_position = self.player_positions[index];
            let color = self.player_colors[index];
            assert(i32::MIN <= self.player_positions@[index as int].x * self.cell_width
                <= i32::MAX);
            cells.push(
                (player_character, color, (player_position.x * self.cell_width, player_position.y)),
            );
        }
        cells
    }

    /// Applies each player's ready flag, in order, to the first player of the world with the same id.
    pub fn update_players(&mut self, players: Vec<GameStreamPlayer>)
        requires
            same_player_count(old(self)),
        ensures
            same_player_count(final(self)),
            final(self).players_ready@ == ready_after_updates(
                old(self).players_ready@,
                old(self).player_ids@,
                players@,
            ),
            final(self).player_characters@ == old(self).player_characters@,
            final(self).player_positions@ == old(self).player_positions@,
            final(self).player_colors@ == old(self).player_colors@,
            final(self).player_ids@ == old(self).player_ids@,
            final(self).player_names@ == old(self).player_names@,
            final(self).player_max_speeds@ == old(self).player_max_speeds@,
            final(self).player_ship_classnames@ == old(self).player_ship_classnames@,
            final(self).rest_unchanged(*old(self)),
    {
        self.update_ready(&players);
    }

    pub(crate) fn update_ready(&mut self, players: &Vec<GameStreamPlayer>)
        requires
            same_player_count(old(self)),
        ensures
            same_player_count(final(self)),
            final(self).players_ready@ == ready_after_updates(
                old(self).players_ready@,
                old(self).player_ids@,
                players@,
            ),
            final(self).player_characters@ == old(self).player_characters@,
            final(self).player_positions@ == old(self).player_positions@,
            final(self).player_colors@ == old(self).player_colors@,
            final(self).player_ids@ == old(self).player_ids@,
            final(self).player_names@ == old(self).player_names@,
            final(self).player_max_speeds@ == old(self).player_max_speeds@,
            final(self).player_ship_classnames@ == old(self).player_ship_classnames@,
            final(self).rest_unchanged(*old(self)),
    {
        let n = players.len();
        for k in 0..n
            invariant
                n == players@.len(),
                same_player_count(self),
                self.players_ready@ == ready_after_updates(
                    old(self).players_ready@,
                    old(self).player_ids@,
                    players@.take(k as int),
                ),
                self.player_characters@ == old(self).player_characters@,
                self.player_positions@ == old(self).player_positions@,
                self.player_colors@ == old(self).player_colors@,
                self.player_ids@ == old(self).player_ids@,
                self.player_names@ == old(self).player_names@,
                self.player_max_speeds@ == old(self).player_max_speeds@,
                self.player_ship_classnames@ == old(self).player_ship_classnames@,
                self.rest_unchanged(*old(self)),
        {
            let player = &players[k];
            assert(players@.take(k + 1).drop_last() =~= players@.take(k as int));
            match self.find_player_index(player.id.as_str()) {
                Some(player_index) => {
                    proof {
                        first_index_is_unique(self.player_ids@, player.id@, player_index as int);
                    }
                    self.players_ready.set(player_index, player.ready);
                },
                None => {},
            }
        }
        assert(players@.take(n as int) =~= players@);
    }

    /// Moves each player, in order, that the updates name: the first player of the world
    /// with an update's id takes the update's position.
    pub fn update_positions(&mut self, players: &Vec<GameStreamPlayer>)
        requires
            same_player_count(old(self)),
        ensures
            same_player_count(final(self)),
            final(self).player_positions@ == positions_after_updates(
                old(self).player_positions@,
                old(self).player_ids@,
                players@,
            ),
            final(self).player_characters@ == old(self).player_characters@,
            final(self).players_ready@ == old(self).players_ready@,
            final(self).player_colors@ == old(self).player_colors@,
            final(self).player_ids@ == old(self).player_ids@,
            final(self).player_names@ == old(self).player_names@,
            final(self).player_max_speeds@ == old(self).player_max_speeds@,
            final(self).player_ship_classnames@ == old(self).player_ship_classnames@,
            final(self).rest_unchanged(*old(self)),
    {
        let n = players.len();
        for k in 0..n
            invariant
                n == players@.len(),
                same_player_count(self),
                self.player_positions@ == positions_after_updates(
                    old(self).player_positions@,
                    old(self).player_ids@,
                    players@.take(k as int),
                ),
                self.player_characters@ == old(self).player_characters@,
                self.players_ready@ == old(self).players_ready@,
                self.player_colors@ == old(self).player_colors@,
                self.player_ids@ == old(self).player_ids@,
                self.player_names@ == old(self).player_names@,
                self.player_max_speeds@ == old(self).player_max_speeds@,
                self.player_ship_classnames@ == old(self).player_ship_classnames@,
                self.rest_unchanged(*old(self)),
        {
            let player = &players[k];
            assert(players@.take(k + 1).drop_last() =~= players@.take(k as int));
            match self.find_player_index(player.id.as_str()) {
                Some(player_index) => {
                    proof {
                        first_index_is_unique(self.player_ids@, player.id@, player_index as int);
                    }
                    self.player_positions.set(
                        player_index,
                        Vector::new(player.position_x, player.position_y),
                    );
                },
                None => {},
            }
        }
        assert(players@.take(n as int) =~= players@);
    }

    /// The first player with the given id.
    fn find_player_index(&self, player_id: &str) -> (index: Option<usize>)
        ensures
            match index {
                Some(i) => is_first_index(self.player_ids@, player_id@, i as int),
                None => forall|j: int|
                    0 <= j < self.player_ids@.len() ==> #[trigger] self.player_ids@[j]@
                        != player_id@,
            },
            index is None <==> first_index_of(self.player_ids@, player_id@) is None,
    {
        let wanted = String::from_str(player_id);
        let n = self.player_ids.len();
        for index in 0..n
            invariant
                n == self.player_ids@.len(),
                wanted@ == player_id@,
                forall|j: int| 0 <= j < index ==> #[trigger] self.player_ids@[j]@ != player_id@,
        {
            if self.player_ids[index] == wanted {
                proof {
                    first_index_is_unique(self.player_ids@, player_id@, index as int);
                }
                return Some(index);
            }
        }
        proof {
            if exists|i: int| is_first_index(self.player_ids@, player_id@, i) {
                let i = choose|i: int| is_first_index(self.player_ids@, player_id@, i);
                assert(self.player_ids@[i]@ == player_id@);
            }
        }
        None
    }
}

/// Applying updates keeps one entry per player.
pub proof fn updates_keep_length<T>(
    values: Seq<T>,
    ids: Seq<String>,
    updates: Seq<GameStreamPlayer>,
    f: spec_fn(GameStreamPlayer) -> T,
)
    requires
        values.len() == ids.len(),
    ensures
        values_after_updates(values, ids, updates, f).len() == values.len(),
    decreases updates.len(),
{
    if updates.len() > 0 {
        updates_keep_length(values, ids, updates.drop_last(), f);
        let last = updates.last();
        if exists|j: int| is_first_index(ids, last.id@, j) {
            let j0 = choose|j: int| is_first_index(ids, last.id@, j);
            assert(is_first_index(ids, last.id@, j0));
        }
    }
}

/// Applying updates changes the entry of a player only if it is the first player with its
/// id and some update names that id.
pub proof fn updates_keep_unnamed_entries<T>(
    values: Seq<T>,
    ids: Seq<String>,
    updates: Seq<GameStreamPlayer>,
    f: spec_fn(GameStreamPlayer) -> T,
    i: int,
)
    requires
        values.len() == ids.len(),
        0 <= i < ids.len(),
        !is_first_index(ids, ids[i]@, i) || forall|k: int|
            0 <= k < updates.len() ==> #[trigger] updates[k].id@ != ids[i]@,
    ensures
        values_after_updates(values, ids, updates, f).len() == values.len(),
        values_after_updates(values, ids, updates, f)[i] == values[i],
    decreases updates.len(),
{
    if updates.len() > 0 {
        let rest = updates.drop_last();
        let last = updates.last();
        assert forall|k: int| 0 <= k < rest.len() implies #[trigger] rest[k].id@ == updates[k].id@ by {}
        updates_keep_unnamed_entries(values, ids, rest, f, i);
        match first_index_of(ids, last.id@) {
            Some(j) => {
                let j0 = choose|j: int| is_first_index(ids, last.id@, j);
                assert(is_first_index(ids, last.id@, j0));
                if j0 == i {
                    assert(ids[i]@ == last.id@);
                    assert(updates[updates.len() - 1].id@ == ids[i]@);
                }
            },
            None => {},
        }
    }
}

/// The first player with an id takes the entry that `f` gives of the last update naming the id.
pub proof fn updates_take_last_named_entry<T>(
    values: Seq<T>,
    ids: Seq<String>,
    updates: Seq<GameStreamPlayer>,
    f: spec_fn(GameStreamPlayer) -> T,
    i: int,
    k: int,
)
    requires
        values.len() == ids.len(),
        is_first_index(ids, ids[i]@, i),
        0 <= k < updates.len(),
        updates[k].id@ == ids[i]@,
        forall|k2: int| k < k2 < updates.len() ==> #[trigger] updates[k2].id@ != ids[i]@,
    ensures
        values_after_updates(values, ids, updates, f)[i] == f(updates[k]),
    decreases updates.len(),
{
    let rest = updates.drop_last();
    let last = updates.last();
    updates_keep_length(values, ids, rest, f);
    if k == updates.len() - 1 {
        first_index_is_unique(ids, last.id@, i);
    } else {
        assert forall|k2: int| k < k2 < rest.len() implies #[trigger] rest[k2].id@ != ids[i]@ by {
            assert(rest[k2] == updates[k2]);
        }
        updates_take_last_named_entry(values, ids, rest, f, i, k);
        assert(last.id@ != ids[i]@);
        match first_index_of(ids, last.id@) {
            Some(j) => {
                let j0 = choose|j: int| is_first_index(ids, last.id@, j);
                assert(is_first_index(ids, last.id@, j0));
            },
            None => {},
        }
    }
}

/// A ready update sets the flag of the first player with the id to the last flag sent
/// for it, and leaves every other flag as it was.
pub proof fn ready_updates_law(
    ready: Seq<bool>,
    ids: Seq<String>,
    updates: Seq<GameStreamPlayer>,
    i: int,
    k: int,
)
    requires
        ready.len() == ids.len(),
        0 <= i < ids.len(),
    ensures
        ready_after_updates(ready, ids, updates).len() == ready.len(),
        (!is_first_index(ids, ids[i]@, i) || forall|k1: int|
            0 <= k1 < updates.len() ==> #[trigger] updates[k1].id@ != ids[i]@)
            ==> ready_after_updates(ready, ids, updates)[i] == ready[i],
        (is_first_index(ids, ids[i]@, i) && 0 <= k < updates.len() && updates[k].id@ == ids[i]@
            && forall|k2: int| k < k2 < updates.len() ==> #[trigger] updates[k2].id@ != ids[i]@)
            ==> ready_after_updates(ready, ids, updates)[i] == updates[k].ready,
{
    let f = |p: GameStreamPlayer| p.ready;
    updates_keep_length(ready, ids, updates, f);
    if !is_first_index(ids, ids[i]@, i) || forall|k1: int|
        0 <= k1 < updates.len() ==> #[trigger] updates[k1].id@ != ids[i]@ {
        updates_keep_unnamed_entries(ready, ids, updates, f, i);
    }
    if is_first_index(ids, ids[i]@, i) && 0 <= k < updates.len() && updates[k].id@ == ids[i]@
        && forall|k2: int| k < k2 < updates.len() ==> #[trigger] updates[k2].id@ != ids[i]@ {
        updates_take_last_named_entry(ready, ids, updates, f, i, k);
    }
}

/// A position update moves the first player with the id to the last position sent for
/// it, and leaves every other position as it was.
pub proof fn position_updates_law(
    positions: Seq<Vector>,
    ids: Seq<String>,
    updates: Seq<GameStreamPlayer>,
    i: int,
    k: int,
)
    requires
        positions.len() == ids.len(),
        0 <= i < ids.len(),
    ensures
        positions_after_updates(positions, ids, updates).len() == positions.len(),
        (!is_first_index(ids, ids[i]@, i) || forall|k1: int|
            0 <= k1 < updates.len() ==> #[trigger] updates[k1].id@ != ids[i]@)
            ==> positions_after_updates(positions, ids, updates)[i] == positions[i],
        (is_first_index(ids, ids[i]@, i) && 0 <= k < updates.len() && updates[k].id@ == ids[i]@
            && forall|k2: int| k < k2 < updates.len() ==> #[trigger] updates[k2].id@ != ids[i]@)
            ==> positions_after_updates(positions, ids, updates)[i] == (Vector {
            x: updates[k].position_x,
            y: updates[k].position_y,
        }),
{
    let f = |p: GameStreamPlayer| Vector { x: p.position_x, y: p.position_y };
    updates_keep_length(positions, ids, updates, f);
    if !is_first_index(ids, ids[i]@, i) || forall|k1: int|
        0 <= k1 < updates.len() ==> #[trigger] updates[k1].id@ != ids[i]@ {
        updates_keep_unnamed_entries(positions, ids, updates, f, i);
    }
    if is_first_index(ids, ids[i]@, i) && 0 <= k < updates.len() && updates[k].id@ == ids[i]@
        && forall|k2: int| k < k2 < updates.len() ==> #[trigger] updates[k2].id@ != ids[i]@ {
        updates_take_last_named_entry(positions, ids, updates, f, i, k);
    }
}

} // verus!
