use vstd::prelude::*;

use crate::api::{LobbyStream, PlayerResponse};
use crate::app::{texts_view, AppMessage};
use crate::text::same_text;

verus! {

broadcast use vstd::string::group_string_axioms;

/// The lobby: the players who joined, their ships and whether they are ready.
#[derive(Default)]
pub struct LobbyPage;

#[derive(Debug, Default)]
pub struct LobbyPageState {
    pub player_names: Vec<String>,
    pub player_colors: Vec<String>,
    pub player_ships: Vec<char>,
    pub player_ready: Vec<bool>,
}

/// The lobby shows exactly the given players, in order.
pub open spec fn shows_players(s: LobbyPageState, players: Seq<PlayerResponse>) -> bool {
    &&& texts_view(s.player_names@) == players.map_values(|p: PlayerResponse| p.name@)
    &&& texts_view(s.player_colors@) == players.map_values(|p: PlayerResponse| p.ship_color@)
    &&& s.player_ships@ == players.map_values(|p: PlayerResponse| p.ship_character)
    &&& s.player_ready@ == players.map_values(|p: PlayerResponse| p.ready)
}

impl LobbyPage {
    pub fn ident() -> (name: &'static str)
        ensures
            name@ == "lobby_page"@,
    {
        "lobby_page"
    }

    /// A lobby update replaces the players shown; other messages change nothing.
    pub fn on_message(&mut self, message: AppMessage, state: &mut LobbyPageState)
        ensures
            match message {
                AppMessage::LobbyUpdate(l) => shows_players(*final(state), l.players@),
                _ => *final(state) == *old(state),
            },
    {
        if let AppMessage::LobbyUpdate(lobby_stream) = message {
            let players = &lobby_stream.players;
            let mut names: Vec<String> = Vec::new();
            let mut colors: Vec<String> = Vec::new();
            let mut ships: Vec<char> = Vec::new();
            let mut ready: Vec<bool> = Vec::new();
            let n = players.len();
            for i in 0..n
                invariant
                    n == players@.len(),
                    names@.len() == i && colors@.len() == i,
                    ships@.len() == i && ready@.len() == i,
                    forall|j: int| 0 <= j < i ==> #[trigger] names@[j]@ == players@[j].name@,
                    forall|j: int|
                        0 <= j < i ==> #[trigger] colors@[j]@ == players@[j].ship_color@,
                    forall|j: int|
                        0 <= j < i ==> #[trigger] ships@[j] == players@[j].ship_character,
                    forall|j: int| 0 <= j < i ==> #[trigger] ready@[j] == players@[j].ready,
            {
                names.push(players[i].name.clone());
                colors.push(players[i].ship_color.clone());
                ships.push(players[i].ship_character);
                ready.push(players[i].ready);
            }
            state.player_names = names;
            state.player_colors = colors;
            state.player_ships = ships;
            state.player_ready = ready;
            assert(shows_players(*state, lobby_stream.players@)) by {
                assert(texts_view(state.player_names@) =~= lobby_stream.players@.map_values(
                    |p: PlayerResponse| p.name@,
                ));
                assert(texts_view(state.player_colors@) =~= lobby_stream.players@.map_values(
                    |p: PlayerResponse| p.ship_color@,
                ));
                assert(state.player_ships@ =~= lobby_stream.players@.map_values(
                    |p: PlayerResponse| p.ship_character,
                ));
                assert(state.player_ready@ =~= lobby_stream.players@.map_values(
                    |p: PlayerResponse| p.ready,
                ));
            }
        }
    }

    /// `set_ship_color` asks the application for the colour the event carries, and
    /// `set_ship` for the ship; an event that carries nothing asks for nothing.
    pub fn on_event(&mut self, event_name: &str, data: Option<String>) -> (message: Option<
        AppMessage,
    >)
        requires
            event_name@ == "set_ship_color"@ || event_name@ == "set_ship"@,
        ensures
            data is None ==> message is None,
            data matches Some(d) ==> (event_name@ == "set_ship_color"@ ==> (message matches Some(
                AppMessage::ChangingShipColor(c),
            ) && c == d)),
            data matches Some(d) ==> (event_name@ == "set_ship"@ ==> (message matches Some(
                AppMessage::ChangeShip(c),
            ) && c == d)),
    {
        proof {
            reveal_strlit("set_ship_color");
            assert("set_ship_color"@.len() == 14);
            reveal_strlit("set_ship");
            assert("set_ship"@.len() == 8);
        }
        if same_text(event_name, "set_ship_color") {
            match data {
                Some(ship_color) => Some(AppMessage::ChangingShipColor(ship_color)),
                None => None,
            }
        } else {
            match data {
                Some(ship_name) => Some(AppMessage::ChangeShip(ship_name)),
                None => None,
            }
        }
    }
}

} // verus!
