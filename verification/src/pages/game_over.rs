use vstd::prelude::*;
use vstd::string::StringExecFns;

use crate::api::{GameOverPlayer, GameStatus, GetGameByIdResponse};
use crate::app::texts_view;
use crate::game::messages::starts_with;

verus! {

/// The screen shown when the game is over: who was in it, and who survived.
pub struct GameOver;

#[derive(Debug, Default)]
pub struct GameOverState {
    pub game_id: String,
    pub player_names: Vec<String>,
    pub player_hitpoints: Vec<i32>,
    pub player_status: Vec<String>,
}

/// What the game-over screen asks of the application.
#[derive(Debug)]
pub enum GameOverEffect {
    /// Log the text.
    Log(String),
    /// Ask the server for the finished game.
    GetGame,
}

pub enum GameOverEffectView {
    Log(Seq<char>),
    GetGame,
}

impl View for GameOverEffect {
    type V = GameOverEffectView;

    open spec fn view(&self) -> GameOverEffectView {
        match self {
            GameOverEffect::Log(t) => GameOverEffectView::Log(t@),
            GameOverEffect::GetGame => GameOverEffectView::GetGame,
        }
    }
}

/// The beginning of the log line about a finished game, up to its players.
pub open spec fn game_info_prefix(id: Seq<char>) -> Seq<char> {
    "id: "@ + id + ", players: "@
}

/// `format!` of std, writing the game's id, then its players with their pretty `Debug` and
/// its status with `Debug`. Only the text up to the players is stated: std does not fix how
/// `Debug` lays a value out.
#[verifier::external_body]
fn game_info_log(id: &str, players: &Vec<GameOverPlayer>, status: GameStatus) -> (text: String)
    ensures
        starts_with(text@, game_info_prefix(id@)),
{
    format!("id: {id}, players: {players:#?}, status: {status:?}")
}

/// A player with hitpoints left is alive; one without is dead.
pub open spec fn status_of(hitpoints: i32) -> Seq<char> {
    if hitpoints > 0 {
        "alive"@
    } else {
        "dead"@
    }
}

impl GameOver {
    pub fn name() -> (name: &'static str)
        ensures
            name@ == "game_over_page"@,
    {
        "game_over_page"
    }

    /// On mounting: logs that the screen is up, then asks for the finished game.
    pub fn on_mount(&mut self) -> (effects: Vec<GameOverEffect>)
        ensures
            effects@.len() == 2,
            effects@[0]@ == GameOverEffectView::Log("game over page loaded"@),
            effects@[1] is GetGame,
    {
        let mut effects: Vec<GameOverEffect> = Vec::new();
        effects.push(GameOverEffect::Log(String::from_str("game over page loaded")));
        effects.push(GameOverEffect::GetGame);
        effects
    }

    /// Shows the finished game: its id and, for each player in order, the name,
    /// the hitpoints and whether it is alive. Logs that the game came, then the game.
    pub fn on_message(&mut self, response: GetGameByIdResponse, state: &mut GameOverState) -> (effects:
        Vec<GameOverEffect>)
        ensures
            effects@.len() == 2,
            effects@[0]@ == GameOverEffectView::Log("Got game info"@),
            effects@[1] matches GameOverEffect::Log(t) && starts_with(
                t@,
                game_info_prefix(response.id@),
            ),
            final(state).game_id == response.id,
            texts_view(final(state).player_names@) == response.players@.map_values(
                |p: GameOverPlayer| p.name@,
            ),
            final(state).player_hitpoints@ == response.players@.map_values(
                |p: GameOverPlayer| p.hitpoints,
            ),
            texts_view(final(state).player_status@) == response.players@.map_values(
                |p: GameOverPlayer| status_of(p.hitpoints),
            ),
            final(state).player_status@.len() == response.players@.len(),
            forall|i: int|
                0 <= i < response.players@.len() ==> (#[trigger] final(state).player_status@[i])@
                    == if response.players@[i].hitpoints > 0 {
                    "alive"@
                } else {
                    "dead"@
                },
    {
        let mut effects: Vec<GameOverEffect> = Vec::new();
        effects.push(GameOverEffect::Log(String::from_str("Got game info")));
        effects.push(
            GameOverEffect::Log(game_info_log(response.id.as_str(), &response.players, response.status)),
        );
        let GetGameByIdResponse { id, players, status: _ } = response;
        let mut names: Vec<String> = Vec::new();
        let mut hitpoints: Vec<i32> = Vec::new();
        let mut status: Vec<String> = Vec::new();
        let n = players.len();
        for i in 0..n
            invariant
                n == players@.len(),
                names@.len() == i && hitpoints@.len() == i && status@.len() == i,
                forall|j: int| 0 <= j < i ==> #[trigger] names@[j]@ == players@[j].name@,
                forall|j: int| 0 <= j < i ==> #[trigger] hitpoints@[j] == players@[j].hitpoints,
                forall|j: int|
                    0 <= j < i ==> #[trigger] status@[j]@ == status_of(players@[j].hitpoints),
        {
            let player_status = if players[i].hitpoints > 0 {
                String::from_str("alive")
            } else {
                String::from_str("dead")
            };
            names.push(players[i].name.clone());
            hitpoints.push(players[i].hitpoints);
            status.push(player_status);
        }
        state.game_id = id;
        state.player_names = names;
        state.player_hitpoints = hitpoints;
        state.player_status = status;
        assert(texts_view(state.player_names@) =~= players@.map_values(|p: GameOverPlayer| p.name@));
        assert(state.player_hitpoints@ =~= players@.map_values(|p: GameOverPlayer| p.hitpoints));
        assert(texts_view(state.player_status@) =~= players@.map_values(
            |p: GameOverPlayer| status_of(p.hitpoints),
        ));
        effects
    }
}

/// A player is alive exactly when it has at least one hitpoint left, and dead otherwise.
pub proof fn alive_exactly_with_hitpoints_left(hitpoints: i32)
    ensures
        hitpoints >= 1 ==> status_of(hitpoints) == "alive"@,
        hitpoints <= 0 ==> status_of(hitpoints) == "dead"@,
{
}

} // verus!
