use vstd::prelude::*;
use vstd::string::StringExecFns;

use crate::game::TurnCommand;

verus! {

/// Where the game server listens.
pub const BASE_API_URL: &'static str = "http://localhost:3000";

/// The address of an endpoint of the game server.
pub open spec fn endpoint(path: Seq<char>) -> Seq<char> {
    BASE_API_URL@ + path
}

/// The HTTP method of a request to the game server.
#[derive(Debug, Clone, Copy, PartialEq, Eq, Structural)]
pub enum HttpMethod {
    Get,
    Post,
    Put,
    Delete,
}

/// The JSON body that goes with a request, before it is serialised.
#[derive(Debug, Clone)]
pub enum RequestBody {
    Empty,
    /// `{"player_name": ..}`
    PlayerName { player_name: String },
    /// `{"player_name": .., "code": ..}`
    JoinGame { player_name: String, code: i32 },
    /// `{"color_id": ..}`
    ColorId { color_id: String },
    /// `{"speed_change": .., "destination": ..}`
    TurnCommand(SubmitTurnCommandBody),
}

/// A request body with its strings taken as character sequences.
pub enum RequestBodyView {
    Empty,
    PlayerName { player_name: Seq<char> },
    JoinGame { player_name: Seq<char>, code: i32 },
    ColorId { color_id: Seq<char> },
    TurnCommand(SubmitTurnCommandBody),
}

impl View for RequestBody {
    type V = RequestBodyView;

    open spec fn view(&self) -> RequestBodyView {
        match self {
            RequestBody::Empty => RequestBodyView::Empty,
            RequestBody::PlayerName { player_name } => RequestBodyView::PlayerName {
                player_name: player_name@,
            },
            RequestBody::JoinGame { player_name, code } => RequestBodyView::JoinGame {
                player_name: player_name@,
                code: *code,
            },
            RequestBody::ColorId { color_id } => RequestBodyView::ColorId { color_id: color_id@ },
            RequestBody::TurnCommand(body) => RequestBodyView::TurnCommand(*body),
        }
    }
}

/// A request to the game server: what to send, where, and with which player token.
#[derive(Debug, Clone)]
pub struct ApiRequest {
    pub method: HttpMethod,
    pub url: String,
    /// Sent in the `token` header when present.
    pub token: Option<String>,
    pub body: RequestBody,
}

pub struct ApiRequestView {
    pub method: HttpMethod,
    pub url: Seq<char>,
    pub token: Option<Seq<char>>,
    pub body: RequestBodyView,
}

pub open spec fn token_view(token: Option<String>) -> Option<Seq<char>> {
    match token {
        Some(t) => Some(t@),
        None => None,
    }
}

impl View for ApiRequest {
    type V = ApiRequestView;

    open spec fn view(&self) -> ApiRequestView {
        ApiRequestView {
            method: self.method,
            url: self.url@,
            token: token_view(self.token),
            body: self.body@,
        }
    }
}

pub open spec fn request_view(
    method: HttpMethod,
    path: Seq<char>,
    token: Option<Seq<char>>,
    body: RequestBodyView,
) -> ApiRequestView {
    ApiRequestView { method, url: endpoint(path), token, body }
}

/// The full address of `path` on the game server.
fn api_url(path: &str) -> (url: String)
    ensures
        url@ == endpoint(path@),
{
    let mut url = String::from_str(BASE_API_URL);
    url.append(path);
    url
}

/// The full address of `prefix`, then `id`, then `suffix` on the game server.
fn api_url_with_id(prefix: &str, id: &str, suffix: &str) -> (url: String)
    ensures
        url@ == endpoint(prefix@ + id@ + suffix@),
{
    let mut url = api_url(prefix);
    url.append(id);
    url.append(suffix);
    assert(url@ =~= endpoint(prefix@ + id@ + suffix@));
    url
}

/// Creating a game hosted by the player.
pub fn create_game(player_name: String) -> (req: ApiRequest)
    ensures
        req@ == request_view(
            HttpMethod::Post,
            "/api/games"@,
            None,
            RequestBodyView::PlayerName { player_name: player_name@ },
        ),
{
    ApiRequest {
        method: HttpMethod::Post,
        url: api_url("/api/games"),
        token: None,
        body: RequestBody::PlayerName { player_name },
    }
}

/// The server's answer to [`create_game`].
#[derive(Debug)]
pub struct CreateGameResponse {
    pub game_id: String,
    pub status: String,
    pub player_id: String,
    pub token: String,
    pub game_code: i32,
}

/// Joining the game with the given code.
pub fn join_game(player_name: String, game_code: i32) -> (req: ApiRequest)
    ensures
        req@ == request_view(
            HttpMethod::Post,
            "/api/games/join"@,
            None,
            RequestBodyView::JoinGame { player_name: player_name@, code: game_code },
        ),
{
    ApiRequest {
        method: HttpMethod::Post,
        url: api_url("/api/games/join"),
        token: None,
        body: RequestBody::JoinGame { player_name, code: game_code },
    }
}

/// The server's answer to [`join_game`].
#[derive(Debug)]
pub struct JoinGameResponse {
    pub token: String,
    pub game_id: String,
    pub player_id: String,
}

/// Opening the stream of lobby updates of a game.
pub fn get_lobby_sse(game_id: &str) -> (req: ApiRequest)
    ensures
        req@ == request_view(
            HttpMethod::Get,
            "/api/games/"@ + game_id@ + "/lobby/stream"@,
            None,
            RequestBodyView::Empty,
        ),
{
    ApiRequest {
        method: HttpMethod::Get,
        url: api_url_with_id("/api/games/", game_id, "/lobby/stream"),
        token: None,
        body: RequestBody::Empty,
    }
}

/// One event of the lobby stream.
#[derive(Debug)]
pub struct LobbyStream {
    pub players: Vec<PlayerResponse>,
    pub game_status: GameStatus,
}

/// A player as the lobby stream shows it.
#[derive(Debug)]
pub struct PlayerResponse {
    pub name: String,
    pub ship_class: String,
    pub ship_character: char,
    pub ship_color: String,
    pub ready: bool,
}

/// A colour that a ship may take.
#[derive(Debug, Clone)]
pub struct ShipColor {
    pub id: String,
    pub name: String,
}

/// Asking for the colours that ships may take.
pub fn get_possible_colors() -> (req: ApiRequest)
    ensures
        req@ == request_view(
            HttpMethod::Get,
            "/api/players/colors"@,
            None,
            RequestBodyView::Empty,
        ),
{
    ApiRequest {
        method: HttpMethod::Get,
        url: api_url("/api/players/colors"),
        token: None,
        body: RequestBody::Empty,
    }
}

/// Changing the colour of the player's ship.
pub fn set_ship_color(token: String, color_id: &str) -> (req: ApiRequest)
    ensures
        req@ == request_view(
            HttpMethod::Put,
            "/api/players/colors"@,
            Some(token@),
            RequestBodyView::ColorId { color_id: color_id@ },
        ),
{
    ApiRequest {
        method: HttpMethod::Put,
        url: api_url("/api/players/colors"),
        token: Some(token),
        body: RequestBody::ColorId { color_id: String::from_str(color_id) },
    }
}

/// A class of ship that a player may fly.
#[derive(Debug, Clone)]
pub struct Ship {
    pub id: String,
    pub class_name: String,
    pub character: char,
    pub max_speed: i32,
    pub max_torpedo_count: i32,
}

/// Asking for the ships that players may fly.
pub fn get_possible_ships() -> (req: ApiRequest)
    ensures
        req@ == request_view(HttpMethod::Get, "/api/ships"@, None, RequestBodyView::Empty),
{
    ApiRequest {
        method: HttpMethod::Get,
        url: api_url("/api/ships"),
        token: None,
        body: RequestBody::Empty,
    }
}

/// Switching the player to another ship.
pub fn change_ship(ship_id: &str, token: String) -> (req: ApiRequest)
    ensures
        req@ == request_view(
            HttpMethod::Put,
            "/api/players/ship/"@ + ship_id@,
            Some(token@),
            RequestBodyView::Empty,
        ),
{
    let url = api_url_with_id("/api/players/ship/", ship_id, "");
    proof {
        reveal_strlit("");
        assert(("/api/players/ship/"@ + ship_id@ + ""@) =~= "/api/players/ship/"@ + ship_id@);
    }
    ApiRequest { method: HttpMethod::Put, url, token: Some(token), body: RequestBody::Empty }
}

/// Telling the server that the player is ready.
pub fn ready_up(token: String) -> (req: ApiRequest)
    ensures
        req@ == request_view(
            HttpMethod::Put,
            "/api/players/ready_up"@,
            Some(token@),
            RequestBodyView::Empty,
        ),
{
    ApiRequest {
        method: HttpMethod::Put,
        url: api_url("/api/players/ready_up"),
        token: Some(token),
        body: RequestBody::Empty,
    }
}

/// Leaving the game.
pub fn quit(token: String) -> (req: ApiRequest)
    ensures
        req@ == request_view(
            HttpMethod::Delete,
            "/api/players"@,
            Some(token@),
            RequestBodyView::Empty,
        ),
{
    ApiRequest {
        method: HttpMethod::Delete,
        url: api_url("/api/players"),
        token: Some(token),
        body: RequestBody::Empty,
    }
}

/// Where a game stands.
#[derive(Debug, Clone, Copy, PartialEq, Eq, Structural)]
pub enum GameStatus {
    Lobby,
    Playing,
    GameOver,
}

impl Default for GameStatus {
    fn default() -> (s: Self)
        ensures
            s == GameStatus::Lobby,
    {
        GameStatus::Lobby
    }
}

/// One event of the game stream.
#[derive(Debug)]
pub struct GameStream {
    pub game: GameStreamGame,
    pub players: Vec<GameStreamPlayer>,
}

#[derive(Debug)]
pub struct GameStreamGame {
    pub id: String,
    pub host_id: String,
    pub width: i32,
    pub height: i32,
    pub turn_number: i32,
}

/// A player as the game stream shows it.
#[derive(Debug)]
pub struct GameStreamPlayer {
    pub id: String,
    pub name: String,
    pub ship: char,
    pub ship_max_speed: i32,
    pub color: String,
    pub ready: bool,
    pub position_x: i32,
    pub position_y: i32,
    pub ship_classname: String,
}

/// Opening the stream of updates of a running game.
pub fn get_game_sse(game_id: &str) -> (req: ApiRequest)
    ensures
        req@ == request_view(
            HttpMethod::Get,
            "/api/games/"@ + game_id@ + "/stream"@,
            None,
            RequestBodyView::Empty,
        ),
{
    ApiRequest {
        method: HttpMethod::Get,
        url: api_url_with_id("/api/games/", game_id, "/stream"),
        token: None,
        body: RequestBody::Empty,
    }
}

/// Asking for the player that holds the token; no request goes out without a token.
pub fn get_player(player_token: String) -> (req: Option<ApiRequest>)
    ensures
        player_token@.len() == 0 ==> req is None,
        player_token@.len() != 0 ==> (req matches Some(r) && r@ == request_view(
            HttpMethod::Get,
            "/api/players"@,
            Some(player_token@),
            RequestBodyView::Empty,
        )),
{
    if player_token.as_str().is_empty() {
        return None;
    }
    Some(
        ApiRequest {
            method: HttpMethod::Get,
            url: api_url("/api/players"),
            token: Some(player_token),
            body: RequestBody::Empty,
        },
    )
}

/// The player as the server keeps it.
#[derive(Debug)]
pub struct DBPlayer {
    pub speed: i32,
    pub id: String,
    pub torpedo_count: i32,
}

/// The body of a turn command: the speed change and, if one was chosen, where to go.
#[derive(Debug, Clone, Copy)]
pub struct SubmitTurnCommandBody {
    pub speed_change: i8,
    pub destination: Option<(i32, i32)>,
}

/// What the server is told of a turn command.
pub open spec fn spec_turn_body(command: TurnCommand) -> SubmitTurnCommandBody {
    SubmitTurnCommandBody {
        speed_change: command.speed_change,
        destination: match command.destination {
            Some(d) => Some((d.x, d.y)),
            None => None,
        },
    }
}

/// Submitting the player's command for this turn.
pub fn submit_game_turn(token: &str, game_id: &str, turn_command: TurnCommand) -> (req: ApiRequest)
    ensures
        req@ == request_view(
            HttpMethod::Post,
            "/api/games/"@ + game_id@ + "/command"@,
            Some(token@),
            RequestBodyView::TurnCommand(spec_turn_body(turn_command)),
        ),
{
    let url = api_url_with_id("/api/games/", game_id, "/command");
    let body = SubmitTurnCommandBody {
        speed_change: turn_command.speed_change,
        destination: match turn_command.destination {
            Some(destination) => Some((destination.x, destination.y)),
            None => None,
        },
    };
    ApiRequest {
        method: HttpMethod::Post,
        url,
        token: Some(String::from_str(token)),
        body: RequestBody::TurnCommand(body),
    }
}

/// A player as the finished game shows it.
#[derive(Debug)]
pub struct GameOverPlayer {
    pub name: String,
    pub hitpoints: i32,
}

/// The server's account of a finished game.
#[derive(Debug)]
pub struct GetGameByIdResponse {
    pub id: String,
    pub players: Vec<GameOverPlayer>,
    pub status: GameStatus,
}

} // verus!
