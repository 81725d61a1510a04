use vstd::prelude::*;

use crate::api::{
    self, ApiRequest, ApiRequestView, CreateGameResponse, JoinGameResponse, LobbyStream, Ship,
    ShipColor,
};
use crate::router::{route_name, Route};
use crate::text::same_text;

verus! {

/// The application component: it holds the player's session with the server.
#[derive(Debug, Default)]
pub struct App(pub AppData);

impl App {
    pub fn ident() -> (name: &'static str)
        ensures
            name@ == "app"@,
    {
        "app"
    }
}

/// What the application shows: the screen, the player and the choices offered.
#[derive(Debug, Default)]
pub struct AppState {
    pub width: u16,
    pub height: u16,
    pub game_status: String,
    pub current_route: String,
    pub player_name: String,
    pub game_code: i32,
    pub player_names: Vec<String>,
    pub possible_ship_color_names: Vec<String>,
    pub possible_ship_names: Vec<String>,
    pub possible_ship_chars: Vec<char>,
}

/// The player's session: the game it is in, its token and what the server offers.
#[derive(Debug, Default)]
pub struct AppData {
    pub game_id: Option<String>,
    pub player_id: Option<String>,
    pub token: Option<String>,
    pub possible_ship_colors: Vec<ShipColor>,
    pub possible_ships: Vec<Ship>,
}

pub open spec fn text_view(s: Option<String>) -> Option<Seq<char>> {
    match s {
        Some(t) => Some(t@),
        None => None,
    }
}

pub open spec fn texts_view(v: Seq<String>) -> Seq<Seq<char>> {
    v.map_values(|s: String| s@)
}

pub struct AppStateView {
    pub width: u16,
    pub height: u16,
    pub game_status: Seq<char>,
    pub current_route: Seq<char>,
    pub player_name: Seq<char>,
    pub game_code: i32,
    pub player_names: Seq<Seq<char>>,
    pub possible_ship_color_names: Seq<Seq<char>>,
    pub possible_ship_names: Seq<Seq<char>>,
    pub possible_ship_chars: Seq<char>,
}

impl View for AppState {
    type V = AppStateView;

    open spec fn view(&self) -> AppStateView {
        AppStateView {
            width: self.width,
            height: self.height,
            game_status: self.game_status@,
            current_route: self.current_route@,
            player_name: self.player_name@,
            game_code: self.game_code,
            player_names: texts_view(self.player_names@),
            possible_ship_color_names: texts_view(self.possible_ship_color_names@),
            possible_ship_names: texts_view(self.possible_ship_names@),
            possible_ship_chars: self.possible_ship_chars@,
        }
    }
}

pub struct AppDataView {
    pub game_id: Option<Seq<char>>,
    pub player_id: Option<Seq<char>>,
    pub token: Option<Seq<char>>,
    pub possible_ship_colors: Seq<ShipColor>,
    pub possible_ships: Seq<Ship>,
}

impl View for AppData {
    type V = AppDataView;

    open spec fn view(&self) -> AppDataView {
        AppDataView {
            game_id: text_view(self.game_id),
            player_id: text_view(self.player_id),
            token: text_view(self.token),
            possible_ship_colors: self.possible_ship_colors@,
            possible_ships: self.possible_ships@,
        }
    }
}

impl View for App {
    type V = AppDataView;

    open spec fn view(&self) -> AppDataView {
        self.0@
    }
}

/// The messages that reach the application component.
pub enum AppMessage {
    NameSet(String),
    CreateGame,
    GameCreated(CreateGameResponse),
    JoinGame(i32),
    GameJoined(JoinGameResponse),
    LobbyUpdate(LobbyStream),
    PossibleShipColors(Vec<ShipColor>),
    ChangingShipColor(String),
    PossibleShips(Vec<Ship>),
    ChangeShip(String),
    ReadyUp,
    Quit,
}

/// What the application asks of the world outside after handling a message or an event.
pub enum AppEffect {
    /// Send the request; the reply is a `CreateGameResponse`, handed back as `GameCreated`.
    CreateGame(ApiRequest),
    /// Send the request; the reply is a `JoinGameResponse`, handed back as `GameJoined`.
    JoinGame(ApiRequest),
    /// Open the stream; each of its events is a `LobbyStream`, handed back as `LobbyUpdate`.
    OpenLobbyStream(ApiRequest),
    /// Send the request; the reply is a list of colours, handed back as `PossibleShipColors`.
    FetchShipColors(ApiRequest),
    /// Send the request; the reply is a list of ships, handed back as `PossibleShips`.
    FetchShips(ApiRequest),
    /// Send the request; nothing comes back.
    Send(ApiRequest),
    /// Send the request, then hand back `Quit`.
    LeaveGame(ApiRequest),
    /// Pass the lobby update on to the lobby page.
    ForwardToLobby(LobbyStream),
    /// Hand `Quit` back to the application.
    QuitWithoutServer,
    /// Stop the runtime.
    StopRuntime,
}

pub enum AppEffectView {
    CreateGame(ApiRequestView),
    JoinGame(ApiRequestView),
    OpenLobbyStream(ApiRequestView),
    FetchShipColors(ApiRequestView),
    FetchShips(ApiRequestView),
    Send(ApiRequestView),
    LeaveGame(ApiRequestView),
    ForwardToLobby(LobbyStream),
    QuitWithoutServer,
    StopRuntime,
}

impl View for AppEffect {
    type V = AppEffectView;

    open spec fn view(&self) -> AppEffectView {
        match self {
            AppEffect::CreateGame(r) => AppEffectView::CreateGame(r@),
            AppEffect::JoinGame(r) => AppEffectView::JoinGame(r@),
            AppEffect::OpenLobbyStream(r) => AppEffectView::OpenLobbyStream(r@),
            AppEffect::FetchShipColors(r) => AppEffectView::FetchShipColors(r@),
            AppEffect::FetchShips(r) => AppEffectView::FetchShips(r@),
            AppEffect::Send(r) => AppEffectView::Send(r@),
            AppEffect::LeaveGame(r) => AppEffectView::LeaveGame(r@),
            AppEffect::ForwardToLobby(l) => AppEffectView::ForwardToLobby(*l),
            AppEffect::QuitWithoutServer => AppEffectView::QuitWithoutServer,
            AppEffect::StopRuntime => AppEffectView::StopRuntime,
        }
    }
}

pub open spec fn effect_view(e: Option<AppEffect>) -> Option<AppEffectView> {
    match e {
        Some(e) => Some(e@),
        None => None,
    }
}

/// `i` is the first index at which `names` holds `name`.
pub open spec fn is_first_named(names: Seq<Seq<char>>, name: Seq<char>, i: int) -> bool {
    &&& 0 <= i < names.len()
    &&& names[i] == name
    &&& forall|j: int| 0 <= j < i ==> names[j] != name
}

/// The first index at which `names` holds `name`, if any.
pub open spec fn first_named(names: Seq<Seq<char>>, name: Seq<char>) -> Option<int> {
    if exists|i: int| is_first_named(names, name, i) {
        Some(choose|i: int| is_first_named(names, name, i))
    } else {
        None
    }
}

pub proof fn first_named_is_unique(names: Seq<Seq<char>>, name: Seq<char>, i: int)
    requires
        is_first_named(names, name, i),
    ensures
        first_named(names, name) == Some(i),
{
    let k = choose|k: int| is_first_named(names, name, k);
    assert(is_first_named(names, name, k));
    if k < i {
        assert(names[k] != name);
    } else if i < k {
        assert(names[i] != name);
    }
}

pub open spec fn color_names(colors: Seq<ShipColor>) -> Seq<Seq<char>> {
    colors.map_values(|c: ShipColor| c.name@)
}

pub open spec fn ship_names(ships: Seq<Ship>) -> Seq<Seq<char>> {
    ships.map_values(|s: Ship| s.class_name@)
}

pub open spec fn ship_chars(ships: Seq<Ship>) -> Seq<char> {
    ships.map_values(|s: Ship| s.character)
}

/// The request that [`api::set_ship_color`] builds, in views.
pub open spec fn set_ship_color_view(token: Seq<char>, color_id: Seq<char>) -> ApiRequestView {
    api::request_view(
        api::HttpMethod::Put,
        "/api/players/colors"@,
        Some(token),
        api::RequestBodyView::ColorId { color_id },
    )
}

pub open spec fn change_ship_view(ship_id: Seq<char>, token: Seq<char>) -> ApiRequestView {
    api::request_view(
        api::HttpMethod::Put,
        "/api/players/ship/"@ + ship_id,
        Some(token),
        api::RequestBodyView::Empty,
    )
}

pub open spec fn ready_up_view(token: Seq<char>) -> ApiRequestView {
    api::request_view(
        api::HttpMethod::Put,
        "/api/players/ready_up"@,
        Some(token),
        api::RequestBodyView::Empty,
    )
}

pub open spec fn quit_view(token: Seq<char>) -> ApiRequestView {
    api::request_view(
        api::HttpMethod::Delete,
        "/api/players"@,
        Some(token),
        api::RequestBodyView::Empty,
    )
}

pub open spec fn create_game_view(player_name: Seq<char>) -> ApiRequestView {
    api::request_view(
        api::HttpMethod::Post,
        "/api/games"@,
        None,
        api::RequestBodyView::PlayerName { player_name },
    )
}

pub open spec fn join_game_view(player_name: Seq<char>, code: i32) -> ApiRequestView {
    api::request_view(
        api::HttpMethod::Post,
        "/api/games/join"@,
        None,
        api::RequestBodyView::JoinGame { player_name, code },
    )
}

pub open spec fn lobby_stream_view(game_id: Seq<char>) -> ApiRequestView {
    api::request_view(
        api::HttpMethod::Get,
        "/api/games/"@ + game_id + "/lobby/stream"@,
        None,
        api::RequestBodyView::Empty,
    )
}

/// How the application answers a message: its session and screen afterwards, and what it asks for.
pub open spec fn app_transition(d: AppDataView, s: AppStateView, m: AppMessage) -> (
    AppDataView,
    AppStateView,
    Option<AppEffectView>,
) {
    match m {
        AppMessage::NameSet(name) => (
            d,
            AppStateView { player_name: name@, current_route: route_name(Route::Start), ..s },
            None,
        ),
        AppMessage::CreateGame => (
            d,
            s,
            Some(AppEffectView::CreateGame(create_game_view(s.player_name))),
        ),
        AppMessage::GameCreated(r) => (
            AppDataView {
                game_id: Some(r.game_id@),
                player_id: Some(r.player_id@),
                token: Some(r.token@),
                ..d
            },
            AppStateView {
                current_route: route_name(Route::Lobby),
                game_status: r.status@,
                game_code: r.game_code,
                ..s
            },
            Some(AppEffectView::OpenLobbyStream(lobby_stream_view(r.game_id@))),
        ),
        AppMessage::JoinGame(code) => (
            d,
            s,
            Some(AppEffectView::JoinGame(join_game_view(s.player_name, code))),
        ),
        AppMessage::GameJoined(r) => (
            AppDataView {
                token: Some(r.token@),
                game_id: Some(r.game_id@),
                player_id: Some(r.player_id@),
                ..d
            },
            AppStateView { current_route: route_name(Route::Lobby), ..s },
            Some(AppEffectView::OpenLobbyStream(lobby_stream_view(r.game_id@))),
        ),
        AppMessage::LobbyUpdate(l) => (d, s, Some(AppEffectView::ForwardToLobby(l))),
        AppMessage::PossibleShipColors(colors) => (
            AppDataView { possible_ship_colors: colors@, ..d },
            AppStateView { possible_ship_color_names: color_names(colors@), ..s },
            None,
        ),
        AppMessage::ChangingShipColor(name) => (
            d,
            s,
            match (first_named(color_names(d.possible_ship_colors), name@), d.token) {
                (Some(i), Some(token)) => Some(
                    AppEffectView::Send(
                        set_ship_color_view(token, d.possible_ship_colors[i].id@),
                    ),
                ),
                _ => None,
            },
        ),
        AppMessage::PossibleShips(ships) => (
            AppDataView { possible_ships: ships@, ..d },
            AppStateView {
                possible_ship_names: ship_names(ships@),
                possible_ship_chars: ship_chars(ships@),
                ..s
            },
            None,
        ),
        AppMessage::ChangeShip(name) => (
            d,
            s,
            match (first_named(ship_names(d.possible_ships), name@), d.token) {
                (Some(i), Some(token)) => Some(
                    AppEffectView::Send(change_ship_view(d.possible_ships[i].id@, token)),
                ),
                _ => None,
            },
        ),
        AppMessage::ReadyUp => (
            d,
            s,
            match d.token {
                Some(token) => Some(AppEffectView::Send(ready_up_view(token))),
                None => None,
            },
        ),
        AppMessage::Quit => (d, s, Some(AppEffectView::StopRuntime)),
    }
}

/// How the application answers a user event.
pub open spec fn app_event_effect(d: AppDataView, event_name: Seq<char>) -> Option<AppEffectView> {
    if event_name == "quit"@ {
        match d.token {
            Some(token) => Some(AppEffectView::LeaveGame(quit_view(token))),
            None => Some(AppEffectView::QuitWithoutServer),
        }
    } else {
        None
    }
}

/// The first colour with the given name.
fn find_color(colors: &Vec<ShipColor>, name: &String) -> (index: Option<usize>)
    ensures
        match index {
            Some(i) => is_first_named(color_names(colors@), name@, i as int),
            None => first_named(color_names(colors@), name@) is None,
        },
{
    let ghost names = color_names(colors@);
    let n = colors.len();
    for i in 0..n
        invariant
            n == colors@.len(),
            names == color_names(colors@),
            forall|j: int| 0 <= j < i ==> names[j] != name@,
    {
        if colors[i].name == *name {
            return Some(i);
        }
    }
    proof {
        if exists|i: int| is_first_named(names, name@, i) {
            let i = choose|i: int| is_first_named(names, name@, i);
            assert(names[i] == name@);
        }
    }
    None
}

/// The first ship of the given class.
fn find_ship(ships: &Vec<Ship>, name: &String) -> (index: Option<usize>)
    ensures
        match index {
            Some(i) => is_first_named(ship_names(ships@), name@, i as int),
            None => first_named(ship_names(ships@), name@) is None,
        },
{
    let ghost names = ship_names(ships@);
    let n = ships.len();
    for i in 0..n
        invariant
            n == ships@.len(),
            names == ship_names(ships@),
            forall|j: int| 0 <= j < i ==> names[j] != name@,
    {
        if ships[i].class_name == *name {
            return Some(i);
        }
    }
    proof {
        if exists|i: int| is_first_named(names, name@, i) {
            let i = choose|i: int| is_first_named(names, name@, i);
            assert(names[i] == name@);
        }
    }
    None
}

fn names_of_colors(colors: &Vec<ShipColor>) -> (names: Vec<String>)
    ensures
        texts_view(names@) == color_names(colors@),
{
    let mut names: Vec<String> = Vec::new();
    let n = colors.len();
    for i in 0..n
        invariant
            n == colors@.len(),
            names@.len() == i,
            forall|j: int| 0 <= j < i ==> #[trigger] names@[j]@ == colors@[j].name@,
    {
        names.push(colors[i].name.clone());
    }
    assert(texts_view(names@) =~= color_names(colors@));
    names
}

fn names_and_chars_of_ships(ships: &Vec<Ship>) -> (r: (Vec<String>, Vec<char>))
    ensures
        texts_view(r.0@) == ship_names(ships@),
        r.1@ == ship_chars(ships@),
{
    let mut names: Vec<String> = Vec::new();
    let mut chars: Vec<char> = Vec::new();
    let n = ships.len();
    for i in 0..n
        invariant
            n == ships@.len(),
            names@.len() == i,
            chars@.len() == i,
            forall|j: int| 0 <= j < i ==> #[trigger] names@[j]@ == ships@[j].class_name@,
            forall|j: int| 0 <= j < i ==> #[trigger] chars@[j] == ships@[j].character,
    {
        names.push(ships[i].class_name.clone());
        chars.push(ships[i].character);
    }
    assert(texts_view(names@) =~= ship_names(ships@));
    assert(chars@ =~= ship_chars(ships@));
    (names, chars)
}

impl App {
    /// On mounting: the viewport's size, the home screen, and the two requests
    /// for the colours and the ships that the server offers.
    pub fn on_mount(&mut self, state: &mut AppState, width: u16, height: u16) -> (effects: Vec<
        AppEffect,
    >)
        ensures
            final(self)@ == old(self)@,
            final(state)@ == (AppStateView {
                width,
                height,
                current_route: route_name(Route::Home),
                ..old(state)@
            }),
            effects@.len() == 2,
            effects@[0]@ == AppEffectView::FetchShipColors(
                api::request_view(
                    api::HttpMethod::Get,
                    "/api/players/colors"@,
                    None,
                    api::RequestBodyView::Empty,
                ),
            ),
            effects@[1]@ == AppEffectView::FetchShips(
                api::request_view(
                    api::HttpMethod::Get,
                    "/api/ships"@,
                    None,
                    api::RequestBodyView::Empty,
                ),
            ),
    {
        state.width = width;
        state.height = height;
        state.current_route = Route::Home.into_string();
        let mut effects: Vec<AppEffect> = Vec::new();
        effects.push(AppEffect::FetchShipColors(api::get_possible_colors()));
        effects.push(AppEffect::FetchShips(api::get_possible_ships()));
        effects
    }

    /// Handles a message; see [`app_transition`].
    pub fn on_message(&mut self, message: AppMessage, state: &mut AppState) -> (effect: Option<
        AppEffect,
    >)
        ensures
            (final(self)@, final(state)@, effect_view(effect)) == app_transition(
                old(self)@,
                old(state)@,
                message,
            ),
    {
        match message {
            AppMessage::NameSet(name) => {
                state.player_name = name;
                state.current_route = Route::Start.into_string();
                None
            },
            AppMessage::CreateGame => {
                let player_name = state.player_name.clone();
                Some(AppEffect::CreateGame(api::create_game(player_name)))
            },
            AppMessage::GameCreated(game_created_data) => {
                state.current_route = Route::Lobby.into_string();
                let game_id = game_created_data.game_id.clone();
                self.0.game_id = Some(game_created_data.game_id);
                state.game_status = game_created_data.status;
                self.0.player_id = Some(game_created_data.player_id);
                self.0.token = Some(game_created_data.token);
                state.game_code = game_created_data.game_code;
                Some(AppEffect::OpenLobbyStream(api::get_lobby_sse(game_id.as_str())))
            },
            AppMessage::JoinGame(code) => {
                let player_name = state.player_name.clone();
                Some(AppEffect::JoinGame(api::join_game(player_name, code)))
            },
            AppMessage::GameJoined(join_game_response) => {
                self.0.token = Some(join_game_response.token);
                let game_id = join_game_response.game_id.clone();
                self.0.game_id = Some(join_game_response.game_id);
                self.0.player_id = Some(join_game_response.player_id);
                state.current_route = Route::Lobby.into_string();
                Some(AppEffect::OpenLobbyStream(api::get_lobby_sse(game_id.as_str())))
            },
            AppMessage::LobbyUpdate(lobby_stream) => {
                Some(AppEffect::ForwardToLobby(lobby_stream))
            },
            AppMessage::PossibleShipColors(ship_colors) => {
                let names = names_of_colors(&ship_colors);
                self.0.possible_ship_colors = ship_colors;
                state.possible_ship_color_names = names;
                None
            },
            AppMessage::ChangingShipColor(color_name) => {
                let found = find_color(&self.0.possible_ship_colors, &color_name);
                let index = match found {
                    Some(i) => i,
                    None => {
                        return None;
                    },
                };
                proof {
                    first_named_is_unique(
                        color_names(self.0.possible_ship_colors@),
                        color_name@,
                        index as int,
                    );
                }
                match &self.0.token {
                    Some(token) => Some(
                        AppEffect::Send(
                            api::set_ship_color(
                                token.clone(),
                                self.0.possible_ship_colors[index].id.as_str(),
                            ),
                        ),
                    ),
                    None => None,
                }
            },
            AppMessage::PossibleShips(ships) => {
                let (names, chars) = names_and_chars_of_ships(&ships);
                self.0.possible_ships = ships;
                state.possible_ship_names = names;
                state.possible_ship_chars = chars;
                None
            },
            AppMessage::ChangeShip(ship_name) => {
                let found = find_ship(&self.0.possible_ships, &ship_name);
                let index = match found {
                    Some(i) => i,
                    None => {
                        return None;
                    },
                };
                proof {
                    first_named_is_unique(
                        ship_names(self.0.possible_ships@),
                        ship_name@,
                        index as int,
                    );
                }
                match &self.0.token {
                    Some(token) => Some(
                        AppEffect::Send(
                            api::change_ship(
                                self.0.possible_ships[index].id.as_str(),
                                token.clone(),
                            ),
                        ),
                    ),
                    None => None,
                }
            },
            AppMessage::ReadyUp => {
                match &self.0.token {
                    Some(token) => Some(AppEffect::Send(api::ready_up(token.clone()))),
                    None => None,
                }
            },
            AppMessage::Quit => Some(AppEffect::StopRuntime),
        }
    }

    /// Handles a user event; see [`app_event_effect`].
    pub fn on_event(&self, event_name: &str) -> (effect: Option<AppEffect>)
        ensures
            effect_view(effect) == app_event_effect(self@, event_name@),
    {
        if same_text(event_name, "quit") {
            match &self.0.token {
                Some(token) => Some(AppEffect::LeaveGame(api::quit(token.clone()))),
                None => Some(AppEffect::QuitWithoutServer),
            }
        } else {
            None
        }
    }
}

/// The session token changes only when the server hands out a new one,
/// on creating or on joining a game.
pub proof fn token_changes_only_on_create_or_join(d: AppDataView, s: AppStateView, m: AppMessage)
    ensures
        match m {
            AppMessage::GameCreated(r) => app_transition(d, s, m).0.token == Some(r.token@),
            AppMessage::GameJoined(r) => app_transition(d, s, m).0.token == Some(r.token@),
            _ => app_transition(d, s, m).0.token == d.token,
        },
{
}

/// Creating a game and joining one both keep the server's whole answer: the session token,
/// the game's id and the player's id.
pub proof fn server_answer_is_stored(d: AppDataView, s: AppStateView, m: AppMessage)
    requires
        m is GameCreated || m is GameJoined,
    ensures
        ({
            let d1 = app_transition(d, s, m).0;
            match m {
                AppMessage::GameCreated(r) => d1.token == Some(r.token@) && d1.game_id == Some(
                    r.game_id@,
                ) && d1.player_id == Some(r.player_id@),
                AppMessage::GameJoined(r) => d1.token == Some(r.token@) && d1.game_id == Some(
                    r.game_id@,
                ) && d1.player_id == Some(r.player_id@),
                _ => false,
            }
        }),
{
}

/// Readying up after the game was created or joined sends the token that the server handed out.
pub proof fn ready_up_sends_the_session_token(d: AppDataView, s: AppStateView, m: AppMessage)
    requires
        m is GameCreated || m is GameJoined,
    ensures
        ({
            let (d1, s1, _) = app_transition(d, s, m);
            let token = match m {
                AppMessage::GameCreated(r) => r.token@,
                AppMessage::GameJoined(r) => r.token@,
                _ => Seq::empty(),
            };
            app_transition(d1, s1, AppMessage::ReadyUp).2 == Some(
                AppEffectView::Send(ready_up_view(token)),
            )
        }),
{
}

/// Without a session token, no request that needs one goes out, and nothing changes.
pub proof fn no_token_no_player_request(d: AppDataView, s: AppStateView, m: AppMessage)
    requires
        d.token is None,
        m is ChangingShipColor || m is ChangeShip || m is ReadyUp,
    ensures
        app_transition(d, s, m) == (d, s, None::<AppEffectView>),
{
}

/// Asking for a colour that the server offered, with a token, sends the id of the first
/// colour of that name; asking for one it did not offer sends nothing.
pub proof fn colour_change_sends_offered_id(d: AppDataView, s: AppStateView, name: String, i: int)
    requires
        d.token is Some,
        is_first_named(color_names(d.possible_ship_colors), name@, i),
    ensures
        app_transition(d, s, AppMessage::ChangingShipColor(name)).2 == Some(
            AppEffectView::Send(
                set_ship_color_view(d.token.unwrap(), d.possible_ship_colors[i].id@),
            ),
        ),
{
    first_named_is_unique(color_names(d.possible_ship_colors), name@, i);
}

/// A colour name that the server did not offer sends nothing.
pub proof fn unknown_colour_sends_nothing(d: AppDataView, s: AppStateView, name: String)
    requires
        forall|j: int|
            0 <= j < d.possible_ship_colors.len() ==> d.possible_ship_colors[j].name@ != name@,
    ensures
        app_transition(d, s, AppMessage::ChangingShipColor(name)).2 is None,
{
    if exists|i: int| is_first_named(color_names(d.possible_ship_colors), name@, i) {
        let i = choose|i: int| is_first_named(color_names(d.possible_ship_colors), name@, i);
        assert(color_names(d.possible_ship_colors)[i] == name@);
    }
}

/// The colours and ships that the server offers are kept as they came, and the names
/// shown are theirs, in the same order.
pub proof fn offers_are_kept_and_shown(
    d: AppDataView,
    s: AppStateView,
    colors: Vec<ShipColor>,
    ships: Vec<Ship>,
)
    ensures
        ({
            let (d1, s1, e1) = app_transition(d, s, AppMessage::PossibleShipColors(colors));
            &&& d1.possible_ship_colors == colors@
            &&& s1.possible_ship_color_names.len() == colors@.len()
            &&& forall|i: int|
                0 <= i < colors@.len() ==> s1.possible_ship_color_names[i] == colors@[i].name@
            &&& e1 is None
        }),
        ({
            let (d2, s2, e2) = app_transition(d, s, AppMessage::PossibleShips(ships));
            &&& d2.possible_ships == ships@
            &&& s2.possible_ship_names.len() == ships@.len()
            &&& s2.possible_ship_chars.len() == ships@.len()
            &&& forall|i: int|
                0 <= i < ships@.len() ==> s2.possible_ship_names[i] == ships@[i].class_name@
                    && s2.possible_ship_chars[i] == ships@[i].character
            &&& e2 is None
        }),
{
}

/// Quitting: with a session the server is told first; without one the application quits
/// straight away; the `Quit` message stops the runtime.
pub proof fn quitting(d: AppDataView, s: AppStateView)
    ensures
        app_event_effect(d, "quit"@) == match d.token {
            Some(token) => Some(AppEffectView::LeaveGame(quit_view(token))),
            None => Some(AppEffectView::QuitWithoutServer),
        },
        app_transition(d, s, AppMessage::Quit) == (d, s, Some(AppEffectView::StopRuntime)),
{
}

/// Creating a game after the player named itself sends that name.
pub proof fn created_game_carries_the_name(d: AppDataView, s: AppStateView, name: String)
    ensures
        ({
            let (d1, s1, _) = app_transition(d, s, AppMessage::NameSet(name));
            app_transition(d1, s1, AppMessage::CreateGame).2 == Some(
                AppEffectView::CreateGame(create_game_view(name@)),
            )
        }),
{
}

} // verus!
