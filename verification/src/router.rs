use vstd::prelude::*;
use vstd::string::StringExecFns;

verus! {

/// The screens that the application shows.
#[derive(Debug, Clone, Copy, PartialEq, Eq, Structural)]
pub enum Route {
    Home,
    Start,
    Lobby,
    Game,
    GameOver,
}

impl Default for Route {
    fn default() -> (r: Self)
        ensures
            r == Route::Home,
    {
        Route::Home
    }
}

/// The name under which the templates know a screen.
pub open spec fn route_name(route: Route) -> Seq<char> {
    match route {
        Route::Home => "Home"@,
        Route::Start => "Start"@,
        Route::Lobby => "Lobby"@,
        Route::Game => "Game"@,
        Route::GameOver => "GameOver"@,
    }
}

impl Route {
    /// The screen's name as the templates know it.
    pub fn into_string(self) -> (name: String)
        ensures
            name@ == route_name(self),
    {
        match self {
            Route::Home => String::from_str("Home"),
            Route::Start => String::from_str("Start"),
            Route::Lobby => String::from_str("Lobby"),
            Route::Game => String::from_str("Game"),
            Route::GameOver => String::from_str("GameOver"),
        }
    }
}

/// The component that forwards navigation requests.
pub struct Router;

impl Router {
    /// The route that a `nav_to` event publishes: the one it carries, or the default route.
    pub fn on_event(&mut self, event_name: &str, route: Option<Route>) -> (published: Route)
        requires
            event_name@ == "nav_to"@,
        ensures
            published == match route {
                Some(r) => r,
                None => Route::Home,
            },
    {
        match route {
            Some(r) => r,
            None => Route::default(),
        }
    }
}

} // verus!
