use vstd::prelude::*;

use crate::app::AppMessage;
use crate::text::same_text;

verus! {

broadcast use vstd::string::group_string_axioms;

/// The first screen: the player types a name.
pub struct SplashPage;

#[derive(Debug, Default)]
pub struct SplashPageState {
    pub player_name: String,
    pub can_begin: bool,
}

/// The message that sends the player's name to the application.
pub open spec fn sends_name(m: Option<AppMessage>, name: Seq<char>) -> bool {
    m matches Some(AppMessage::NameSet(n)) && n@ == name
}

impl SplashPage {
    fn can_begin(&self, state: &mut SplashPageState)
        ensures
            final(state).can_begin == (old(state).player_name@.len() != 0),
            final(state).player_name == old(state).player_name,
    {
        state.can_begin = !state.player_name.as_str().is_empty();
    }

    /// `name_changed` takes the new name (empty when the event carries none) and tells
    /// whether the player may begin; `begin` sends the name, unless it is empty.
    pub fn on_event(
        &mut self,
        event_name: &str,
        data: Option<String>,
        state: &mut SplashPageState,
    ) -> (message: Option<AppMessage>)
        requires
            event_name@ == "name_changed"@ || event_name@ == "begin"@,
        ensures
            event_name@ == "name_changed"@ ==> {
                &&& final(state).player_name@ == match data {
                    Some(d) => d@,
                    None => Seq::<char>::empty(),
                }
                &&& final(state).can_begin == (final(state).player_name@.len() != 0)
                &&& message is None
            },
            event_name@ == "begin"@ ==> {
                &&& *final(state) == *old(state)
                &&& if old(state).player_name@.len() == 0 {
                    message is None
                } else {
                    sends_name(message, old(state).player_name@)
                }
            },
    {
        proof {
            reveal_strlit("name_changed");
            assert("name_changed"@.len() == 12);
            reveal_strlit("begin");
            assert("begin"@.len() == 5);
        }
        if same_text(event_name, "name_changed") {
            let new_name = match data {
                Some(d) => d,
                None => String::new(),
            };
            state.player_name = new_name;
            self.can_begin(state);
            None
        } else {
            if state.player_name.as_str().is_empty() {
                return None;
            }
            Some(AppMessage::NameSet(state.player_name.clone()))
        }
    }

    /// Enter sends the name as it stands, even an empty one; other keys do nothing.
    pub fn on_key(&mut self, is_enter: bool, state: &SplashPageState) -> (message: Option<
        AppMessage,
    >)
        ensures
            is_enter ==> sends_name(message, state.player_name@),
            !is_enter ==> message is None,
    {
        if is_enter {
            Some(AppMessage::NameSet(state.player_name.clone()))
        } else {
            None
        }
    }
}

} // verus!
