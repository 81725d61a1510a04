use vstd::prelude::*;
use vstd::string::StrSliceExecFns;

use crate::app::AppMessage;
use crate::text::same_text;

verus! {

broadcast use vstd::string::group_string_axioms;

/// The screen where the player creates a game or joins one by its code.
pub struct StartPage;

#[derive(Debug, Default)]
pub struct StartPageState {
    pub game_code: String,
}

pub open spec fn is_digit(c: char) -> bool {
    '0' <= c <= '9'
}

/// The number that a sequence of decimal digits writes.
pub open spec fn digits_value(s: Seq<char>) -> int
    decreases s.len(),
{
    if s.len() == 0 {
        0
    } else {
        digits_value(s.drop_last()) * 10 + (s.last() as int - '0' as int)
    }
}

/// The text after an optional leading `+` or `-`.
pub open spec fn unsigned_part(s: Seq<char>) -> Seq<char> {
    if s.len() > 0 && (s[0] == '+' || s[0] == '-') {
        s.drop_first()
    } else {
        s
    }
}

/// Every character is a decimal digit.
pub open spec fn all_digits(s: Seq<char>) -> bool {
    forall|i: int| 0 <= i < s.len() ==> is_digit(#[trigger] s[i])
}

/// What `str::parse::<i32>` gives: an optional `+` or `-`, then one or more decimal digits,
/// whose value fits in an `i32`.
pub open spec fn spec_parse_i32(s: Seq<char>) -> Option<i32> {
    let digits = unsigned_part(s);
    let value = if s.len() > 0 && s[0] == '-' {
        -digits_value(digits)
    } else {
        digits_value(digits)
    };
    if digits.len() > 0 && all_digits(digits) && i32::MIN <= value <= i32::MAX {
        Some(value as i32)
    } else {
        None
    }
}

/// A sequence of decimal digits writes a value of at least zero.
proof fn digits_value_nonnegative(s: Seq<char>)
    requires
        forall|i: int| 0 <= i < s.len() ==> is_digit(#[trigger] s[i]),
    ensures
        digits_value(s) >= 0,
    decreases s.len(),
{
    if s.len() > 0 {
        digits_value_nonnegative(s.drop_last());
    }
}

/// More digits never write a smaller value: a prefix writes at most what the whole writes.
proof fn digits_value_of_prefix(s: Seq<char>, k: int)
    requires
        0 <= k <= s.len(),
        forall|i: int| 0 <= i < s.len() ==> is_digit(#[trigger] s[i]),
    ensures
        digits_value(s.subrange(0, k)) <= digits_value(s),
    decreases s.len(),
{
    if k < s.len() {
        assert(s.drop_last().subrange(0, k) =~= s.subrange(0, k));
        digits_value_of_prefix(s.drop_last(), k);
        digits_value_nonnegative(s.drop_last());
    } else {
        assert(s.subrange(0, k) =~= s);
    }
}

/// Reads a decimal `i32` as `str::parse::<i32>` of std does.
fn parse_i32(s: &str) -> (n: Option<i32>)
    ensures
        n == spec_parse_i32(s@),
{
    let len = s.unicode_len();
    if len == 0 {
        return None;
    }
    let first = s.get_char(0);
    let negative = first == '-';
    let start: usize = if first == '+' || first == '-' {
        1
    } else {
        0
    };
    let ghost digits = s@.subrange(start as int, len as int);
    proof {
        if start == 1 {
            assert(digits =~= s@.drop_first());
        } else {
            assert(digits =~= s@);
        }
    }
    if start == len {
        return None;
    }
    let mut magnitude: i64 = 0;
    let mut i: usize = start;
    while i < len
        invariant
            len == s@.len(),
            start <= i <= len,
            digits == s@.subrange(start as int, len as int),
            digits == unsigned_part(s@),
            0 <= magnitude <= 2147483648,
            magnitude == digits_value(digits.subrange(0, i - start)),
            forall|j: int| 0 <= j < i - start ==> is_digit(#[trigger] digits[j]),
        decreases len - i,
    {
        let c = s.get_char(i);
        if !('0' <= c && c <= '9') {
            assert(!is_digit(digits[i - start]));
            assert(!all_digits(digits));
            return None;
        }
        let next = magnitude * 10 + (c as u32 - '0' as u32) as i64;
        proof {
            assert(digits.subrange(0, i - start + 1).drop_last() =~= digits.subrange(0, i - start));
        }
        if next > 2147483648 {
            proof {
                if all_digits(digits) {
                    digits_value_of_prefix(digits, i - start + 1);
                }
            }
            return None;
        }
        magnitude = next;
        i = i + 1;
    }
    assert(digits.subrange(0, len - start) =~= digits);
    let value: i64 = if negative {
        -magnitude
    } else {
        magnitude
    };
    if value > 2147483647 {
        return None;
    }
    Some(value as i32)
}

/// The code that joining a game sends: the typed code when it reads as a number, else 0.
pub open spec fn code_to_join(typed: Seq<char>) -> i32 {
    match spec_parse_i32(typed) {
        Some(n) => n,
        None => 0,
    }
}

impl StartPage {
    /// `create_game` asks the application to create a game; `game_code_changed` takes the
    /// typed code (empty when the event carries none); `join_game` asks to join the game
    /// with the typed code, or with 0 when the code is not a number.
    pub fn on_event(
        &mut self,
        event_name: &str,
        data: Option<String>,
        state: &mut StartPageState,
    ) -> (message: Option<AppMessage>)
        requires
            event_name@ == "create_game"@ || event_name@ == "game_code_changed"@
                || event_name@ == "join_game"@,
        ensures
            event_name@ == "create_game"@ ==> *final(state) == *old(state),
            event_name@ == "create_game"@ ==> message matches Some(AppMessage::CreateGame),
            event_name@ == "game_code_changed"@ ==> message is None && final(state).game_code@
                == match data {
                Some(d) => d@,
                None => Seq::<char>::empty(),
            },
            event_name@ == "join_game"@ ==> *final(state) == *old(state),
            event_name@ == "join_game"@ ==> (message matches Some(AppMessage::JoinGame(code))
                && code == code_to_join(old(state).game_code@)),
    {
        proof {
            reveal_strlit("create_game");
            assert("create_game"@.len() == 11);
            reveal_strlit("game_code_changed");
            assert("game_code_changed"@.len() == 17);
            reveal_strlit("join_game");
            assert("join_game"@.len() == 9);
        }
        if same_text(event_name, "create_game") {
            Some(AppMessage::CreateGame)
        } else if same_text(event_name, "game_code_changed") {
            let game_code = match data {
                Some(d) => d,
                None => String::new(),
            };
            state.game_code = game_code;
            None
        } else {
            let code = match parse_i32(state.game_code.as_str()) {
                Some(n) => n,
                None => 0,
            };
            Some(AppMessage::JoinGame(code))
        }
    }
}

} // verus!
