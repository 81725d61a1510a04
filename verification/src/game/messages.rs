use vstd::prelude::*;

use crate::game::world::World;

use anathema::geometry::LocalPos;

verus! {

/// The character of a decimal digit.
pub open spec fn digit_char(d: nat) -> char {
    ('0' as nat + d) as char
}

/// The decimal digits of `n`, without leading zeros.
pub open spec fn decimal_digits(n: nat) -> Seq<char>
    decreases n,
{
    if n < 10 {
        seq![digit_char(n)]
    } else {
        decimal_digits(n / 10).push(digit_char(n % 10))
    }
}

/// How `Display` writes an integer: its decimal digits, with `-` in front when negative.
pub open spec fn decimal(n: int) -> Seq<char> {
    if n < 0 {
        seq!['-'] + decimal_digits((-n) as nat)
    } else {
        decimal_digits(n as nat)
    }
}

/// The log text when the player raises the speed change to `v`.
pub open spec fn speed_log_text(v: i8) -> Seq<char> {
    "Increasing speed to "@ + decimal(v as int)
}

/// The log text when the player aims a torpedo at `(x, y)`.
pub open spec fn torpedo_log_text(x: i32, y: i32) -> Seq<char> {
    "Setting torpedo target to be: ("@ + decimal(x as int) + ","@ + decimal(y as int) + ")"@
}

/// The log text of a click on the canvas cell `(x, y)`: the cell in the toolkit's
/// pretty `Debug` form, whose layout std leaves unspecified.
pub uninterp spec fn canvas_click_text(x: u16, y: u16) -> Seq<char>;

/// `text` begins with `prefix`.
pub open spec fn starts_with(text: Seq<char>, prefix: Seq<char>) -> bool {
    text.len() >= prefix.len() && text.subrange(0, prefix.len() as int) == prefix
}

/// `format!` of std, writing an `i8` with `Display` after a fixed text.
#[verifier::external_body]
pub(crate) fn speed_log(v: i8) -> (text: String)
    ensures
        text@ == speed_log_text(v),
{
    format!("Increasing speed to {v}")
}

/// `format!` of std, writing two `i32`s with `Display` in a fixed text.
#[verifier::external_body]
pub(crate) fn torpedo_log(x: i32, y: i32) -> (text: String)
    ensures
        text@ == torpedo_log_text(x, y),
{
    format!("Setting torpedo target to be: ({x},{y})")
}

/// `format!` of std, writing the toolkit's `LocalPos` of the cell with its pretty `Debug`
/// after a fixed text. The text depends on the cell alone and is named `canvas_click_text`;
/// only its fixed beginning is stated, since std does not fix how `Debug` lays a value out.
#[verifier::external_body]
pub(crate) fn canvas_click_log(x: u16, y: u16) -> (text: String)
    ensures
        text@ == canvas_click_text(x, y),
        starts_with(text@, "Mouse clicked in canvas on cell: "@),
{
    format!("Mouse clicked in canvas on cell: {:#?}", LocalPos::new(x, y))
}

/// `format!` of std, writing the world with its pretty `Debug` after a fixed text. Only
/// the fixed beginning is stated: std does not fix how `Debug` lays a value out.
#[verifier::external_body]
pub(crate) fn world_initiated_log(world: &World) -> (text: String)
    ensures
        starts_with(text@, "world initiated: "@),
{
    format!("world initiated: {world:#?}")
}

} // verus!
