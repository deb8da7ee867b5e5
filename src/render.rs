use vstd::prelude::*;
use crate::counter::{step, App, Message, MAX_VALUE, MIN_VALUE};

verus! {

/// Outer padding around the column, on all four sides.
pub const PADDING: u16 = 25;

/// Relative height of each button.
pub const BUTTON_PORTION: u16 = 2;

/// Relative height of the number in the middle.
pub const DISPLAY_PORTION: u16 = 3;

/// Font size of the button labels.
pub const BUTTON_FONT_SIZE: u16 = 30;

/// Font size of the number.
pub const DISPLAY_FONT_SIZE: u16 = 50;

/// A button spanning the full width of the column, with a centred label.
/// `message` is what a press emits; `None` means the button is disabled.
pub struct Control {
    pub label: String,
    pub portion: u16,
    pub font_size: u16,
    pub message: Option<Message>,
}

/// A centred text spanning the full width of the column.
pub struct Display {
    pub text: String,
    pub portion: u16,
    pub font_size: u16,
}

/// What the window shows, top to bottom: increment button, number,
/// decrement button, inside `padding` units on every side.
pub struct Screen {
    pub padding: u16,
    pub increment: Control,
    pub display: Display,
    pub decrement: Control,
}

/// The character of a decimal digit `d < 10`.
pub open spec fn digit_char(d: nat) -> char {
    seq!['0', '1', '2', '3', '4', '5', '6', '7', '8', '9'][d as int]
}

/// The decimal digits of `n`, most significant first, without leading zeros.
pub open spec fn digits(n: nat) -> Seq<char>
    decreases n,
{
    if n < 10 {
        seq![digit_char(n)]
    } else {
        digits(n / 10) + seq![digit_char(n % 10)]
    }
}

/// The decimal text of `v`: a minus sign before the digits of a negative value.
pub open spec fn decimal(v: int) -> Seq<char> {
    if v < 0 {
        seq!['-'] + digits((-v) as nat)
    } else {
        digits(v as nat)
    }
}

/// The message the increment button emits in state `v`, if it is enabled.
pub open spec fn increment_message(v: int) -> Option<Message> {
    if v == MAX_VALUE as int {
        None
    } else {
        Some(Message::BtnIncrementPressed)
    }
}

/// The message the decrement button emits in state `v`, if it is enabled.
pub open spec fn decrement_message(v: int) -> Option<Message> {
    if v == MIN_VALUE as int {
        None
    } else {
        Some(Message::BtnDecrementPressed)
    }
}

/// Relies on the `Display` impl of `i8` through `ToString::to_string`:
/// the value in decimal, with a leading `-` when negative.
#[verifier::external_body]
fn i8_to_string(v: i8) -> (r: String)
    ensures
        r@ == decimal(v as int),
{
    v.to_string()
}

/// A full-width button with the given label, emitting `message` when enabled.
fn control(label: &str, message: Option<Message>) -> (r: Control)
    ensures
        r.label@ == label@,
        r.portion == BUTTON_PORTION,
        r.font_size == BUTTON_FONT_SIZE,
        r.message == message,
{
    Control { label: label.to_owned(), portion: BUTTON_PORTION, font_size: BUTTON_FONT_SIZE, message }
}

impl App {
    /// Describes the window for the current value.
    pub fn view(&self) -> (r: Screen)
        ensures
            r.padding == PADDING,
            r.increment.label@ == seq!['+'],
            r.increment.portion == BUTTON_PORTION,
            r.increment.font_size == BUTTON_FONT_SIZE,
            r.increment.message == increment_message(self.value as int),
            r.display.text@ == decimal(self.value as int),
            r.display.portion == DISPLAY_PORTION,
            r.display.font_size == DISPLAY_FONT_SIZE,
            r.decrement.label@ == seq!['-'],
            r.decrement.portion == BUTTON_PORTION,
            r.decrement.font_size == BUTTON_FONT_SIZE,
            r.decrement.message == decrement_message(self.value as int),
    {
        let inc = if self.value == MAX_VALUE {
            None
        } else {
            Some(Message::BtnIncrementPressed)
        };
        let dec = if self.value == MIN_VALUE {
            None
        } else {
            Some(Message::BtnDecrementPressed)
        };
        proof {
            reveal_strlit("+");
            reveal_strlit("-");
        }
        Screen {
            padding: PADDING,
            increment: control("+", inc),
            display: Display {
                text: i8_to_string(self.value),
                portion: DISPLAY_PORTION,
                font_size: DISPLAY_FONT_SIZE,
            },
            decrement: control("-", dec),
        }
    }
}

/// An enabled button always changes the value: the increment button is
/// disabled exactly at the top bound, the decrement button exactly at the
/// bottom bound, and a press on an enabled one moves the value by one.
pub proof fn lemma_enabled_controls_move_value(v: i8)
    ensures
        increment_message(v as int) is None <==> v == MAX_VALUE,
        decrement_message(v as int) is None <==> v == MIN_VALUE,
        increment_message(v as int) matches Some(m) ==> step(v as int, m) == v as int + 1,
        decrement_message(v as int) matches Some(m) ==> step(v as int, m) == v as int - 1,
{
}

} // verus!
