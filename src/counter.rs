use vstd::prelude::*;

verus! {

/// Largest value the counter can hold.
pub const MAX_VALUE: i8 = 127;

/// Smallest value the counter can hold.
pub const MIN_VALUE: i8 = -128;

/// A button press delivered by the event loop.
#[derive(Clone, Copy, Debug, PartialEq, Eq, Structural)]
pub enum Message {
    BtnIncrementPressed,
    BtnDecrementPressed,
}

/// The application state: one signed 8-bit counter.
pub struct App {
    pub value: i8,
}

/// The value after handling `m` in state `v`: one step up or down,
/// saturating at the bounds of `i8`.
pub open spec fn step(v: int, m: Message) -> int {
    match m {
        Message::BtnIncrementPressed => if v < MAX_VALUE as int { v + 1 } else { v },
        Message::BtnDecrementPressed => if v > MIN_VALUE as int { v - 1 } else { v },
    }
}

impl App {
    /// A fresh counter at zero.
    pub fn new() -> (r: App)
        ensures
            r.value == 0,
    {
        App { value: 0 }
    }

    /// Applies one button press.
    pub fn update(&mut self, message: Message)
        ensures
            final(self).value as int == step(old(self).value as int, message),
    {
        match message {
            Message::BtnIncrementPressed => {
                if self.value < MAX_VALUE {
                    self.value = self.value + 1;
                }
            },
            Message::BtnDecrementPressed => {
                if self.value > MIN_VALUE {
                    self.value = self.value - 1;
                }
            },
        }
    }
}

/// Increment yields `min(v + 1, 127)` and decrement yields `max(v - 1, -128)`,
/// for every value the counter can hold.
pub proof fn lemma_step_saturates(v: i8)
    ensures
        step(v as int, Message::BtnIncrementPressed) == vstd::math::min(v as int + 1, 127),
        step(v as int, Message::BtnDecrementPressed) == vstd::math::max(v as int - 1, -128),
{
}

/// Pressing increment at the top bound, or decrement at the bottom bound,
/// leaves the value where it is.
pub proof fn lemma_step_idempotent_at_bounds()
    ensures
        step(MAX_VALUE as int, Message::BtnIncrementPressed) == MAX_VALUE as int,
        step(MIN_VALUE as int, Message::BtnDecrementPressed) == MIN_VALUE as int,
{
}

/// Every step from a value of `i8` stays within the range of `i8`.
pub proof fn lemma_step_in_range(v: i8, m: Message)
    ensures
        MIN_VALUE as int <= step(v as int, m) <= MAX_VALUE as int,
{
}

} // verus!
