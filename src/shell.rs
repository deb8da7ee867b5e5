use vstd::prelude::*;
use crate::counter::App;

verus! {

/// Size of the window, in logical pixels.
pub struct WindowSize {
    pub width: u32,
    pub height: u32,
    pub min_width: u32,
    pub min_height: u32,
}

/// The window opens at 450 by 600 and cannot be made smaller than 300 by 400.
pub fn window_size() -> (r: WindowSize)
    ensures
        r.width == 450,
        r.height == 600,
        r.min_width == 300,
        r.min_height == 400,
{
    WindowSize { width: 450, height: 600, min_width: 300, min_height: 400 }
}

impl App {
    /// The window title.
    pub fn title(&self) -> (r: String)
        ensures
            r@ == seq!['C', 'o', 'u', 'n', 't', 'e', 'r'],
    {
        proof {
            reveal_strlit("Counter");
        }
        "Counter".to_owned()
    }
}

} // verus!
