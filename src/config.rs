//! The settings of a window, as read from a configuration file, and what is
//! computed from them.
use vstd::prelude::*;

verus! {

/// The settings of a window.
#[derive(Debug)]
pub struct Config {
    pub title: String,
    pub width: i32,
    pub height: i32,
    pub should_open: Option<bool>,
    pub tail: bool,
}

impl Config {
    /// The area of the window, `width * height`, or `None` where that
    /// product does not fit in an `i32`.
    pub fn total_space(&self) -> (r: Option<i32>)
        ensures
            r == (if i32::MIN <= self.width * self.height <= i32::MAX {
                Some((self.width * self.height) as i32)
            } else {
                None
            }),
    {
        self.width.checked_mul(self.height)
    }
}

} // verus!
