//! State of the terminal board.

use vstd::prelude::*;

verus! {

/// State of the terminal board.
pub struct App {
    /// Whether the board should close.
    pub should_quit: bool,
}

impl App {
    /// A board that keeps running.
    pub fn new() -> (a: App)
        ensures
            !a.should_quit,
    {
        App { should_quit: false }
    }

    /// Handles a key: `q` asks the board to close, other keys change
    /// nothing.
    pub fn on_key(&mut self, key: char)
        ensures
            final(self).should_quit == (old(self).should_quit || key == 'q'),
    {
        match key {
            'q' => self.should_quit = true,
            _ => {},
        }
    }
}

} // verus!
