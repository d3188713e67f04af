//! The decision core of the render/input loop: one key event in, one state
//! change and a termination signal out. The loop around it (drawing frames,
//! blocking on the terminal for events) lives outside the library and only
//! calls [`App::handle_key`] once per event.

use vstd::prelude::*;

use crate::state::{App, label_is};

verus! {

/// A keyboard key press, as the menu interprets it. Anything the menu does
/// not react to — other special keys, but also non-key terminal events —
/// maps to `Other` and leaves the state alone.
pub enum InputKey {
    Up,
    Down,
    Enter,
    Char(char),
    Other,
}

impl App {
    /// Applies one key event: Down and Up move the selection with
    /// wrap-around, Enter activates the selected entry unless it is "Quit",
    /// and Enter on "Quit" or the character 'q' signals termination, leaving
    /// the state untouched. Every other key is ignored. Returns whether the
    /// interaction loop should terminate.
    pub fn handle_key(&mut self, key: InputKey) -> (quit: bool)
        requires
            old(self)@.inv(),
        ensures
            final(self)@.inv(),
            old(self)@.wf() ==> final(self)@.wf(),
            match key {
                InputKey::Down => !quit && final(self)@ == old(self)@.advanced(),
                InputKey::Up => !quit && final(self)@ == old(self)@.retreated(),
                InputKey::Enter => (if old(self)@.quit_selected() {
                    quit && *final(self) == *old(self)
                } else {
                    !quit && final(self)@ == old(self)@.activated()
                }),
                InputKey::Char(c) => quit == (c == 'q') && *final(self) == *old(self),
                InputKey::Other => !quit && *final(self) == *old(self),
            },
    {
        match key {
            InputKey::Down => {
                self.next();
                false
            },
            InputKey::Up => {
                self.previous();
                false
            },
            InputKey::Enter => {
                if label_is(self.selected_item(), "Quit") {
                    true
                } else {
                    self.execute_selected_item();
                    false
                }
            },
            InputKey::Char(c) => c == 'q',
            InputKey::Other => false,
        }
    }
}

} // verus!
