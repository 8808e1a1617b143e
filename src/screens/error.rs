//! The screen that shows a failure over the screen where it happened.
use vstd::prelude::*;
use crate::error::Errors;
use crate::screens::{Effect, EffectV, ScreenV, Screens};

verus! {

/// A failure, and the screen to go back to once the user has seen it.
#[derive(Debug)]
pub struct Error {
    pub error: Errors,
    pub previous_screen: Box<Screens>,
}

#[derive(Debug, Clone)]
pub enum Message {
    Continue,
}

impl Error {
    pub fn new(error: Errors, previous_screen: Box<Screens>) -> (r: Error)
        ensures
            r.error == error,
            r.previous_screen == previous_screen,
    {
        Error { error, previous_screen }
    }

    /// Continuing goes back to the screen where the failure happened.
    pub fn update(self, message: Message) -> (r: (Effect, Screens))
        ensures
            r.0@ == EffectV::Nothing,
            r.1@ == (*self.previous_screen)@,
    {
        match message {
            Message::Continue => (Effect::Nothing, *self.previous_screen),
        }
    }
}

} // verus!
