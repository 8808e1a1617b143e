//! The warning shown when another copy of the application is running.
use vstd::prelude::*;
use crate::screens::{Effect, EffectV, ScreenV, Screens};

verus! {

#[derive(Debug, Clone)]
pub struct SingleInstanceWarn;

#[derive(Debug, Clone)]
pub enum Message {
    Close,
}

impl SingleInstanceWarn {
    /// The only action ends the application.
    pub fn update(self, message: Message) -> (r: (Effect, Screens))
        ensures
            r.0@ == EffectV::Exit,
            r.1@ == ScreenV::SingleInstanceWarn,
    {
        match message {
            Message::Close => (Effect::Exit, Screens::SingleInstanceWarn(self)),
        }
    }
}

} // verus!
