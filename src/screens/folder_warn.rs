//! The warning shown when the application's folder holds other files.
use vstd::prelude::*;
use crate::error::Errors;
use crate::screens::{screen_view, Effect, EffectV, ScreenV, Screens};
use crate::screens::error::Error;
use crate::screens::setup::Setup;

verus! {

#[derive(Debug, Clone)]
pub struct FolderNotEmptyWarn;

#[derive(Debug)]
pub enum Message {
    Loaded(Result<Setup, Errors>),
    Continue,
    Close,
}

/// What a message does on the warning: continuing loads the setup screen,
/// closing ends the application.
pub open spec fn folder_warn_step(m: Message) -> (EffectV, ScreenV) {
    match m {
        Message::Loaded(Ok(s)) => (EffectV::Nothing, ScreenV::Setup(s@)),
        Message::Loaded(Err(e)) => (
            EffectV::Nothing,
            ScreenV::Error(e@, Box::new(ScreenV::FolderNotEmptyWarn)),
        ),
        Message::Continue => (EffectV::LoadSetup, ScreenV::FolderNotEmptyWarn),
        Message::Close => (EffectV::Exit, ScreenV::FolderNotEmptyWarn),
    }
}

impl FolderNotEmptyWarn {
    pub fn update(self, message: Message) -> (r: (Effect, Screens))
        ensures
            (r.0@, r.1@) == folder_warn_step(message),
    {
        proof {
            reveal_with_fuel(screen_view, 2);
        }
        match message {
            Message::Loaded(Ok(s)) => (Effect::Nothing, Screens::Setup(s)),
            Message::Loaded(Err(e)) => (
                Effect::Nothing,
                Screens::Error(
                    Error { error: e, previous_screen: Box::new(Screens::FolderNotEmptyWarn(self)) },
                ),
            ),
            Message::Continue => (Effect::LoadSetup, Screens::FolderNotEmptyWarn(self)),
            Message::Close => (Effect::Exit, Screens::FolderNotEmptyWarn(self)),
        }
    }
}

} // verus!
