//! The first screen, shown while the application finds out where to start.
use vstd::prelude::*;
use crate::error::Errors;
use crate::screens::{screen_view, Effect, EffectV, ScreenV, Screens};
use crate::screens::error::Error;
use crate::screens::folder_warn::FolderNotEmptyWarn;
use crate::screens::instance_warn::SingleInstanceWarn;

verus! {

#[derive(Debug, Clone)]
pub struct Startup;

#[derive(Debug)]
pub enum Message {
    Loaded(Result<Screens, Errors>),
}

/// What the result of the start-up load does: it becomes the screen, or its
/// failure is shown over this one.
pub open spec fn startup_step(m: Message) -> (EffectV, ScreenV) {
    match m {
        Message::Loaded(Ok(s)) => (EffectV::Nothing, s@),
        Message::Loaded(Err(e)) => (EffectV::Nothing, ScreenV::Error(e@, Box::new(ScreenV::Startup))),
    }
}

/// Where the start-up checks lead, before the settings are read: another
/// running copy stops at its warning; a folder that holds more than the
/// executable, and no settings yet, stops at its own.
pub open spec fn gate_spec(is_single: bool, config_exists: bool, folder_entries: nat) -> Option<
    ScreenV,
> {
    if !is_single {
        Some(ScreenV::SingleInstanceWarn)
    } else if !config_exists && folder_entries > 1 {
        Some(ScreenV::FolderNotEmptyWarn)
    } else {
        None
    }
}

/// The warning that start-up stops at, if any: `is_single` tells whether
/// this is the only running copy, `config_exists` whether the settings file
/// exists, and `folder_entries` how many entries the application's folder
/// holds.
pub fn startup_gate(is_single: bool, config_exists: bool, folder_entries: usize) -> (r: Option<
    Screens,
>)
    ensures
        match r {
            Some(s) => gate_spec(is_single, config_exists, folder_entries as nat) == Some(s@),
            None => gate_spec(is_single, config_exists, folder_entries as nat) is None,
        },
{
    if !is_single {
        Some(Screens::SingleInstanceWarn(SingleInstanceWarn))
    } else if !config_exists && folder_entries > 1 {
        Some(Screens::FolderNotEmptyWarn(FolderNotEmptyWarn))
    } else {
        None
    }
}

impl Startup {
    pub fn update(self, message: Message) -> (r: (Effect, Screens))
        ensures
            (r.0@, r.1@) == startup_step(message),
    {
        proof {
            reveal_with_fuel(screen_view, 2);
        }
        match message {
            Message::Loaded(Ok(s)) => (Effect::Nothing, s),
            Message::Loaded(Err(e)) => (
                Effect::Nothing,
                Screens::Error(Error { error: e, previous_screen: Box::new(Screens::Startup(self)) }),
            ),
        }
    }
}

} // verus!
