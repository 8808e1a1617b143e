//! The screens of the application and the machine that moves between them.
//! Each message goes to the screen it is meant for; a message for another
//! screen (a late result of an abandoned action) is dropped.
use vstd::prelude::*;
use crate::error::{Errors, ErrorsV};
use crate::instance::InstanceV;

pub mod error;
pub mod folder_warn;
pub mod instance_warn;
pub mod main;
pub mod setup;
pub mod startup;

use crate::screens::error::Error;
use crate::screens::folder_warn::{folder_warn_step, FolderNotEmptyWarn};
use crate::screens::instance_warn::SingleInstanceWarn;
use crate::screens::main::{main_step, Main, MainV};
use crate::screens::setup::{launcher_ok, setup_step, PathProbe, Setup, SetupV};
use crate::screens::startup::{startup_step, Startup};

verus! {

#[derive(Debug)]
pub enum Screens {
    Startup(Startup),
    FolderNotEmptyWarn(FolderNotEmptyWarn),
    SingleInstanceWarn(SingleInstanceWarn),
    Setup(Setup),
    Main(Main),
    Error(Error),
}

/// The model of a screen; an error screen holds the model of the screen it
/// returns to.
pub enum ScreenV {
    Startup,
    FolderNotEmptyWarn,
    SingleInstanceWarn,
    Setup(SetupV),
    Main(MainV),
    Error(ErrorsV, Box<ScreenV>),
}

pub open spec fn screen_view(s: &Screens) -> ScreenV
    decreases s,
{
    match s {
        Screens::Startup(_) => ScreenV::Startup,
        Screens::FolderNotEmptyWarn(_) => ScreenV::FolderNotEmptyWarn,
        Screens::SingleInstanceWarn(_) => ScreenV::SingleInstanceWarn,
        Screens::Setup(x) => ScreenV::Setup(x@),
        Screens::Main(x) => ScreenV::Main(x@),
        Screens::Error(x) => ScreenV::Error(x.error@, Box::new(screen_view(&*x.previous_screen))),
    }
}

impl View for Screens {
    type V = ScreenV;

    open spec fn view(&self) -> ScreenV {
        screen_view(self)
    }
}

/// Outside work that a step asks for; its result comes back as a message.
#[derive(Debug, Clone, PartialEq)]
pub enum Effect {
    /// No outside work.
    Nothing,
    /// Run the start-up checks and load.
    Load,
    /// Prepare the setup screen.
    LoadSetup,
    /// Ask the user for a launcher with a file dialog.
    SelectLauncher,
    /// Store this launcher path in the settings.
    SaveConfig(String),
    /// Create an instance with this name.
    CreateInstance(String),
    /// Add the profile for the game directory and start the launcher.
    Run(String, String),
    /// End the application.
    Exit,
}

pub enum EffectV {
    Nothing,
    Load,
    LoadSetup,
    SelectLauncher,
    SaveConfig(Seq<char>),
    CreateInstance(Seq<char>),
    Run(Seq<char>, Seq<char>),
    Exit,
}

impl View for Effect {
    type V = EffectV;

    open spec fn view(&self) -> EffectV {
        match self {
            Effect::Nothing => EffectV::Nothing,
            Effect::Load => EffectV::Load,
            Effect::LoadSetup => EffectV::LoadSetup,
            Effect::SelectLauncher => EffectV::SelectLauncher,
            Effect::SaveConfig(p) => EffectV::SaveConfig(p@),
            Effect::CreateInstance(n) => EffectV::CreateInstance(n@),
            Effect::Run(l, g) => EffectV::Run(l@, g@),
            Effect::Exit => EffectV::Exit,
        }
    }
}

#[derive(Debug)]
pub enum Messages {
    /// The result of storing the settings.
    Save(Result<(), Errors>),
    Startup(startup::Message),
    FolderNotEmptyWarn(folder_warn::Message),
    SingleInstanceWarn(instance_warn::Message),
    Setup(setup::Message),
    Main(main::Message),
    Error(error::Message),
}

/// The application's state: the screen shown, and the setup screen that
/// asked for a save whose result has not come back.
#[derive(Debug)]
pub struct Manager {
    pub current_screen: Screens,
    pub save_origin: Option<Setup>,
}

pub struct ManagerV {
    pub screen: ScreenV,
    pub save_origin: Option<SetupV>,
}

impl View for Manager {
    type V = ManagerV;

    open spec fn view(&self) -> ManagerV {
        ManagerV {
            screen: self.current_screen@,
            save_origin: match self.save_origin {
                Some(s) => Some(s@),
                None => None,
            },
        }
    }
}

/// What a message does to the application: the screen it is meant for
/// handles it, and the step's screen becomes the one shown. A failed save
/// shows its error over the setup screen that asked for it.
pub open spec fn dispatch(m: ManagerV, msg: Messages) -> (EffectV, ManagerV) {
    let unchanged = (EffectV::Nothing, m);
    match msg {
        Messages::Save(Err(e)) => (
            EffectV::Nothing,
            ManagerV {
                screen: ScreenV::Error(
                    e@,
                    Box::new(
                        match m.save_origin {
                            Some(s) => ScreenV::Setup(s),
                            None => m.screen,
                        },
                    ),
                ),
                save_origin: None,
            },
        ),
        Messages::Save(Ok(_)) => (EffectV::Nothing, ManagerV { save_origin: None, ..m }),
        Messages::Startup(x) => match m.screen {
            ScreenV::Startup => {
                let (e, s) = startup_step(x);
                (e, ManagerV { screen: s, ..m })
            },
            _ => unchanged,
        },
        Messages::FolderNotEmptyWarn(x) => match m.screen {
            ScreenV::FolderNotEmptyWarn => {
                let (e, s) = folder_warn_step(x);
                (e, ManagerV { screen: s, ..m })
            },
            _ => unchanged,
        },
        Messages::SingleInstanceWarn(_) => match m.screen {
            ScreenV::SingleInstanceWarn => (EffectV::Exit, m),
            _ => unchanged,
        },
        Messages::Setup(x) => match m.screen {
            ScreenV::Setup(s) => {
                let (e, n) = setup_step(s, x);
                (
                    e,
                    ManagerV {
                        screen: n,
                        save_origin: if e is SaveConfig {
                            Some(s)
                        } else {
                            m.save_origin
                        },
                    },
                )
            },
            _ => unchanged,
        },
        Messages::Main(x) => match m.screen {
            ScreenV::Main(s) => {
                let (e, n) = main_step(s, x);
                (e, ManagerV { screen: n, ..m })
            },
            _ => unchanged,
        },
        Messages::Error(_) => match m.screen {
            ScreenV::Error(_, previous) => (EffectV::Nothing, ManagerV { screen: *previous, ..m }),
            _ => unchanged,
        },
    }
}

impl Manager {
    /// The application at start: the start-up screen, which asks for the load.
    pub fn new() -> (r: (Manager, Effect))
        ensures
            r.0@ == (ManagerV { screen: ScreenV::Startup, save_origin: None }),
            r.1@ == EffectV::Load,
    {
        (Manager { current_screen: Screens::Startup(Startup), save_origin: None }, Effect::Load)
    }

    /// Handles a message as [`dispatch`] states, and returns the outside work
    /// it asks for.
    pub fn update(&mut self, message: Messages) -> (r: Effect)
        ensures
            (r@, final(self)@) == dispatch(old(self)@, message),
    {
        proof {
            reveal_with_fuel(screen_view, 2);
        }
        let mut screen = Screens::Startup(Startup);
        std::mem::swap(&mut self.current_screen, &mut screen);
        match message {
            Messages::Save(Err(e)) => {
                let mut origin: Option<Setup> = None;
                std::mem::swap(&mut self.save_origin, &mut origin);
                let previous = match origin {
                    Some(s) => Screens::Setup(s),
                    None => screen,
                };
                self.current_screen = Screens::Error(Error::new(e, Box::new(previous)));
                Effect::Nothing
            },
            Messages::Save(Ok(())) => {
                self.current_screen = screen;
                self.save_origin = None;
                Effect::Nothing
            },
            Messages::Startup(x) => match screen {
                Screens::Startup(s) => {
                    let (e, next) = s.update(x);
                    self.current_screen = next;
                    e
                },
                other => {
                    self.current_screen = other;
                    Effect::Nothing
                },
            },
            Messages::FolderNotEmptyWarn(x) => match screen {
                Screens::FolderNotEmptyWarn(s) => {
                    let (e, next) = s.update(x);
                    self.current_screen = next;
                    e
                },
                other => {
                    self.current_screen = other;
                    Effect::Nothing
                },
            },
            Messages::SingleInstanceWarn(x) => match screen {
                Screens::SingleInstanceWarn(s) => {
                    let (e, next) = s.update(x);
                    self.current_screen = next;
                    e
                },
                other => {
                    self.current_screen = other;
                    Effect::Nothing
                },
            },
            Messages::Setup(x) => match screen {
                Screens::Setup(s) => {
                    let copy = s.duplicate();
                    let (e, next) = s.update(x);
                    if let Effect::SaveConfig(_) = &e {
                        self.save_origin = Some(copy);
                    }
                    self.current_screen = next;
                    e
                },
                other => {
                    self.current_screen = other;
                    Effect::Nothing
                },
            },
            Messages::Main(x) => match screen {
                Screens::Main(s) => {
                    let (e, next) = s.update(x);
                    self.current_screen = next;
                    e
                },
                other => {
                    self.current_screen = other;
                    Effect::Nothing
                },
            },
            Messages::Error(x) => match screen {
                Screens::Error(s) => {
                    let (e, next) = s.update(x);
                    self.current_screen = next;
                    e
                },
                other => {
                    self.current_screen = other;
                    Effect::Nothing
                },
            },
        }
    }
}

/// Continuing from the setup screen reaches the main screen only with a
/// path that may be taken as the launcher, and then asks for exactly one
/// save, of that path. With a path that does not exist, nothing happens.
pub proof fn lemma_continue_from_setup(m: ManagerV, s: SetupV, probe: PathProbe)
    requires
        m.screen == ScreenV::Setup(s),
    ensures
        ({
            let (e, n) = dispatch(m, Messages::Setup(setup::Message::Continue(probe)));
            &&& !probe.exists ==> e == EffectV::Nothing && n.screen == ScreenV::Setup(s)
            &&& !launcher_ok(s.path, probe) ==> !(n.screen is Main) && !(e is SaveConfig)
            &&& launcher_ok(s.path, probe) ==> e == EffectV::SaveConfig(s.path) && n.screen
                == ScreenV::Main(
                MainV { launcher_path: s.path, instances: s.instances, hovered: (0, false) },
            )
        }),
{
}

/// Where the save that continuing from the setup screen asked for fails, the
/// error is shown over that setup screen, and continuing from the error goes
/// back to exactly that screen.
pub proof fn lemma_failed_save_returns_to_setup(
    m: ManagerV,
    s: SetupV,
    probe: PathProbe,
    failure: Errors,
)
    requires
        m.screen == ScreenV::Setup(s),
        launcher_ok(s.path, probe),
    ensures
        ({
            let m1 = dispatch(m, Messages::Setup(setup::Message::Continue(probe))).1;
            let m2 = dispatch(m1, Messages::Save(Err(failure))).1;
            let m3 = dispatch(m2, Messages::Error(error::Message::Continue)).1;
            &&& m1.screen is Main
            &&& m2.screen == ScreenV::Error(failure@, Box::new(ScreenV::Setup(s)))
            &&& m3.screen == ScreenV::Setup(s)
        }),
{
}

} // verus!
