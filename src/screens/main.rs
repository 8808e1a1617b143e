//! The main screen: the instances, each of which can be run, and a button
//! that adds one.
use vstd::prelude::*;
use vstd::string::*;
use crate::error::Errors;
use crate::instance::{Instance, InstanceV};
use crate::screens::{screen_view, Effect, EffectV, ScreenV, Screens};
use crate::screens::error::Error;
use crate::screens::setup::instances_view;

verus! {

broadcast use vstd::std_specs::vec::group_vec_axioms;

/// The name that an instance added from the main screen receives.
pub const NEW_INSTANCE_NAME: &'static str = "Test";

/// The main screen: the launcher to run, the instances, and which card was
/// last asked to run.
#[derive(Debug, Clone)]
pub struct Main {
    pub launcher_path: String,
    pub instances: Vec<Instance>,
    /// The card last asked to run, and whether it shows as hovered.
    pub hovered_index: usize,
    pub hovered: bool,
}

pub struct MainV {
    pub launcher_path: Seq<char>,
    pub instances: Seq<InstanceV>,
    pub hovered: (usize, bool),
}

impl View for Main {
    type V = MainV;

    open spec fn view(&self) -> MainV {
        MainV {
            launcher_path: self.launcher_path@,
            instances: instances_view(self.instances@),
            hovered: (self.hovered_index, self.hovered),
        }
    }
}

#[derive(Debug)]
pub enum Message {
    AddInstance,
    NewInstance(Result<Instance, Errors>),
    TryRun(usize),
    Run(Result<(), Errors>),
}

/// What a message does on the main screen.
pub open spec fn main_step(s: MainV, m: Message) -> (EffectV, ScreenV) {
    match m {
        Message::AddInstance => (EffectV::CreateInstance(NEW_INSTANCE_NAME@), ScreenV::Main(s)),
        Message::NewInstance(Ok(i)) => (
            EffectV::Nothing,
            ScreenV::Main(MainV { instances: s.instances.push(i@), ..s }),
        ),
        Message::NewInstance(Err(e)) => (
            EffectV::Nothing,
            ScreenV::Error(e@, Box::new(ScreenV::Main(s))),
        ),
        Message::TryRun(i) => if i < s.instances.len() {
            (
                EffectV::Run(s.launcher_path, s.instances[i as int].path),
                ScreenV::Main(MainV { hovered: (i, true), ..s }),
            )
        } else {
            (EffectV::Nothing, ScreenV::Main(s))
        },
        Message::Run(Ok(_)) => (EffectV::Nothing, ScreenV::Main(s)),
        Message::Run(Err(e)) => (EffectV::Nothing, ScreenV::Error(e@, Box::new(ScreenV::Main(s)))),
    }
}

impl Main {
    pub fn new(launcher_path: String, instances: Vec<Instance>) -> (r: Main)
        ensures
            r@ == (MainV {
                launcher_path: launcher_path@,
                instances: instances_view(instances@),
                hovered: (0, false),
            }),
    {
        Main { launcher_path, instances, hovered_index: 0, hovered: false }
    }

    /// Handles a message: adding asks for a new instance, which joins the
    /// list once made; running asks to launch the chosen instance (a card
    /// that does not exist does nothing); a failure of either shows the error
    /// over this screen.
    pub fn update(self, message: Message) -> (r: (Effect, Screens))
        ensures
            (r.0@, r.1@) == main_step(self@, message),
    {
        proof {
            reveal_with_fuel(screen_view, 2);
        }
        let ghost s = self@;
        match message {
            Message::AddInstance => (
                Effect::CreateInstance(String::from_str(NEW_INSTANCE_NAME)),
                Screens::Main(self),
            ),
            Message::NewInstance(Ok(i)) => {
                let mut next = self;
                next.instances.push(i);
                assert(instances_view(next.instances@) =~= s.instances.push(i@));
                (Effect::Nothing, Screens::Main(next))
            },
            Message::NewInstance(Err(e)) => (
                Effect::Nothing,
                Screens::Error(Error { error: e, previous_screen: Box::new(Screens::Main(self)) }),
            ),
            Message::TryRun(i) => {
                if i < self.instances.len() {
                    let launcher = self.launcher_path.clone();
                    let game_dir = String::from_str(self.instances[i].path());
                    let mut next = self;
                    next.hovered_index = i;
                    next.hovered = true;
                    (Effect::Run(launcher, game_dir), Screens::Main(next))
                } else {
                    (Effect::Nothing, Screens::Main(self))
                }
            },
            Message::Run(Ok(())) => (Effect::Nothing, Screens::Main(self)),
            Message::Run(Err(e)) => (
                Effect::Nothing,
                Screens::Error(Error { error: e, previous_screen: Box::new(Screens::Main(self)) }),
            ),
        }
    }
}

} // verus!
