//! The screen where the user picks the launcher that the application runs.
use vstd::prelude::*;
use vstd::string::*;
use crate::instance::{Instance, InstanceV};
use crate::paths::{extension_of, path_extension};
use crate::screens::{Effect, EffectV, ScreenV, Screens};
use crate::screens::main::{Main, MainV};

verus! {

broadcast use vstd::std_specs::vec::group_vec_axioms;

/// The extension of an executable that may be chosen as the launcher.
pub const EXECUTABLE_EXTENSION: &'static str = "exe";

/// Where the launcher comes from.
#[derive(Debug, Clone, Copy, PartialEq, Eq, Structural)]
pub enum Launcher {
    /// The launcher installed from the store, where one was found.
    Store,
    /// The launcher of the stand-alone installer, where one was found.
    Legacy,
    /// A path that the user types or picks.
    Custom,
}

/// What the file system says of the chosen path at the moment the user
/// asks to continue.
#[derive(Debug, Clone, Copy, PartialEq, Eq, Structural)]
pub struct PathProbe {
    pub exists: bool,
    pub is_file: bool,
}

/// The setup screen: the launchers that were found, the
/// choice made so far, the path it stands for, and the instances that the
/// main screen will show.
#[derive(Debug, Clone)]
pub struct Setup {
    pub store_launcher: Option<String>,
    pub legacy_launcher: Option<String>,
    pub selection: Option<Launcher>,
    pub path: String,
    pub instances: Vec<Instance>,
}

pub struct SetupV {
    pub store: Option<Seq<char>>,
    pub legacy: Option<Seq<char>>,
    pub selection: Option<Launcher>,
    pub path: Seq<char>,
    pub instances: Seq<InstanceV>,
}

pub open spec fn opt_view(o: Option<String>) -> Option<Seq<char>> {
    match o {
        Some(s) => Some(s@),
        None => None,
    }
}

pub open spec fn instances_view(v: Seq<Instance>) -> Seq<InstanceV> {
    v.map_values(|i: Instance| i@)
}

impl View for Setup {
    type V = SetupV;

    open spec fn view(&self) -> SetupV {
        SetupV {
            store: opt_view(self.store_launcher),
            legacy: opt_view(self.legacy_launcher),
            selection: self.selection,
            path: self.path@,
            instances: instances_view(self.instances@),
        }
    }
}

#[derive(Debug, Clone)]
pub enum Message {
    LauncherSelected(Launcher),
    LauncherPathChanged(String),
    Select,
    Selected(Option<String>),
    Continue(PathProbe),
}

/// A path may be taken as the launcher: it exists, is a file, and has the
/// executable extension.
pub open spec fn launcher_ok(path: Seq<char>, probe: PathProbe) -> bool {
    probe.exists && probe.is_file && extension_of(path) == Some(EXECUTABLE_EXTENSION@)
}

/// The choice that a freshly opened setup screen starts with: the store
/// launcher where one was found, else the legacy one, else none.
pub open spec fn initial_choice(store: Option<Seq<char>>, legacy: Option<Seq<char>>) -> (
    Option<Launcher>,
    Seq<char>,
) {
    match (store, legacy) {
        (Some(p), _) => (Some(Launcher::Store), p),
        (None, Some(p)) => (Some(Launcher::Legacy), p),
        (None, None) => (None, Seq::empty()),
    }
}

/// What a message does on the setup screen.
pub open spec fn setup_step(s: SetupV, m: Message) -> (EffectV, ScreenV) {
    match m {
        Message::LauncherSelected(l) => {
            let path = match l {
                Launcher::Store => match s.store {
                    Some(p) => p,
                    None => Seq::empty(),
                },
                Launcher::Legacy => match s.legacy {
                    Some(p) => p,
                    None => Seq::empty(),
                },
                Launcher::Custom => s.path,
            };
            (EffectV::Nothing, ScreenV::Setup(SetupV { selection: Some(l), path, ..s }))
        },
        Message::LauncherPathChanged(p) => (
            EffectV::Nothing,
            ScreenV::Setup(SetupV { path: p@, ..s }),
        ),
        Message::Select => (EffectV::SelectLauncher, ScreenV::Setup(s)),
        Message::Selected(Some(p)) => (EffectV::Nothing, ScreenV::Setup(SetupV { path: p@, ..s })),
        Message::Selected(None) => (EffectV::Nothing, ScreenV::Setup(s)),
        Message::Continue(probe) => if launcher_ok(s.path, probe) {
            (
                EffectV::SaveConfig(s.path),
                ScreenV::Main(MainV { launcher_path: s.path, instances: s.instances, hovered: (0, false) }),
            )
        } else {
            (EffectV::Nothing, ScreenV::Setup(s))
        },
    }
}

fn copy_opt(o: &Option<String>) -> (r: Option<String>)
    ensures
        opt_view(r) == opt_view(*o),
{
    match o {
        Some(s) => Some(s.clone()),
        None => None,
    }
}

impl Setup {
    /// A setup screen for the launchers found: the store one if any, else the
    /// legacy one, is chosen at first.
    pub fn new(store: Option<String>, legacy: Option<String>, instances: Vec<Instance>) -> (r: Setup)
        ensures
            r@.store == opt_view(store),
            r@.legacy == opt_view(legacy),
            (r@.selection, r@.path) == initial_choice(opt_view(store), opt_view(legacy)),
            r@.instances == instances_view(instances@),
    {
        let (selection, path) = match (&store, &legacy) {
            (Some(p), _) => (Some(Launcher::Store), p.clone()),
            (None, Some(p)) => (Some(Launcher::Legacy), p.clone()),
            (None, None) => (None, String::new()),
        };
        Setup { store_launcher: store, legacy_launcher: legacy, selection, path, instances }
    }

    /// Whether the chosen path may be taken as the launcher, given what the
    /// file system says of it.
    pub fn can_continue(&self, probe: PathProbe) -> (r: bool)
        ensures
            r == launcher_ok(self.path@, probe),
    {
        if !(probe.exists && probe.is_file) {
            return false;
        }
        match path_extension(self.path.as_str()) {
            Some(e) => {
                let exe = String::from_str(EXECUTABLE_EXTENSION);
                e == exe
            },
            None => false,
        }
    }

    /// A copy of this screen.
    pub fn duplicate(&self) -> (r: Setup)
        ensures
            r@ == self@,
    {
        let mut instances: Vec<Instance> = Vec::new();
        let mut i: usize = 0;
        while i < self.instances.len()
            invariant
                i <= self.instances@.len(),
                instances@.len() == i,
                forall|j: int| 0 <= j < i ==> instances@[j]@ == self.instances@[j]@,
            decreases self.instances@.len() - i,
        {
            instances.push(self.instances[i].duplicate());
            i = i + 1;
        }
        assert(instances_view(instances@) =~= instances_view(self.instances@));
        Setup {
            store_launcher: copy_opt(&self.store_launcher),
            legacy_launcher: copy_opt(&self.legacy_launcher),
            selection: self.selection,
            path: self.path.clone(),
            instances,
        }
    }

    /// Handles a message: a choice of launcher sets the path to the launcher
    /// found (a custom choice keeps the path); a typed or picked path replaces
    /// it; continuing with a path that may be taken as the launcher moves to
    /// the main screen and saves the choice, and does nothing otherwise.
    pub fn update(self, message: Message) -> (r: (Effect, Screens))
        ensures
            (r.0@, r.1@) == setup_step(self@, message),
    {
        let ghost s = self@;
        let ghost m = message;
        match message {
            Message::LauncherSelected(l) => {
                let mut next = self;
                next.selection = Some(l);
                match l {
                    Launcher::Store => {
                        next.path = match &next.store_launcher {
                            Some(p) => p.clone(),
                            None => String::new(),
                        };
                    },
                    Launcher::Legacy => {
                        next.path = match &next.legacy_launcher {
                            Some(p) => p.clone(),
                            None => String::new(),
                        };
                    },
                    Launcher::Custom => {},
                }
                (Effect::Nothing, Screens::Setup(next))
            },
            Message::LauncherPathChanged(p) => {
                let mut next = self;
                next.path = p;
                (Effect::Nothing, Screens::Setup(next))
            },
            Message::Select => (Effect::SelectLauncher, Screens::Setup(self)),
            Message::Selected(Some(p)) => {
                let mut next = self;
                next.path = p;
                (Effect::Nothing, Screens::Setup(next))
            },
            Message::Selected(None) => (Effect::Nothing, Screens::Setup(self)),
            Message::Continue(probe) => {
                if self.can_continue(probe) {
                    let saved = self.path.clone();
                    (Effect::SaveConfig(saved), Screens::Main(Main::new(self.path, self.instances)))
                } else {
                    (Effect::Nothing, Screens::Setup(self))
                }
            },
        }
    }
}

} // verus!
