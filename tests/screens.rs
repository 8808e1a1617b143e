use aethon::error::Errors;
use aethon::instance::Instance;
use aethon::launchers::{get_potential_locations, legacy_launcher_at, store_launcher_at, Drive};
use aethon::screens::error::Error;
use aethon::screens::folder_warn::FolderNotEmptyWarn;
use aethon::screens::main::{Main, NEW_INSTANCE_NAME};
use aethon::screens::setup::{Launcher, PathProbe, Setup};
use aethon::screens::startup::{startup_gate, Startup};
use aethon::screens::{error, folder_warn, instance_warn, main, setup, startup};
use aethon::screens::{Effect, Manager, Messages, Screens};

const FOUND: PathProbe = PathProbe { exists: true, is_file: true };
const MISSING: PathProbe = PathProbe { exists: false, is_file: false };

fn setup_screen(path: &str) -> Setup {
    let mut s = Setup::new(None, None, vec![]);
    s.selection = Some(Launcher::Custom);
    s.path = path.to_string();
    s
}

fn at(screen: Screens) -> Manager {
    Manager { current_screen: screen, save_origin: None }
}

fn setup_path(m: &Manager) -> Option<String> {
    match &m.current_screen {
        Screens::Setup(s) => Some(s.path.clone()),
        _ => None,
    }
}

#[test]
fn manager_starts_with_load() {
    let (m, e) = Manager::new();
    assert!(matches!(m.current_screen, Screens::Startup(_)));
    assert_eq!(e, Effect::Load);
}

#[test]
fn continue_with_missing_path_stays() {
    let mut m = at(Screens::Setup(setup_screen("C:/nowhere/Launcher.exe")));
    let e = m.update(Messages::Setup(setup::Message::Continue(MISSING)));
    assert_eq!(e, Effect::Nothing);
    assert_eq!(setup_path(&m), Some("C:/nowhere/Launcher.exe".to_string()));
}

#[test]
fn continue_needs_executable_file() {
    let mut m = at(Screens::Setup(setup_screen("C:/games/Launcher.txt")));
    assert_eq!(m.update(Messages::Setup(setup::Message::Continue(FOUND))), Effect::Nothing);
    assert!(matches!(m.current_screen, Screens::Setup(_)));
    let mut m = at(Screens::Setup(setup_screen("C:/games/Launcher.exe")));
    let dir = PathProbe { exists: true, is_file: false };
    assert_eq!(m.update(Messages::Setup(setup::Message::Continue(dir))), Effect::Nothing);
    assert!(matches!(m.current_screen, Screens::Setup(_)));
}

#[test]
fn continue_with_launcher_opens_main_and_saves_once() {
    let mut m = at(Screens::Setup(setup_screen("C:/games/Launcher.exe")));
    let e = m.update(Messages::Setup(setup::Message::Continue(FOUND)));
    assert_eq!(e, Effect::SaveConfig("C:/games/Launcher.exe".to_string()));
    match &m.current_screen {
        Screens::Main(main) => {
            assert_eq!(main.launcher_path, "C:/games/Launcher.exe");
            assert!(main.instances.is_empty());
        }
        other => panic!("expected the main screen, got {:?}", other),
    }
}

#[test]
fn failed_save_returns_to_setup() {
    let mut m = at(Screens::Setup(setup_screen("C:/games/Launcher.exe")));
    m.update(Messages::Setup(setup::Message::Continue(FOUND)));
    let e = m.update(Messages::Save(Err(Errors::Io(std::io::ErrorKind::PermissionDenied))));
    assert_eq!(e, Effect::Nothing);
    match &m.current_screen {
        Screens::Error(err) => {
            assert_eq!(err.error, Errors::Io(std::io::ErrorKind::PermissionDenied));
            assert!(matches!(*err.previous_screen, Screens::Setup(_)));
        }
        other => panic!("expected the error screen, got {:?}", other),
    }
    assert_eq!(m.update(Messages::Error(error::Message::Continue)), Effect::Nothing);
    assert_eq!(setup_path(&m), Some("C:/games/Launcher.exe".to_string()));
}

#[test]
fn successful_save_keeps_main() {
    let mut m = at(Screens::Setup(setup_screen("C:/games/Launcher.exe")));
    m.update(Messages::Setup(setup::Message::Continue(FOUND)));
    m.update(Messages::Save(Ok(())));
    assert!(matches!(m.current_screen, Screens::Main(_)));
    assert!(m.save_origin.is_none());
}

#[test]
fn message_for_another_screen_is_dropped() {
    let mut m = at(Screens::Setup(setup_screen("C:/a.exe")));
    assert_eq!(m.update(Messages::Main(main::Message::AddInstance)), Effect::Nothing);
    assert_eq!(setup_path(&m), Some("C:/a.exe".to_string()));
    assert_eq!(m.update(Messages::Error(error::Message::Continue)), Effect::Nothing);
    assert!(matches!(m.current_screen, Screens::Setup(_)));
}

#[test]
fn setup_selection_sets_path() {
    let s = Setup::new(Some("S:/store.exe".to_string()), Some("L:/legacy.exe".to_string()), vec![]);
    assert_eq!(s.selection, Some(Launcher::Store));
    assert_eq!(s.path, "S:/store.exe");
    let (_, next) = s.update(setup::Message::LauncherSelected(Launcher::Legacy));
    let s = match next {
        Screens::Setup(s) => s,
        _ => panic!(),
    };
    assert_eq!(s.path, "L:/legacy.exe");
    let (_, next) = s.update(setup::Message::LauncherSelected(Launcher::Custom));
    let s = match next {
        Screens::Setup(s) => s,
        _ => panic!(),
    };
    assert_eq!(s.selection, Some(Launcher::Custom));
    assert_eq!(s.path, "L:/legacy.exe");
    let (e, next) = s.update(setup::Message::Select);
    assert_eq!(e, Effect::SelectLauncher);
    let s = match next {
        Screens::Setup(s) => s,
        _ => panic!(),
    };
    let (_, next) = s.update(setup::Message::Selected(Some("P:/picked.exe".to_string())));
    let s = match next {
        Screens::Setup(s) => s,
        _ => panic!(),
    };
    assert_eq!(s.path, "P:/picked.exe");
    let (_, next) = s.update(setup::Message::Selected(None));
    let s = match next {
        Screens::Setup(s) => s,
        _ => panic!(),
    };
    assert_eq!(s.path, "P:/picked.exe");
    let (_, next) = s.update(setup::Message::LauncherPathChanged("typed".to_string()));
    match next {
        Screens::Setup(s) => assert_eq!(s.path, "typed"),
        _ => panic!(),
    }
}

#[test]
fn setup_initial_choice() {
    let s = Setup::new(None, Some("L:/legacy.exe".to_string()), vec![]);
    assert_eq!(s.selection, Some(Launcher::Legacy));
    assert_eq!(s.path, "L:/legacy.exe");
    let s = Setup::new(None, None, vec![]);
    assert_eq!(s.selection, None);
    assert_eq!(s.path, "");
    let (_, next) = s.update(setup::Message::LauncherSelected(Launcher::Store));
    match next {
        Screens::Setup(s) => assert_eq!(s.path, ""),
        _ => panic!(),
    }
}

#[test]
fn can_continue_checks_extension() {
    assert!(setup_screen("C:/a/Launcher.exe").can_continue(FOUND));
    assert!(!setup_screen("C:/a/Launcher.EXE").can_continue(FOUND));
    assert!(!setup_screen("C:/a/Launcher").can_continue(FOUND));
    assert!(!setup_screen("C:/a/Launcher.exe").can_continue(MISSING));
}

#[test]
fn main_add_and_run() {
    let main = Main::new("C:/l.exe".to_string(), vec![]);
    let (e, next) = main.update(main::Message::AddInstance);
    assert_eq!(e, Effect::CreateInstance(NEW_INSTANCE_NAME.to_string()));
    let main = match next {
        Screens::Main(m) => m,
        _ => panic!(),
    };
    let inst = Instance::new("Test", "/i", &vec![]);
    let (_, next) = main.update(main::Message::NewInstance(Ok(inst)));
    let main = match next {
        Screens::Main(m) => m,
        _ => panic!(),
    };
    assert_eq!(main.instances.len(), 1);
    let (e, next) = main.update(main::Message::TryRun(0));
    assert_eq!(e, Effect::Run("C:/l.exe".to_string(), "/i/Test".to_string()));
    let main = match next {
        Screens::Main(m) => m,
        _ => panic!(),
    };
    assert_eq!((main.hovered_index, main.hovered), (0, true));
    let (e, next) = main.update(main::Message::TryRun(5));
    assert_eq!(e, Effect::Nothing);
    let main = match next {
        Screens::Main(m) => m,
        _ => panic!(),
    };
    let (_, next) = main.update(main::Message::Run(Err(Errors::Json("bad".to_string()))));
    match next {
        Screens::Error(err) => {
            assert_eq!(err.error, Errors::Json("bad".to_string()));
            assert!(matches!(*err.previous_screen, Screens::Main(_)));
        }
        _ => panic!(),
    }
}

#[test]
fn main_failed_creation_shows_error() {
    let main = Main::new("C:/l.exe".to_string(), vec![]);
    let (e, next) = main.update(main::Message::NewInstance(Err(Errors::NoParent)));
    assert_eq!(e, Effect::Nothing);
    let err = match next {
        Screens::Error(err) => err,
        _ => panic!(),
    };
    assert_eq!(err.error, Errors::NoParent);
    let (_, back) = err.update(error::Message::Continue);
    assert!(matches!(back, Screens::Main(_)));
}

#[test]
fn startup_load_result() {
    let (_, s) = Startup.update(startup::Message::Loaded(Ok(Screens::FolderNotEmptyWarn(
        FolderNotEmptyWarn,
    ))));
    assert!(matches!(s, Screens::FolderNotEmptyWarn(_)));
    let (_, s) = Startup.update(startup::Message::Loaded(Err(Errors::NoParent)));
    match s {
        Screens::Error(Error { error, previous_screen }) => {
            assert_eq!(error, Errors::NoParent);
            assert!(matches!(*previous_screen, Screens::Startup(_)));
        }
        _ => panic!(),
    }
}

#[test]
fn startup_gates() {
    assert!(matches!(startup_gate(false, true, 1), Some(Screens::SingleInstanceWarn(_))));
    assert!(matches!(startup_gate(false, false, 5), Some(Screens::SingleInstanceWarn(_))));
    assert!(matches!(startup_gate(true, false, 2), Some(Screens::FolderNotEmptyWarn(_))));
    assert!(startup_gate(true, false, 1).is_none());
    assert!(startup_gate(true, true, 9).is_none());
}

#[test]
fn warnings_close_and_continue() {
    let mut m = at(Screens::FolderNotEmptyWarn(FolderNotEmptyWarn));
    assert_eq!(m.update(Messages::FolderNotEmptyWarn(folder_warn::Message::Continue)), Effect::LoadSetup);
    assert_eq!(m.update(Messages::FolderNotEmptyWarn(folder_warn::Message::Close)), Effect::Exit);
    let setup = Setup::new(None, None, vec![]);
    m.update(Messages::FolderNotEmptyWarn(folder_warn::Message::Loaded(Ok(setup))));
    assert!(matches!(m.current_screen, Screens::Setup(_)));

    let mut m = at(Screens::SingleInstanceWarn(aethon::screens::instance_warn::SingleInstanceWarn));
    assert_eq!(m.update(Messages::SingleInstanceWarn(instance_warn::Message::Close)), Effect::Exit);
}

#[test]
fn launchers_on_first_drive_that_has_them() {
    let drives = vec![
        Drive { mount_point: "/a".to_string(), has_store: false, has_legacy: true },
        Drive { mount_point: "/b".to_string(), has_store: true, has_legacy: true },
        Drive { mount_point: "/c".to_string(), has_store: true, has_legacy: false },
    ];
    let (store, legacy) = get_potential_locations(&drives);
    assert_eq!(store, Some("/b/XboxGames/Minecraft Launcher/Content/Minecraft.exe".to_string()));
    assert_eq!(
        legacy,
        Some("/a/Program Files (x86)/Minecraft Launcher/MinecraftLauncher.exe".to_string())
    );
    assert_eq!(get_potential_locations(&vec![]), (None, None));
    assert_eq!(store_launcher_at("/d"), "/d/XboxGames/Minecraft Launcher/Content/Minecraft.exe");
    assert_eq!(
        legacy_launcher_at("/d"),
        "/d/Program Files (x86)/Minecraft Launcher/MinecraftLauncher.exe"
    );
}
