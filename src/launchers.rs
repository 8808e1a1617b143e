//! Where the launcher is looked for on each drive.
use vstd::prelude::*;
use crate::paths::{join_path, joined};

verus! {

/// The store launcher's place, relative to a drive.
pub const STORE_LAUNCHER: &'static str = "XboxGames/Minecraft Launcher/Content/Minecraft.exe";

/// The stand-alone launcher's place, relative to a drive.
pub const LEGACY_LAUNCHER: &'static str =
    "Program Files (x86)/Minecraft Launcher/MinecraftLauncher.exe";

/// A drive, and whether each launcher exists on it.
#[derive(Debug, Clone)]
pub struct Drive {
    pub mount_point: String,
    pub has_store: bool,
    pub has_legacy: bool,
}

/// The store launcher's path on a drive.
pub fn store_launcher_at(drive: &str) -> (r: String)
    ensures
        r@ == joined(drive@, STORE_LAUNCHER@),
{
    join_path(drive, STORE_LAUNCHER)
}

/// The stand-alone launcher's path on a drive.
pub fn legacy_launcher_at(drive: &str) -> (r: String)
    ensures
        r@ == joined(drive@, LEGACY_LAUNCHER@),
{
    join_path(drive, LEGACY_LAUNCHER)
}

/// `r` is the launcher at `part` on the first drive where `holds` is true, or
/// none where it is true of no drive.
pub open spec fn first_launcher(
    drives: Seq<Drive>,
    holds: spec_fn(Drive) -> bool,
    part: Seq<char>,
    r: Option<String>,
) -> bool {
    match r {
        Some(p) => exists|i: int|
            0 <= i < drives.len() && holds(drives[i]) && (forall|j: int|
                0 <= j < i ==> !holds(#[trigger] drives[j])) && p@ == joined(
                drives[i].mount_point@,
                part,
            ),
        None => forall|i: int| 0 <= i < drives.len() ==> !holds(#[trigger] drives[i]),
    }
}

/// The launchers found: the store one and the stand-alone one, each from
/// the first drive, in the given order, that has it.
pub fn get_potential_locations(drives: &Vec<Drive>) -> (r: (Option<String>, Option<String>))
    ensures
        first_launcher(drives@, |d: Drive| d.has_store, STORE_LAUNCHER@, r.0),
        first_launcher(drives@, |d: Drive| d.has_legacy, LEGACY_LAUNCHER@, r.1),
{
    let mut store: Option<String> = None;
    let mut legacy: Option<String> = None;
    let ghost mut si: int = 0;
    let ghost mut li: int = 0;
    let mut i: usize = 0;
    while i < drives.len()
        invariant
            i <= drives@.len(),
            store is None ==> forall|j: int| 0 <= j < i ==> !drives@[j].has_store,
            store is Some ==> 0 <= si < i && drives@[si].has_store && (forall|j: int|
                0 <= j < si ==> !drives@[j].has_store) && store->Some_0@ == joined(
                drives@[si].mount_point@,
                STORE_LAUNCHER@,
            ),
            legacy is None ==> forall|j: int| 0 <= j < i ==> !drives@[j].has_legacy,
            legacy is Some ==> 0 <= li < i && drives@[li].has_legacy && (forall|j: int|
                0 <= j < li ==> !drives@[j].has_legacy) && legacy->Some_0@ == joined(
                drives@[li].mount_point@,
                LEGACY_LAUNCHER@,
            ),
        decreases drives@.len() - i,
    {
        let d = &drives[i];
        if store.is_none() && d.has_store {
            store = Some(store_launcher_at(d.mount_point.as_str()));
            proof {
                si = i as int;
            }
        }
        if legacy.is_none() && d.has_legacy {
            legacy = Some(legacy_launcher_at(d.mount_point.as_str()));
            proof {
                li = i as int;
            }
        }
        i = i + 1;
    }
    (store, legacy)
}

} // verus!
