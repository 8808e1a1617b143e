//! The edit that the launcher's profile file receives before a launch: a
//! custom profile, under a key of its own, that points the game at an
//! instance directory.
use vstd::prelude::*;
use vstd::string::*;
use crate::error::Errors;
use crate::json::{
    entries_view, lemma_absent_key, lemma_first_key, lemma_object_view, lemma_upsert_keeps, lemma_upsert_other, lemma_upsert_same, lookup, position, set_entry,
    upsert, Json, JsonV,
};

verus! {

broadcast use vstd::std_specs::vec::group_vec_axioms;

/// The key of the object that holds the launcher's profiles.
pub const PROFILES_KEY: &'static str = "profiles";

/// The key of this application's own profile.
pub const PROFILE_ID: &'static str = "aethon";

pub const PROFILE_NAME: &'static str = "Aethon";

pub const PROFILE_TYPE: &'static str = "custom";

pub const PROFILE_VERSION: &'static str = "latest-release";

/// The profile's icon: a small PNG, as a data URL.
pub const PROFILE_ICON: &'static str = "data:image/png;base64,iVBORw0KGgoAAAANSUhEUgAAAIAAAACAAQMAAAD58POIAAAABlBMVEUAAAD4APit1uGJAAAAI0lEQVRIx2P4DwUMMDAqMCowKjAqQKTAaDCMCowKjAqQKQAABpD8LlM5SL4AAAAASUVORK5CYII";

/// The profile entry for a game directory.
pub open spec fn profile_entry(game_dir: Seq<char>) -> JsonV {
    JsonV::Object(
        seq![
            ("name"@, JsonV::Str(PROFILE_NAME@)),
            ("type"@, JsonV::Str(PROFILE_TYPE@)),
            ("icon"@, JsonV::Str(PROFILE_ICON@)),
            ("lastVersionId"@, JsonV::Str(PROFILE_VERSION@)),
            ("gameDir"@, JsonV::Str(game_dir)),
        ],
    )
}

/// The profiles that a document's top level holds: none where `profiles` is
/// missing or is not an object.
pub open spec fn profiles_of(top: Seq<(Seq<char>, JsonV)>) -> Seq<(Seq<char>, JsonV)> {
    match lookup(top, PROFILES_KEY@) {
        Some(JsonV::Object(p)) => p,
        _ => Seq::empty(),
    }
}

/// A document's top-level entries once the profile for `game_dir` is set.
pub open spec fn with_profile(top: Seq<(Seq<char>, JsonV)>, game_dir: Seq<char>) -> Seq<
    (Seq<char>, JsonV),
> {
    upsert(
        top,
        PROFILES_KEY@,
        JsonV::Object(upsert(profiles_of(top), PROFILE_ID@, profile_entry(game_dir))),
    )
}

/// The edited document; none where the document is neither an object nor
/// `null` (which reads as an empty object).
pub open spec fn add_profile_spec(doc: JsonV, game_dir: Seq<char>) -> Option<JsonV> {
    match doc {
        JsonV::Object(top) => Some(JsonV::Object(with_profile(top, game_dir))),
        JsonV::Null => Some(JsonV::Object(with_profile(Seq::empty(), game_dir))),
        _ => None,
    }
}

fn text(s: &str) -> (r: Json)
    ensures
        r@ == JsonV::Str(s@),
{
    Json::Str(String::from_str(s))
}

/// The profile entry for `game_dir`, as [`profile_entry`] states.
pub fn new_profile_entry(game_dir: &str) -> (r: Json)
    ensures
        r@ == profile_entry(game_dir@),
{
    let mut e: Vec<(String, Json)> = Vec::new();
    e.push((String::from_str("name"), text(PROFILE_NAME)));
    e.push((String::from_str("type"), text(PROFILE_TYPE)));
    e.push((String::from_str("icon"), text(PROFILE_ICON)));
    e.push((String::from_str("lastVersionId"), text(PROFILE_VERSION)));
    e.push((String::from_str("gameDir"), text(game_dir)));
    proof {
        lemma_object_view(e);
        assert(entries_view(e@) =~= profile_entry(game_dir@)->Object_0);
    }
    Json::Object(e)
}

/// Sets this application's profile in the launcher's profile document, so
/// that it runs the game in `game_dir`. A missing `profiles` entry, or one
/// that is not an object, is replaced by an object; every other entry stays
/// as it was.
pub fn add_profile(doc: Json, game_dir: &str) -> (r: Result<Json, Errors>)
    ensures
        match add_profile_spec(doc@, game_dir@) {
            Some(v) => r is Ok && r->Ok_0@ == v,
            None => r is Err && r->Err_0 is Json,
        },
{
    let ghost d = doc@;
    let mut top: Vec<(String, Json)> = match doc {
        Json::Object(e) => {
            proof {
                lemma_object_view(e);
            }
            e
        },
        Json::Null => Vec::new(),
        _ => {
            return Err(Errors::Json(String::from_str("the profile document is not an object")));
        },
    };
    let ghost t = entries_view(top@);
    assert(d is Object ==> t == d->Object_0);
    assert(d is Null ==> t =~= Seq::<(Seq<char>, JsonV)>::empty());
    let key = String::from_str(PROFILES_KEY);
    let i = position(&top, &key);
    let mut profiles: Vec<(String, Json)> = Vec::new();
    if i < top.len() {
        assert(t[i as int].0 == key@);
        proof {
            lemma_first_key(t, key@, i as int, JsonV::Null);
        }
        let (k, old) = top.remove(i);
        match old {
            Json::Object(p) => {
                proof {
                    lemma_object_view(p);
                }
                profiles = p;
            },
            _ => {},
        }
        assert(entries_view(profiles@) == profiles_of(t));
        set_entry(&mut profiles, String::from_str(PROFILE_ID), new_profile_entry(game_dir));
        let ghost pv = entries_view(profiles@);
        proof {
            lemma_object_view(profiles);
            lemma_first_key(t, key@, i as int, JsonV::Object(pv));
        }
        top.insert(i, (k, Json::Object(profiles)));
        assert(entries_view(top@) =~= t.update(i as int, (key@, JsonV::Object(pv))));
    } else {
        proof {
            lemma_absent_key(t, key@, JsonV::Null);
        }
        assert(entries_view(profiles@) =~= profiles_of(t));
        set_entry(&mut profiles, String::from_str(PROFILE_ID), new_profile_entry(game_dir));
        let ghost pv = entries_view(profiles@);
        proof {
            lemma_object_view(profiles);
            lemma_absent_key(t, key@, JsonV::Object(pv));
        }
        top.push((key, Json::Object(profiles)));
        assert(entries_view(top@) =~= t.push((key@, JsonV::Object(pv))));
    }
    proof {
        lemma_object_view(top);
    }
    Ok(Json::Object(top))
}

/// The game directory that a profile entry names.
pub open spec fn game_dir_of(entry: JsonV) -> Option<JsonV> {
    match entry {
        JsonV::Object(fields) => lookup(fields, "gameDir"@),
        _ => None,
    }
}

pub proof fn lemma_entry_game_dir(game_dir: Seq<char>)
    ensures
        game_dir_of(profile_entry(game_dir)) == Some(JsonV::Str(game_dir)),
{
    reveal_strlit("name");
    reveal_strlit("type");
    reveal_strlit("icon");
    reveal_strlit("lastVersionId");
    reveal_strlit("gameDir");
    let f = profile_entry(game_dir)->Object_0;
    let f1 = f.drop_first();
    let f2 = f1.drop_first();
    let f3 = f2.drop_first();
    let f4 = f3.drop_first();
    assert(f[0].0 == "name"@ && f1[0].0 == "type"@ && f2[0].0 == "icon"@ && f3[0].0
        == "lastVersionId"@);
    assert("gameDir"@.len() == 7);
    assert("name"@.len() == 4 && "type"@.len() == 4 && "icon"@.len() == 4);
    assert("lastVersionId"@.len() == 13);
    assert(f4[0] == ("gameDir"@, JsonV::Str(game_dir)));
    assert(lookup(f3, "gameDir"@) == lookup(f4, "gameDir"@));
    assert(lookup(f2, "gameDir"@) == lookup(f3, "gameDir"@));
    assert(lookup(f1, "gameDir"@) == lookup(f2, "gameDir"@));
    assert(lookup(f, "gameDir"@) == lookup(f1, "gameDir"@));
}

/// A document without a `profiles` entry gains one that holds this
/// application's profile, whose game directory is `game_dir`; every other
/// top-level entry keeps its value.
pub proof fn lemma_profile_added(top: Seq<(Seq<char>, JsonV)>, game_dir: Seq<char>)
    requires
        lookup(top, PROFILES_KEY@) is None,
    ensures
        ({
            let r = add_profile_spec(JsonV::Object(top), game_dir)->Some_0->Object_0;
            &&& lookup(r, PROFILES_KEY@) is Some
            &&& lookup(r, PROFILES_KEY@)->Some_0 is Object
            &&& lookup(lookup(r, PROFILES_KEY@)->Some_0->Object_0, PROFILE_ID@) == Some(
                profile_entry(game_dir),
            )
            &&& game_dir_of(profile_entry(game_dir)) == Some(JsonV::Str(game_dir))
            &&& forall|k: Seq<char>| k != PROFILES_KEY@ ==> lookup(r, k) == lookup(top, k)
        }),
{
    lemma_profile_set(top, game_dir);
}

/// Setting the profile in a document changes nothing but this application's
/// own entry under `profiles`: every other profile keeps its place and value,
/// and every other top-level entry keeps its value.
pub proof fn lemma_profile_set(top: Seq<(Seq<char>, JsonV)>, game_dir: Seq<char>)
    ensures
        ({
            let r = add_profile_spec(JsonV::Object(top), game_dir)->Some_0->Object_0;
            let before = profiles_of(top);
            let after = upsert(before, PROFILE_ID@, profile_entry(game_dir));
            &&& lookup(r, PROFILES_KEY@) == Some(JsonV::Object(after))
            &&& lookup(after, PROFILE_ID@) == Some(profile_entry(game_dir))
            &&& game_dir_of(profile_entry(game_dir)) == Some(JsonV::Str(game_dir))
            &&& forall|k: Seq<char>| k != PROFILE_ID@ ==> lookup(after, k) == lookup(before, k)
            &&& after.len() >= before.len()
            &&& forall|i: int|
                0 <= i < before.len() && before[i].0 != PROFILE_ID@ ==> after[i] == before[i]
            &&& forall|k: Seq<char>| k != PROFILES_KEY@ ==> lookup(r, k) == lookup(top, k)
        }),
{
    let before = profiles_of(top);
    let entry = profile_entry(game_dir);
    let after = upsert(before, PROFILE_ID@, entry);
    lemma_upsert_same(top, PROFILES_KEY@, JsonV::Object(after));
    lemma_upsert_same(before, PROFILE_ID@, entry);
    lemma_upsert_keeps(before, PROFILE_ID@, entry);
    lemma_entry_game_dir(game_dir);
    assert forall|k: Seq<char>| k != PROFILE_ID@ implies lookup(after, k) == lookup(before, k) by {
        lemma_upsert_other(before, PROFILE_ID@, entry, k);
    }
    assert forall|k: Seq<char>| k != PROFILES_KEY@ implies lookup(
        upsert(top, PROFILES_KEY@, JsonV::Object(after)),
        k,
    ) == lookup(top, k) by {
        lemma_upsert_other(top, PROFILES_KEY@, JsonV::Object(after), k);
    }
}

} // verus!
