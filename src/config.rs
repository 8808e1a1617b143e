//! The application's one setting: the launcher it runs.
use vstd::prelude::*;
use vstd::string::*;
use crate::error::{Errors, ErrorsV};
use crate::json::{entries_view, lemma_absent_key, lemma_first_key, lemma_object_view, lookup, position, Json, JsonV};

verus! {

broadcast use vstd::std_specs::vec::group_vec_axioms;

/// The key under which the launcher's path is stored.
pub const LAUNCHER_KEY: &'static str = "launcher_path";

/// The message of a settings document of the wrong shape.
pub const BAD_CONFIG: &'static str = "the settings need to be an object whose `launcher_path` is text";

/// The settings: the path of the launcher executable, once chosen.
#[derive(Debug, Clone, PartialEq)]
pub struct Config {
    pub launcher_path: Option<String>,
}

pub struct ConfigV {
    pub launcher_path: Option<Seq<char>>,
}

impl View for Config {
    type V = ConfigV;

    open spec fn view(&self) -> ConfigV {
        ConfigV {
            launcher_path: match self.launcher_path {
                Some(p) => Some(p@),
                None => None,
            },
        }
    }
}

/// The settings document: an object with `launcher_path` where a launcher is
/// set, and without it where none is.
pub open spec fn config_doc(c: ConfigV) -> JsonV {
    match c.launcher_path {
        Some(p) => JsonV::Object(seq![(LAUNCHER_KEY@, JsonV::Str(p))]),
        None => JsonV::Object(Seq::empty()),
    }
}

/// The settings that a document holds: `launcher_path` may be missing or
/// `null`, and is otherwise text.
pub open spec fn config_of(doc: JsonV) -> Option<ConfigV> {
    match doc {
        JsonV::Object(e) => match lookup(e, LAUNCHER_KEY@) {
            None => Some(ConfigV { launcher_path: None }),
            Some(JsonV::Null) => Some(ConfigV { launcher_path: None }),
            Some(JsonV::Str(p)) => Some(ConfigV { launcher_path: Some(p) }),
            _ => None,
        },
        _ => None,
    }
}

impl Config {
    /// The settings before any launcher is chosen.
    pub fn new() -> (r: Config)
        ensures
            r@.launcher_path is None,
    {
        Config { launcher_path: None }
    }

    /// The document that stores these settings.
    pub fn to_json(&self) -> (r: Json)
        ensures
            r@ == config_doc(self@),
    {
        let mut e: Vec<(String, Json)> = Vec::new();
        match &self.launcher_path {
            Some(p) => {
                e.push((String::from_str(LAUNCHER_KEY), Json::Str(p.clone())));
            },
            None => {},
        }
        proof {
            lemma_object_view(e);
            assert(entries_view(e@) =~= config_doc(self@)->Object_0);
        }
        Json::Object(e)
    }

    /// The settings that `doc` holds; a failure where it has another shape.
    pub fn from_json(doc: &Json) -> (r: Result<Config, Errors>)
        ensures
            match config_of(doc@) {
                Some(c) => r is Ok && r->Ok_0@ == c,
                None => r is Err && r->Err_0@ == ErrorsV::Json(BAD_CONFIG@),
            },
    {
        match doc {
            Json::Object(e) => {
                proof {
                    lemma_object_view(*e);
                }
                let ghost ev = entries_view(e@);
                let key = String::from_str(LAUNCHER_KEY);
                let i = position(e, &key);
                if i < e.len() {
                    proof {
                        assert(ev[i as int].0 == key@);
                        assert forall|j: int| 0 <= j < i implies ev[j].0 != key@ by {}
                        lemma_first_key(ev, key@, i as int, JsonV::Null);
                    }
                    match &e[i].1 {
                        Json::Null => Ok(Config { launcher_path: None }),
                        Json::Str(p) => Ok(Config { launcher_path: Some(p.clone()) }),
                        _ => Err(Errors::Json(String::from_str(BAD_CONFIG))),
                    }
                } else {
                    proof {
                        assert forall|j: int| 0 <= j < ev.len() implies ev[j].0 != key@ by {}
                        lemma_absent_key(ev, key@, JsonV::Null);
                    }
                    Ok(Config { launcher_path: None })
                }
            },
            _ => Err(Errors::Json(String::from_str(BAD_CONFIG))),
        }
    }
}

/// Stored settings read back are the same settings.
pub proof fn lemma_config_round_trip(c: ConfigV)
    ensures
        config_of(config_doc(c)) == Some(c),
{
    if c.launcher_path is Some {
        let e = config_doc(c)->Object_0;
        assert(lookup(e, LAUNCHER_KEY@) == Some(e[0].1));
    }
}

} // verus!
