//! Instances: isolated game directories, each with a metadata file that
//! names it.
use vstd::prelude::*;
use vstd::string::*;
use crate::error::{Errors, ErrorsV};
use crate::json::{entries_view, lemma_object_view, lookup, position, Json, JsonV};
use crate::naming::{
    candidate, folder_for, is_first_free, lemma_first_free_unique, names_of, unique_folder_name,
};
use crate::paths::{join_path, joined, parent_dir, parent_of};

verus! {

broadcast use vstd::std_specs::vec::group_vec_axioms;

/// The file, inside an instance's directory, that holds its metadata.
pub const METADATA_FILE: &'static str = "instance.json";

/// The message of a metadata document that lacks its fields.
pub const BAD_METADATA: &'static str = "instance metadata needs `name` and `folder` as text";

/// An instance: the name the user gave it, the name of its folder under the
/// instances directory, and the directory where it now lies.
#[derive(Debug, Clone, PartialEq)]
pub struct Instance {
    name: String,
    folder: String,
    path: String,
}

pub struct InstanceV {
    pub name: Seq<char>,
    pub folder: Seq<char>,
    pub path: Seq<char>,
}

impl View for Instance {
    type V = InstanceV;

    closed spec fn view(&self) -> InstanceV {
        InstanceV { name: self.name@, folder: self.folder@, path: self.path@ }
    }
}

/// The metadata document of an instance. The directory is not written: it
/// is wherever the document is found.
pub open spec fn metadata_doc(name: Seq<char>, folder: Seq<char>) -> JsonV {
    JsonV::Object(seq![("name"@, JsonV::Str(name)), ("folder"@, JsonV::Str(folder))])
}

/// The text stored under `key` in an object.
pub open spec fn text_field(doc: JsonV, key: Seq<char>) -> Option<Seq<char>> {
    match doc {
        JsonV::Object(e) => match lookup(e, key) {
            Some(JsonV::Str(s)) => Some(s),
            _ => None,
        },
        _ => None,
    }
}

/// The instance that the metadata document `doc`, read from the file
/// `file`, describes; its directory is the file's parent.
pub open spec fn load_spec(doc: JsonV, file: Seq<char>) -> Result<InstanceV, ErrorsV> {
    match (text_field(doc, "name"@), text_field(doc, "folder"@)) {
        (Some(name), Some(folder)) => match parent_of(file) {
            Some(path) => Ok(InstanceV { name, folder, path }),
            None => Err(ErrorsV::NoParent),
        },
        _ => Err(ErrorsV::Json(BAD_METADATA@)),
    }
}

pub open spec fn instance_result(r: Result<Instance, Errors>) -> Result<InstanceV, ErrorsV> {
    match r {
        Ok(i) => Ok(i@),
        Err(e) => Err(e@),
    }
}

impl Errors {
    /// A copy of this failure.
    pub fn duplicate(&self) -> (r: Errors)
        ensures
            r@ == self@,
    {
        match self {
            Errors::Io(k) => Errors::Io(k.clone()),
            Errors::Json(m) => Errors::Json(m.clone()),
            Errors::NoParent => Errors::NoParent,
        }
    }
}

fn text_of(doc: &Json, key: &str) -> (r: Option<String>)
    ensures
        match r {
            Some(s) => text_field(doc@, key@) == Some(s@),
            None => text_field(doc@, key@) is None,
        },
{
    match doc {
        Json::Object(e) => {
            proof {
                lemma_object_view(*e);
            }
            let k = String::from_str(key);
            let i = position(e, &k);
            if i < e.len() {
                proof {
                    let ev = entries_view(e@);
                    assert(ev[i as int].0 == key@);
                    assert forall|j: int| 0 <= j < i implies ev[j].0 != key@ by {}
                    crate::json::lemma_first_key(ev, key@, i as int, JsonV::Null);
                }
                match &e[i].1 {
                    Json::Str(s) => Some(s.clone()),
                    _ => None,
                }
            } else {
                proof {
                    let ev = entries_view(e@);
                    assert forall|j: int| 0 <= j < ev.len() implies ev[j].0 != key@ by {}
                    crate::json::lemma_absent_key(ev, key@, JsonV::Null);
                }
                None
            }
        },
        _ => None,
    }
}

impl Instance {
    /// A new instance called `name` under the instances directory `root`,
    /// which already holds the entries `taken`. Its folder is `name`, or
    /// `name` with the first counter `" (N)"` that makes it free.
    pub fn new(name: &str, root: &str, taken: &Vec<String>) -> (r: Instance)
        ensures
            r@.name == name@,
            r@.folder == folder_for(name@, names_of(taken@)),
            r@.path == joined(root@, r@.folder),
    {
        let folder = unique_folder_name(name, taken);
        let path = join_path(root, folder.as_str());
        Instance { name: String::from_str(name), folder, path }
    }

    /// The metadata document that is stored for this instance.
    pub fn to_json(&self) -> (r: Json)
        ensures
            r@ == metadata_doc(self@.name, self@.folder),
    {
        let mut e: Vec<(String, Json)> = Vec::new();
        e.push((String::from_str("name"), Json::Str(self.name.clone())));
        e.push((String::from_str("folder"), Json::Str(self.folder.clone())));
        proof {
            lemma_object_view(e);
            assert(entries_view(e@) =~= metadata_doc(self.name@, self.folder@)->Object_0);
        }
        Json::Object(e)
    }

    /// The instance that the metadata document `doc`, read from `file`,
    /// describes. Its directory is taken from where the file lies, never from
    /// the document.
    pub fn load(doc: &Json, file: &str) -> (r: Result<Instance, Errors>)
        ensures
            instance_result(r) == load_spec(doc@, file@),
    {
        let name = text_of(doc, "name");
        let folder = text_of(doc, "folder");
        match (name, folder) {
            (Some(name), Some(folder)) => match parent_dir(file) {
                Some(path) => Ok(Instance { name, folder, path }),
                None => Err(Errors::NoParent),
            },
            _ => Err(Errors::Json(String::from_str(BAD_METADATA))),
        }
    }

    pub fn name(&self) -> (r: &str)
        ensures
            r@ == self@.name,
    {
        self.name.as_str()
    }

    pub fn folder(&self) -> (r: &str)
        ensures
            r@ == self@.folder,
    {
        self.folder.as_str()
    }

    pub fn path(&self) -> (r: &str)
        ensures
            r@ == self@.path,
    {
        self.path.as_str()
    }

    /// A copy of this instance.
    pub fn duplicate(&self) -> (r: Instance)
        ensures
            r@ == self@,
    {
        Instance { name: self.name.clone(), folder: self.folder.clone(), path: self.path.clone() }
    }
}

/// What a scan of the instances directory found in one of its entries.
#[derive(Debug)]
pub enum Scanned {
    /// No metadata file: the entry is not an instance, and is passed over.
    NoMetadata,
    /// Listing the entry, or reading or parsing its metadata file, failed.
    Failed(Errors),
    /// The metadata document, read from `file`.
    Metadata { file: String, doc: Json },
}

/// What one scanned entry gives: nothing, an instance, or a failure.
pub open spec fn scanned_result(s: Scanned) -> Option<Result<InstanceV, ErrorsV>> {
    match s {
        Scanned::NoMetadata => None,
        Scanned::Failed(e) => Some(Err(e@)),
        Scanned::Metadata { file, doc } => Some(load_spec(doc@, file@)),
    }
}

/// The instances of a scan, in its order, or the first failure met.
pub open spec fn collect_spec(s: Seq<Scanned>) -> Result<Seq<InstanceV>, ErrorsV>
    decreases s.len(),
{
    if s.len() == 0 {
        Ok(Seq::empty())
    } else {
        match collect_spec(s.drop_last()) {
            Err(e) => Err(e),
            Ok(found) => match scanned_result(s.last()) {
                None => Ok(found),
                Some(Ok(i)) => Ok(found.push(i)),
                Some(Err(e)) => Err(e),
            },
        }
    }
}

pub open spec fn instances_result(r: Result<Vec<Instance>, Errors>) -> Result<
    Seq<InstanceV>,
    ErrorsV,
> {
    match r {
        Ok(v) => Ok(v@.map_values(|i: Instance| i@)),
        Err(e) => Err(e@),
    }
}

/// The instances that a scan of the instances directory found, in the
/// scan's order. Entries without metadata are passed over; the first
/// failure ends the scan and is returned.
pub fn collect_instances(scan: &Vec<Scanned>) -> (r: Result<Vec<Instance>, Errors>)
    ensures
        instances_result(r) == collect_spec(scan@),
{
    let mut found: Vec<Instance> = Vec::new();
    let mut i: usize = 0;
    assert(scan@.subrange(0, 0) =~= Seq::<Scanned>::empty());
    assert(found@.map_values(|x: Instance| x@) =~= Seq::<InstanceV>::empty());
    while i < scan.len()
        invariant
            i <= scan@.len(),
            collect_spec(scan@.subrange(0, i as int)) == Ok::<Seq<InstanceV>, ErrorsV>(
                found@.map_values(|x: Instance| x@),
            ),
        decreases scan@.len() - i,
    {
        let ghost before = found@.map_values(|x: Instance| x@);
        let ghost prefix = scan@.subrange(0, i as int + 1);
        assert(prefix.drop_last() =~= scan@.subrange(0, i as int));
        assert(prefix.last() == scan@[i as int]);
        match &scan[i] {
            Scanned::NoMetadata => {},
            Scanned::Failed(e) => {
                assert(scan@.subrange(0, scan@.len() as int) =~= scan@);
                proof {
                    lemma_collect_stops(scan@, i as int + 1);
                }
                return Err(e.duplicate());
            },
            Scanned::Metadata { file, doc } => {
                match Instance::load(doc, file.as_str()) {
                    Ok(inst) => {
                        found.push(inst);
                        assert(found@.map_values(|x: Instance| x@) =~= before.push(inst@));
                    },
                    Err(e) => {
                        assert(scan@.subrange(0, scan@.len() as int) =~= scan@);
                        proof {
                            lemma_collect_stops(scan@, i as int + 1);
                        }
                        return Err(e);
                    },
                }
            },
        }
        i = i + 1;
    }
    assert(scan@.subrange(0, i as int) =~= scan@);
    Ok(found)
}

/// Once a prefix of a scan fails, the whole scan fails in the same way.
pub proof fn lemma_collect_stops(s: Seq<Scanned>, n: int)
    requires
        0 <= n <= s.len(),
        collect_spec(s.subrange(0, n)) is Err,
    ensures
        collect_spec(s) == collect_spec(s.subrange(0, n)),
    decreases s.len() - n,
{
    if n < s.len() {
        let p = s.subrange(0, n + 1);
        assert(p.drop_last() =~= s.subrange(0, n));
        lemma_collect_stops(s, n + 1);
    } else {
        assert(s.subrange(0, n) =~= s);
    }
}

/// Two instances created with the same name, the second beside the first,
/// get the folders `name` and `"name (1)"`.
pub proof fn lemma_same_name_twice(name: Seq<char>, taken: Set<Seq<char>>)
    requires
        !taken.contains(name),
        !taken.contains(name + " (1)"@),
    ensures
        folder_for(name, taken) == name,
        folder_for(name, taken.insert(name)) == name + " (1)"@,
{
    reveal_strlit(" (1)");
    let second = taken.insert(name);
    assert(candidate(name, 1) =~= name + " (1)"@);
    assert(is_first_free(name, taken, 0));
    lemma_first_free_unique(name, taken, 0);
    assert forall|j: nat| j < 1 implies second.contains(candidate(name, j)) by {}
    assert(name + " (1)"@ != name) by {
        assert((name + " (1)"@).len() != name.len());
    }
    assert(is_first_free(name, second, 1));
    lemma_first_free_unique(name, second, 1);
}

/// The metadata document of an instance, read back from a file, gives the
/// same name and folder, and the file's directory.
pub proof fn lemma_metadata_round_trip(name: Seq<char>, folder: Seq<char>, file: Seq<char>)
    requires
        parent_of(file) is Some,
    ensures
        load_spec(metadata_doc(name, folder), file) == Ok::<InstanceV, ErrorsV>(
            InstanceV { name, folder, path: parent_of(file)->Some_0 },
        ),
{
    reveal_strlit("name");
    reveal_strlit("folder");
    let e = metadata_doc(name, folder)->Object_0;
    assert("name"@.len() != "folder"@.len());
    assert(e[0].0 == "name"@);
    assert(e.drop_first()[0] == ("folder"@, JsonV::Str(folder)));
    assert(lookup(e, "folder"@) == lookup(e.drop_first(), "folder"@));
}

/// The directory of a loaded instance is where its metadata file now lies:
/// the same document read from another place gives the same instance, in
/// that place.
pub proof fn lemma_path_from_location(doc: JsonV, file: Seq<char>, moved: Seq<char>)
    requires
        load_spec(doc, file) is Ok,
        parent_of(moved) is Some,
    ensures
        load_spec(doc, moved) is Ok,
        load_spec(doc, moved)->Ok_0.name == load_spec(doc, file)->Ok_0.name,
        load_spec(doc, moved)->Ok_0.folder == load_spec(doc, file)->Ok_0.folder,
        load_spec(doc, moved)->Ok_0.path == parent_of(moved)->Some_0,
{
}

/// A scan that finds one instance and one entry without metadata, in either
/// order, gives exactly that one instance.
pub proof fn lemma_foreign_entry_skipped(valid: Scanned, foreign: Scanned)
    requires
        scanned_result(valid) matches Some(Ok(_)),
        foreign is NoMetadata,
    ensures
        collect_spec(seq![valid, foreign]) == Ok::<Seq<InstanceV>, ErrorsV>(
            seq![scanned_result(valid)->Some_0->Ok_0],
        ),
        collect_spec(seq![foreign, valid]) == Ok::<Seq<InstanceV>, ErrorsV>(
            seq![scanned_result(valid)->Some_0->Ok_0],
        ),
{
    let a = seq![valid, foreign];
    let b = seq![foreign, valid];
    assert(a.drop_last() =~= seq![valid]);
    assert(seq![valid].drop_last() =~= Seq::<Scanned>::empty());
    assert(b.drop_last() =~= seq![foreign]);
    assert(seq![foreign].drop_last() =~= Seq::<Scanned>::empty());
    let inst = scanned_result(valid)->Some_0->Ok_0;
    let none = Seq::<InstanceV>::empty();
    assert(none.push(inst) =~= seq![inst]);
    assert(collect_spec(Seq::<Scanned>::empty()) == Ok::<Seq<InstanceV>, ErrorsV>(none));
    assert(seq![valid].last() == valid);
    assert(collect_spec(seq![valid]) == Ok::<Seq<InstanceV>, ErrorsV>(seq![inst]));
    assert(collect_spec(seq![foreign]) == Ok::<Seq<InstanceV>, ErrorsV>(none));
    assert(a.last() == foreign);
    assert(b.last() == valid);
}

} // verus!
