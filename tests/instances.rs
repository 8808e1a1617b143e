use aethon::error::Errors;
use aethon::instance::{collect_instances, Instance, Scanned, BAD_METADATA};
use aethon::json::Json;
use aethon::naming::{candidate_text, decimal_text, unique_folder_name};

fn names(v: &[&str]) -> Vec<String> {
    v.iter().map(|s| s.to_string()).collect()
}

fn text(s: &str) -> Json {
    Json::Str(s.to_string())
}

fn meta(name: &str, folder: &str) -> Json {
    Json::Object(vec![("name".to_string(), text(name)), ("folder".to_string(), text(folder))])
}

#[test]
fn decimal_digits() {
    assert_eq!(decimal_text(0), "0");
    assert_eq!(decimal_text(7), "7");
    assert_eq!(decimal_text(10), "10");
    assert_eq!(decimal_text(1234), "1234");
}

#[test]
fn candidates_count_from_one() {
    assert_eq!(candidate_text("World", 0), "World");
    assert_eq!(candidate_text("World", 1), "World (1)");
    assert_eq!(candidate_text("World", 12), "World (12)");
}

#[test]
fn free_name_is_kept() {
    assert_eq!(unique_folder_name("Test", &names(&[])), "Test");
    assert_eq!(unique_folder_name("Test", &names(&["Other", "Test (1)"])), "Test");
}

#[test]
fn taken_names_are_probed_in_order() {
    assert_eq!(unique_folder_name("Test", &names(&["Test"])), "Test (1)");
    assert_eq!(
        unique_folder_name("Test", &names(&["Test (1)", "Test", "Test (2)"])),
        "Test (3)"
    );
    assert_eq!(unique_folder_name("Test", &names(&["Test", "Test (2)"])), "Test (1)");
}

#[test]
fn same_name_twice_then_load_back() {
    let root = "/games/instance";
    let first = Instance::new("My World", root, &names(&[]));
    assert_eq!(first.name(), "My World");
    assert_eq!(first.folder(), "My World");
    assert_eq!(first.path(), "/games/instance/My World");
    let second = Instance::new("My World", root, &names(&[first.folder()]));
    assert_eq!(second.folder(), "My World (1)");
    assert_eq!(second.path(), "/games/instance/My World (1)");

    for inst in [&first, &second] {
        let file = format!("{}/instance.json", inst.path());
        let back = Instance::load(&inst.to_json(), &file).unwrap();
        assert_eq!(back.name(), inst.name());
        assert_eq!(back.folder(), inst.folder());
        assert_eq!(back.path(), inst.path());
    }
}

#[test]
fn metadata_document_shape() {
    let inst = Instance::new("A", "/r", &names(&[]));
    assert_eq!(inst.to_json(), meta("A", "A"));
}

#[test]
fn moved_directory_gives_new_path() {
    let mut doc = meta("Saved", "Saved");
    if let Json::Object(e) = &mut doc {
        e.push(("path".to_string(), text("/old/place/Saved")));
    }
    let old = Instance::load(&doc, "/old/place/Saved/instance.json").unwrap();
    assert_eq!(old.path(), "/old/place/Saved");
    let moved = Instance::load(&doc, "/new/home/Renamed/instance.json").unwrap();
    assert_eq!(moved.path(), "/new/home/Renamed");
    assert_eq!(moved.name(), "Saved");
    assert_eq!(moved.folder(), "Saved");
}

#[test]
fn load_rejects_bad_metadata() {
    let missing = Json::Object(vec![("name".to_string(), text("A"))]);
    assert_eq!(
        Instance::load(&missing, "/a/instance.json"),
        Err(Errors::Json(BAD_METADATA.to_string()))
    );
    let wrong = Json::Object(vec![
        ("name".to_string(), Json::Number("3".to_string())),
        ("folder".to_string(), text("A")),
    ]);
    assert!(matches!(Instance::load(&wrong, "/a/instance.json"), Err(Errors::Json(_))));
    assert!(matches!(Instance::load(&Json::Null, "/a/instance.json"), Err(Errors::Json(_))));
}

#[test]
fn load_without_parent_fails() {
    assert_eq!(Instance::load(&meta("A", "A"), "/"), Err(Errors::NoParent));
    assert_eq!(Instance::load(&meta("A", "A"), ""), Err(Errors::NoParent));
}

#[test]
fn collect_skips_foreign_directory() {
    let scan = vec![
        Scanned::Metadata { file: "/i/One/instance.json".to_string(), doc: meta("One", "One") },
        Scanned::NoMetadata,
    ];
    let found = collect_instances(&scan).unwrap();
    assert_eq!(found.len(), 1);
    assert_eq!(found[0].name(), "One");
    assert_eq!(found[0].path(), "/i/One");

    let scan = vec![
        Scanned::NoMetadata,
        Scanned::Metadata { file: "/i/One/instance.json".to_string(), doc: meta("One", "One") },
    ];
    assert_eq!(collect_instances(&scan).unwrap().len(), 1);
}

#[test]
fn collect_keeps_order() {
    let scan = vec![
        Scanned::Metadata { file: "/i/B/instance.json".to_string(), doc: meta("B", "B") },
        Scanned::Metadata { file: "/i/A/instance.json".to_string(), doc: meta("A", "A") },
    ];
    let found = collect_instances(&scan).unwrap();
    assert_eq!(found.iter().map(|i| i.name()).collect::<Vec<_>>(), vec!["B", "A"]);
}

#[test]
fn collect_of_empty_directory() {
    assert_eq!(collect_instances(&vec![]).unwrap().len(), 0);
}

#[test]
fn collect_stops_at_first_failure() {
    let scan = vec![
        Scanned::Metadata { file: "/i/A/instance.json".to_string(), doc: meta("A", "A") },
        Scanned::Failed(Errors::Io(std::io::ErrorKind::PermissionDenied)),
        Scanned::Metadata { file: "/i/B/instance.json".to_string(), doc: Json::Null },
    ];
    assert_eq!(
        collect_instances(&scan),
        Err(Errors::Io(std::io::ErrorKind::PermissionDenied))
    );
    let scan = vec![
        Scanned::Metadata { file: "/i/B/instance.json".to_string(), doc: Json::Null },
        Scanned::Failed(Errors::Io(std::io::ErrorKind::PermissionDenied)),
    ];
    assert_eq!(collect_instances(&scan), Err(Errors::Json(BAD_METADATA.to_string())));
}

#[test]
fn duplicate_error_is_equal() {
    let e = Errors::Json("x".to_string());
    assert_eq!(e.duplicate(), e);
    let e = Errors::Io(std::io::ErrorKind::NotFound);
    assert_eq!(e.duplicate(), e);
}
