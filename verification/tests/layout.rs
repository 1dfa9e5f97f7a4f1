use docstore::error::StoreError;
use docstore::layout::{
    cache_file, data_dir, document_name, document_names, ensure_base_dirs, favourites_file,
    image_file, images_dir, locations_file, lock_marker, salutations_file, signature_file,
    signatures_dir, temp_sibling, template_file, templates_dir, valedictions_file, LayoutStep,
    RelPath,
};

fn path(parts: &[&str]) -> RelPath {
    RelPath { parts: parts.iter().map(|p| p.to_string()).collect() }
}

#[test]
fn the_four_directories() {
    assert_eq!(templates_dir(), path(&["Templates"]));
    assert_eq!(data_dir(), path(&["data"]));
    assert_eq!(signatures_dir(), path(&["Signatures"]));
    assert_eq!(images_dir(), path(&["Signatures", "images"]));
}

#[test]
fn the_files_of_the_data_directory() {
    assert_eq!(cache_file(), path(&["data", "cache.json"]));
    assert_eq!(locations_file(), path(&["data", "locations.json"]));
    assert_eq!(favourites_file(), path(&["data", "favourites.json"]));
    assert_eq!(salutations_file(), path(&["data", "salutations.json"]));
    assert_eq!(valedictions_file(), path(&["data", "valedictions.json"]));
}

#[test]
fn the_files_of_named_documents() {
    assert_eq!(signature_file("Work"), path(&["Signatures", "Work.json"]));
    assert_eq!(image_file("logo.png"), path(&["Signatures", "images", "logo.png"]));
    assert_eq!(template_file("My/Template:v2"), path(&["Templates", "My_Template_v2.txt"]));
    assert_eq!(template_file("   "), path(&["Templates", "Untitled.txt"]));
}

#[test]
fn the_marker_and_the_temporary_file_stand_beside_the_document() {
    assert_eq!(lock_marker(&cache_file()), path(&["data", "cache.json.lock"]));
    assert_eq!(temp_sibling(&cache_file()), path(&["data", "cache.json.tmp"]));
    assert_eq!(temp_sibling(&template_file("a")), path(&["Templates", "a.txt.tmp"]));
    assert_eq!(lock_marker(&path(&[])), path(&[".lock"]));
}

#[test]
fn child_and_sibling_of_a_path() {
    assert_eq!(path(&["a", "b"]).child("c".to_string()), path(&["a", "b", "c"]));
    assert_eq!(path(&["a", "b"]).sibling(".x"), path(&["a", "b.x"]));
    assert_eq!(path(&["a"]).sibling(""), path(&["a"]));
}

#[test]
fn the_layout_is_made_in_order() {
    let mut outcomes: Vec<Result<(), String>> = Vec::new();
    assert_eq!(ensure_base_dirs(&outcomes), LayoutStep::Create(path(&["Templates"])));
    outcomes.push(Ok(()));
    assert_eq!(ensure_base_dirs(&outcomes), LayoutStep::Create(path(&["data"])));
    outcomes.push(Ok(()));
    assert_eq!(ensure_base_dirs(&outcomes), LayoutStep::Create(path(&["Signatures"])));
    outcomes.push(Ok(()));
    assert_eq!(ensure_base_dirs(&outcomes), LayoutStep::Create(path(&["Signatures", "images"])));
    outcomes.push(Ok(()));
    assert_eq!(ensure_base_dirs(&outcomes), LayoutStep::Ready);
}

#[test]
fn the_layout_is_ready_however_often_it_is_asked_for() {
    let outcomes: Vec<Result<(), String>> = vec![Ok(()), Ok(()), Ok(()), Ok(())];
    assert_eq!(ensure_base_dirs(&outcomes), LayoutStep::Ready);
    assert_eq!(ensure_base_dirs(&outcomes), LayoutStep::Ready);
    let more: Vec<Result<(), String>> = vec![Ok(()), Ok(()), Ok(()), Ok(()), Err("late".to_string())];
    assert_eq!(ensure_base_dirs(&more), LayoutStep::Ready);
}

#[test]
fn the_first_failure_ends_the_making_of_the_layout() {
    let outcomes: Vec<Result<(), String>> =
        vec![Ok(()), Err("read-only file system".to_string()), Err("second".to_string())];
    assert_eq!(
        ensure_base_dirs(&outcomes),
        LayoutStep::Failed(StoreError::Io("read-only file system".to_string()))
    );
    let at_once: Vec<Result<(), String>> = vec![Err("denied".to_string())];
    assert_eq!(
        ensure_base_dirs(&at_once),
        LayoutStep::Failed(StoreError::Io("denied".to_string()))
    );
}

#[test]
fn the_name_of_a_document_is_the_stem_of_its_file() {
    assert_eq!(document_name("Work.json", "json"), Some("Work".to_string()));
    assert_eq!(document_name("a.b.json", "json"), Some("a.b".to_string()));
    assert_eq!(document_name("notes.txt", "txt"), Some("notes".to_string()));
    assert_eq!(document_name("caf\u{e9}.txt", "txt"), Some("caf\u{e9}".to_string()));
}

#[test]
fn files_of_another_kind_are_no_documents() {
    assert_eq!(document_name("Work.json", "txt"), None);
    assert_eq!(document_name("Work.JSON", "json"), None);
    assert_eq!(document_name("Work.jso", "json"), None);
    assert_eq!(document_name("Work.jsonx", "json"), None);
    assert_eq!(document_name("json", "json"), None);
    assert_eq!(document_name(".json", "json"), None);
    assert_eq!(document_name("Work.", "json"), None);
    assert_eq!(document_name("", "json"), None);
    assert_eq!(document_name("images", "json"), None);
}

#[test]
fn documents_are_listed_in_the_order_of_the_files() {
    let files: Vec<String> = ["b.json", "images", "a.json", "c.txt", ".json", "d.json"]
        .iter()
        .map(|f| f.to_string())
        .collect();
    assert_eq!(document_names(&files, "json"), vec!["b", "a", "d"]);
    assert_eq!(document_names(&files, "txt"), vec!["c"]);
    assert_eq!(document_names(&Vec::new(), "json"), Vec::<String>::new());
}
