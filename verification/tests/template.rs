use docstore::layout::RelPath;
use docstore::template::{is_template, load_templates, save_template, TemplateEntry, TemplateFile};

fn entry(file_name: &str, content: &str, last_modified: &str) -> TemplateEntry {
    TemplateEntry {
        file_name: file_name.to_string(),
        content: content.to_string(),
        last_modified: last_modified.to_string(),
    }
}

#[test]
fn templates_are_the_txt_files() {
    assert!(is_template("offer.txt"));
    assert!(is_template("a.b.txt"));
    assert!(!is_template("offer.TXT"));
    assert!(!is_template("offer.json"));
    assert!(!is_template(".txt"));
    assert!(!is_template("txt"));
}

#[test]
fn templates_are_listed_with_their_text_and_time() {
    let entries = vec![
        entry("offer.txt", "Dear {name}", "2024-03-01 09:30:00"),
        entry("readme.md", "no template", "2024-03-02 10:00:00"),
        entry("thanks.txt", "", "2023-12-24 18:00:00"),
    ];
    assert_eq!(
        load_templates(&entries),
        vec![
            TemplateFile {
                name: "offer".to_string(),
                content: "Dear {name}".to_string(),
                last_modified: "2024-03-01 09:30:00".to_string(),
            },
            TemplateFile {
                name: "thanks".to_string(),
                content: "".to_string(),
                last_modified: "2023-12-24 18:00:00".to_string(),
            },
        ]
    );
}

#[test]
fn no_entries_give_no_templates() {
    assert_eq!(load_templates(&Vec::new()), Vec::new());
    assert_eq!(load_templates(&vec![entry("a.json", "{}", "")]), Vec::new());
}

#[test]
fn a_template_is_saved_under_its_sanitized_name() {
    let expected = |leaf: &str| RelPath { parts: vec!["Templates".to_string(), leaf.to_string()] };
    assert_eq!(save_template("My/Template:v2"), expected("My_Template_v2.txt"));
    assert_eq!(save_template("  offer "), expected("offer.txt"));
    assert_eq!(save_template(""), expected("Untitled.txt"));
}
