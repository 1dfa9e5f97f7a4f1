use docstore::cache::{load_cache, merge, Cache, CachePatch, Field, FieldPatch};
use docstore::error::StoreError;
use docstore::found::Found;

fn text(s: &str) -> Option<String> {
    Some(s.to_string())
}

fn sample() -> Cache {
    Cache {
        signature_view_last_selected_signature: text("Work"),
        email_view_last_selected_signature: None,
        email_view_last_selected_salutation: text("Dear"),
        email_view_last_selected_valediction: text("Regards"),
    }
}

fn value(json: &str) -> serde_json::Value {
    serde_json::from_str(json).unwrap()
}

#[test]
fn the_default_cache_is_empty() {
    let empty = Cache {
        signature_view_last_selected_signature: None,
        email_view_last_selected_signature: None,
        email_view_last_selected_salutation: None,
        email_view_last_selected_valediction: None,
    };
    assert_eq!(Cache::default(), empty);
    assert_eq!(Cache::empty(), empty);
}

#[test]
fn the_keys_of_the_fields() {
    assert_eq!(Field::SignatureViewSignature.key(), "signature_view_last_selected_signature");
    assert_eq!(Field::EmailViewSignature.key(), "email_view_last_selected_signature");
    assert_eq!(Field::EmailViewSalutation.key(), "email_view_last_selected_salutation");
    assert_eq!(Field::EmailViewValediction.key(), "email_view_last_selected_valediction");
}

#[test]
fn an_empty_patch_changes_nothing() {
    assert_eq!(merge(sample(), CachePatch::empty()), sample());
    assert_eq!(merge(Cache::empty(), CachePatch::empty()), Cache::empty());
    assert_eq!(merge(sample(), CachePatch::from_value(&value("{}"))), sample());
}

#[test]
fn a_patch_of_one_field_leaves_the_others() {
    let patch = CachePatch::from_value(&value(r#"{"email_view_last_selected_signature": "Home"}"#));
    let next = merge(sample(), patch);
    assert_eq!(next.email_view_last_selected_signature, text("Home"));
    assert_eq!(next.signature_view_last_selected_signature, text("Work"));
    assert_eq!(next.email_view_last_selected_salutation, text("Dear"));
    assert_eq!(next.email_view_last_selected_valediction, text("Regards"));
}

#[test]
fn a_field_mentioned_without_a_string_is_cleared() {
    let patch = CachePatch::from_value(&value(
        r#"{"signature_view_last_selected_signature": null, "email_view_last_selected_salutation": 7}"#,
    ));
    assert_eq!(patch.signature_view_last_selected_signature, FieldPatch::Clear);
    assert_eq!(patch.email_view_last_selected_salutation, FieldPatch::Clear);
    assert_eq!(patch.email_view_last_selected_signature, FieldPatch::Keep);
    assert_eq!(patch.email_view_last_selected_valediction, FieldPatch::Keep);
    let next = merge(sample(), patch);
    assert_eq!(next.signature_view_last_selected_signature, None);
    assert_eq!(next.email_view_last_selected_salutation, None);
    assert_eq!(next.email_view_last_selected_signature, None);
    assert_eq!(next.email_view_last_selected_valediction, text("Regards"));
}

#[test]
fn a_patch_reads_all_four_fields() {
    let patch = CachePatch::from_value(&value(
        r#"{
            "signature_view_last_selected_signature": "a",
            "email_view_last_selected_signature": "b",
            "email_view_last_selected_salutation": "c",
            "email_view_last_selected_valediction": "d"
        }"#,
    ));
    assert_eq!(
        patch,
        CachePatch {
            signature_view_last_selected_signature: FieldPatch::Assign("a".to_string()),
            email_view_last_selected_signature: FieldPatch::Assign("b".to_string()),
            email_view_last_selected_salutation: FieldPatch::Assign("c".to_string()),
            email_view_last_selected_valediction: FieldPatch::Assign("d".to_string()),
        }
    );
}

#[test]
fn unknown_fields_of_a_patch_are_passed_over() {
    let patch = CachePatch::from_value(&value(
        r#"{"theme": "dark", "email_view_last_selected_valediction": "Cheers"}"#,
    ));
    assert_eq!(
        patch,
        CachePatch {
            email_view_last_selected_valediction: FieldPatch::Assign("Cheers".to_string()),
            ..CachePatch::empty()
        }
    );
}

#[test]
fn a_patch_that_is_no_object_mentions_nothing() {
    for json in ["null", "[]", "\"x\"", "3", "true", r#"["email_view_last_selected_signature"]"#] {
        assert_eq!(CachePatch::from_value(&value(json)), CachePatch::empty());
    }
}

#[test]
fn disjoint_patches_merge_in_either_order() {
    let first = CachePatch {
        signature_view_last_selected_signature: FieldPatch::Assign("One".to_string()),
        ..CachePatch::empty()
    };
    let second = CachePatch {
        email_view_last_selected_salutation: FieldPatch::Clear,
        email_view_last_selected_signature: FieldPatch::Assign("Two".to_string()),
        ..CachePatch::empty()
    };
    let one_way = merge(merge(sample(), first.clone()), second.clone());
    let other_way = merge(merge(sample(), second), first);
    assert_eq!(one_way, other_way);
    assert_eq!(
        one_way,
        Cache {
            signature_view_last_selected_signature: text("One"),
            email_view_last_selected_signature: text("Two"),
            email_view_last_selected_salutation: None,
            email_view_last_selected_valediction: text("Regards"),
        }
    );
}

#[test]
fn apply_of_each_entry() {
    assert_eq!(FieldPatch::Keep.apply(text("x")), text("x"));
    assert_eq!(FieldPatch::Keep.apply(None), None);
    assert_eq!(FieldPatch::Clear.apply(text("x")), None);
    assert_eq!(FieldPatch::Assign("y".to_string()).apply(text("x")), text("y"));
    assert_eq!(FieldPatch::Assign("y".to_string()).apply(None), text("y"));
}

#[test]
fn an_absent_cache_loads_as_the_empty_cache() {
    assert_eq!(load_cache(Found::Absent), Ok(Cache::empty()));
}

#[test]
fn a_corrupt_cache_loads_as_the_empty_cache() {
    assert_eq!(load_cache(Found::Corrupt("expected value at line 1".to_string())), Ok(Cache::empty()));
}

#[test]
fn a_stored_cache_loads_as_it_is() {
    assert_eq!(load_cache(Found::Present(sample())), Ok(sample()));
}

#[test]
fn an_unreadable_cache_fails() {
    assert_eq!(
        load_cache(Found::Unreadable("permission denied".to_string())),
        Err(StoreError::Io("permission denied".to_string()))
    );
}
