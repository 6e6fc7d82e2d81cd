use visibility_index::adapter::{
    build_insert_metadata, check_visibility_author, set_visibility_decision, VisibilityAction,
};
use visibility_index::data::{MetaValue, Metadata};
use visibility_index::{AdapterError, Visibility};

fn text(s: &str) -> MetaValue {
    MetaValue::Text(s.to_string())
}

fn empty() -> Metadata {
    Metadata { private_entry: None, authors_entry: None }
}

fn private_meta(authors: Vec<MetaValue>) -> Metadata {
    Metadata {
        private_entry: Some(MetaValue::Bool(true)),
        authors_entry: Some(MetaValue::List(authors)),
    }
}

fn author_one_text() -> String {
    "00000000-0000-0000-0000-000000000001".to_string()
}

fn author_two_text() -> String {
    "00000000-0000-0000-0000-000000000002".to_string()
}

#[test]
fn insert_private_without_author_is_rejected() {
    let r = build_insert_metadata(Visibility::Private, None);
    assert_eq!(r, Err(AdapterError::ValidationError));
}

#[test]
fn insert_public_builds_exactly_empty_metadata() {
    assert_eq!(build_insert_metadata(Visibility::Public, None), Ok(empty()));
    assert_eq!(build_insert_metadata(Visibility::Public, Some(9)), Ok(empty()));
}

#[test]
fn insert_private_builds_exact_private_metadata() {
    let r = build_insert_metadata(Visibility::Private, Some(1));
    assert_eq!(r, Ok(private_meta(vec![text(&author_one_text())])));
}

#[test]
fn validation_requires_author_only_for_private() {
    assert_eq!(check_visibility_author(Visibility::Private, None), Err(AdapterError::ValidationError));
    assert_eq!(check_visibility_author(Visibility::Private, Some(4)), Ok(()));
    assert_eq!(check_visibility_author(Visibility::Public, None), Ok(()));
    assert_eq!(check_visibility_author(Visibility::Public, Some(4)), Ok(()));
}

#[test]
fn update_of_public_point_is_noop_for_both_requests() {
    let r = set_visibility_decision(Some(empty()), Visibility::Private, Some(1));
    assert_eq!(r, Ok(VisibilityAction::NoOp));
    let r = set_visibility_decision(Some(empty()), Visibility::Public, None);
    assert_eq!(r, Ok(VisibilityAction::NoOp));
    let explicit_public = Metadata {
        private_entry: Some(MetaValue::Bool(false)),
        authors_entry: Some(MetaValue::List(vec![text("a")])),
    };
    let r = set_visibility_decision(Some(explicit_public), Visibility::Private, Some(1));
    assert_eq!(r, Ok(VisibilityAction::NoOp));
}

#[test]
fn non_boolean_private_entry_reads_as_public() {
    let odd = Metadata {
        private_entry: Some(MetaValue::Text("yes".to_string())),
        authors_entry: None,
    };
    let r = set_visibility_decision(Some(odd), Visibility::Private, Some(1));
    assert_eq!(r, Ok(VisibilityAction::NoOp));
    let odd_list = Metadata { private_entry: Some(MetaValue::List(vec![])), authors_entry: None };
    let r = set_visibility_decision(Some(odd_list), Visibility::Public, None);
    assert_eq!(r, Ok(VisibilityAction::NoOp));
}

#[test]
fn private_update_merges_new_author() {
    let current = private_meta(vec![text(&author_one_text())]);
    let r = set_visibility_decision(Some(current), Visibility::Private, Some(2));
    let expected = private_meta(vec![text(&author_one_text()), text(&author_two_text())]);
    assert_eq!(r, Ok(VisibilityAction::WriteMetadata(expected)));
}

#[test]
fn private_update_with_present_author_changes_nothing() {
    let current = private_meta(vec![text(&author_one_text()), text(&author_two_text())]);
    let r = set_visibility_decision(Some(current), Visibility::Private, Some(2));
    let unchanged = private_meta(vec![text(&author_one_text()), text(&author_two_text())]);
    assert_eq!(r, Ok(VisibilityAction::WriteMetadata(unchanged)));
}

#[test]
fn private_update_twice_with_same_author_is_stable() {
    let current = private_meta(vec![text(&author_one_text())]);
    let first = set_visibility_decision(Some(current), Visibility::Private, Some(2));
    let written = match first {
        Ok(VisibilityAction::WriteMetadata(m)) => m,
        other => panic!("first update did not write: {:?}", other),
    };
    let again = private_meta(vec![text(&author_one_text()), text(&author_two_text())]);
    assert_eq!(written, again);
    let second = set_visibility_decision(Some(written), Visibility::Private, Some(2));
    assert_eq!(second, Ok(VisibilityAction::WriteMetadata(again)));
}

#[test]
fn private_to_public_clears_metadata_entirely() {
    let current = private_meta(vec![text(&author_one_text()), text(&author_two_text())]);
    let r = set_visibility_decision(Some(current), Visibility::Public, None);
    assert_eq!(r, Ok(VisibilityAction::WriteMetadata(empty())));
}

#[test]
fn update_of_missing_point_fails_with_read_error() {
    let r = set_visibility_decision(None, Visibility::Public, None);
    assert_eq!(r, Err(AdapterError::IndexReadError));
    let r = set_visibility_decision(None, Visibility::Private, Some(1));
    assert_eq!(r, Err(AdapterError::IndexReadError));
}

#[test]
fn unreadable_author_entries_are_dropped_on_merge() {
    let current = private_meta(vec![
        text(""),
        MetaValue::Other,
        MetaValue::Bool(true),
        text(&author_one_text()),
    ]);
    let r = set_visibility_decision(Some(current), Visibility::Private, Some(2));
    let expected = private_meta(vec![text(&author_one_text()), text(&author_two_text())]);
    assert_eq!(r, Ok(VisibilityAction::WriteMetadata(expected)));
}

#[test]
fn non_list_authors_entry_reads_as_no_authors() {
    let current = Metadata {
        private_entry: Some(MetaValue::Bool(true)),
        authors_entry: Some(MetaValue::Bool(true)),
    };
    let r = set_visibility_decision(Some(current), Visibility::Private, Some(2));
    let expected = private_meta(vec![text(&author_two_text())]);
    assert_eq!(r, Ok(VisibilityAction::WriteMetadata(expected)));
}
