use visibility_index::search::{
    collect_search_results, search_offset, RawPointId, SearchHit, SEARCH_PAGE_SIZE,
};

fn uuid_text(s: &str) -> RawPointId {
    RawPointId::UuidText(s.to_string())
}

#[test]
fn page_size_is_ten_and_page_one_starts_at_zero() {
    assert_eq!(SEARCH_PAGE_SIZE, 10);
    assert_eq!(search_offset(1), 0);
}

#[test]
fn offset_is_page_minus_one_times_page_size() {
    assert_eq!(search_offset(2), 10);
    assert_eq!(search_offset(3), 20);
    assert_eq!(search_offset(100), 990);
}

#[test]
fn valid_identifiers_are_kept_with_their_ranks() {
    let first = "550e8400-e29b-41d4-a716-446655440000";
    let second = "00000000-0000-0000-0000-000000000007";
    let ids = vec![uuid_text(first), uuid_text(second)];
    let hits = collect_search_results(&ids);
    let first_value = uuid::Uuid::parse_str(first).unwrap().as_u128();
    let second_value = uuid::Uuid::parse_str(second).unwrap().as_u128();
    assert_eq!(
        hits,
        vec![
            SearchHit { index: 0, point_id: first_value },
            SearchHit { index: 1, point_id: second_value },
        ]
    );
}

#[test]
fn non_uuid_identifiers_are_dropped_without_failing() {
    let good = "550e8400-e29b-41d4-a716-446655440000";
    let ids = vec![
        uuid_text("not-a-uuid"),
        RawPointId::Num(42),
        RawPointId::Absent,
        uuid_text(good),
        uuid_text(""),
    ];
    let hits = collect_search_results(&ids);
    let good_value = uuid::Uuid::parse_str(good).unwrap().as_u128();
    assert_eq!(hits, vec![SearchHit { index: 3, point_id: good_value }]);
}

#[test]
fn empty_result_list_yields_no_hits() {
    let hits = collect_search_results(&vec![]);
    assert_eq!(hits, Vec::new());
}

#[test]
fn ranking_order_is_preserved() {
    let texts = [
        "00000000-0000-0000-0000-000000000001",
        "00000000-0000-0000-0000-000000000002",
        "00000000-0000-0000-0000-000000000003",
    ];
    let ids = vec![
        uuid_text(texts[0]),
        RawPointId::Num(9),
        uuid_text(texts[1]),
        uuid_text("junk"),
        uuid_text(texts[2]),
    ];
    let hits = collect_search_results(&ids);
    assert_eq!(hits.len(), 3);
    assert_eq!(hits[0].index, 0);
    assert_eq!(hits[1].index, 2);
    assert_eq!(hits[2].index, 4);
    assert_eq!(hits[0].point_id, 1);
    assert_eq!(hits[1].point_id, 2);
    assert_eq!(hits[2].point_id, 3);
}
