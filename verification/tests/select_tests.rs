use judge_a_book::select::contains_string;
use judge_a_book::select::select_cids;

fn cids(items: &[Option<&str>]) -> Vec<Option<String>> {
    items.iter().map(|o| o.map(|s| s.to_string())).collect()
}

fn strs(items: &[&str]) -> Vec<String> {
    items.iter().map(|s| s.to_string()).collect()
}

#[test]
fn takes_first_eligible_up_to_count() {
    let resolved = cids(&[Some("X"), Some("Y"), None]);
    let selected = select_cids(&resolved, &strs(&[]), 1);
    assert_eq!(selected.len(), 1);
    assert!(selected[0] == "X" || selected[0] == "Y");
}

#[test]
fn all_absent_yields_empty() {
    let resolved = cids(&[None, None, None, None, None]);
    let selected = select_cids(&resolved, &strs(&[]), 10);
    assert!(selected.is_empty());
}

#[test]
fn existing_covers_are_never_selected() {
    let resolved = cids(&[Some("A"), Some("B"), Some("C")]);
    let existing = strs(&["A", "C"]);
    let selected = select_cids(&resolved, &existing, 10);
    assert_eq!(selected, strs(&["B"]));
    for cid in &selected {
        assert!(!existing.contains(cid));
    }
}

#[test]
fn never_more_than_count_and_fewer_only_when_fewer_eligible() {
    let resolved = cids(&[Some("A"), None, Some("B"), Some("C"), Some("D"), None]);
    let bounded = select_cids(&resolved, &strs(&[]), 2);
    assert_eq!(bounded, strs(&["A", "B"]));

    let exhausted = select_cids(&resolved, &strs(&["B"]), 10);
    assert_eq!(exhausted, strs(&["A", "C", "D"]));
}

#[test]
fn second_run_with_first_output_as_existing_is_disjoint() {
    let resolved = cids(&[Some("A"), Some("B"), Some("C")]);
    let first = select_cids(&resolved, &strs(&[]), 2);
    assert_eq!(first, strs(&["A", "B"]));

    let second = select_cids(&resolved, &first, 2);
    assert_eq!(second, strs(&["C"]));
    for cid in &second {
        assert!(!first.contains(cid));
    }
}

#[test]
fn zero_count_selects_nothing() {
    let resolved = cids(&[Some("A")]);
    assert!(select_cids(&resolved, &strs(&[]), 0).is_empty());
}

#[test]
fn duplicate_cids_across_assets_pass_the_filter() {
    let resolved = cids(&[Some("A"), Some("A")]);
    let selected = select_cids(&resolved, &strs(&[]), 5);
    assert_eq!(selected, strs(&["A", "A"]));
}

#[test]
fn contains_string_matches_membership() {
    let haystack = strs(&["a", "b"]);
    assert!(contains_string(&haystack, &"a".to_string()));
    assert!(contains_string(&haystack, &"b".to_string()));
    assert!(!contains_string(&haystack, &"c".to_string()));
    assert!(!contains_string(&strs(&[]), &"a".to_string()));
}
