use rust_cli_tool::summary::Summary;

#[test]
fn new_summary_is_empty() {
    let summary = Summary::new();
    assert_eq!(summary.len(), 0);
    assert_eq!(summary.get("A"), None);
    assert!(summary.pairs().is_empty());
}

#[test]
fn add_starts_an_absent_key_from_zero() {
    let mut summary = Summary::new();
    summary.add("A".to_string(), 10050);
    assert_eq!(summary.len(), 1);
    assert_eq!(summary.get("A"), Some(10050));
}

#[test]
fn add_accumulates_under_a_present_key() {
    let mut summary = Summary::new();
    summary.add("A".to_string(), 10050);
    summary.add("B".to_string(), 20030);
    summary.add("A".to_string(), 15070);
    assert_eq!(summary.len(), 2);
    assert_eq!(summary.get("A"), Some(25120));
    assert_eq!(summary.get("B"), Some(20030));
    assert_eq!(summary.get("C"), None);
}

#[test]
fn add_takes_negative_amounts() {
    let mut summary = Summary::new();
    summary.add("A".to_string(), 100);
    summary.add("A".to_string(), -250);
    assert_eq!(summary.get("A"), Some(-150));
}

#[test]
fn keys_stay_in_order_of_first_arrival() {
    let mut summary = Summary::new();
    summary.add("B".to_string(), 1);
    summary.add("A".to_string(), 2);
    summary.add("B".to_string(), 3);
    summary.add("C".to_string(), 4);
    assert_eq!(
        summary.pairs(),
        vec![("B".to_string(), 4), ("A".to_string(), 2), ("C".to_string(), 4)]
    );
}

#[test]
fn insert_sets_and_returns_what_was_there() {
    let mut summary = Summary::new();
    assert_eq!(summary.insert("total_items".to_string(), 200), None);
    assert_eq!(summary.insert("avg_value".to_string(), 9775), None);
    assert_eq!(summary.insert("total_items".to_string(), 300), Some(200));
    assert_eq!(summary.len(), 2);
    assert_eq!(summary.get("total_items"), Some(300));
    assert_eq!(summary.get("avg_value"), Some(9775));
    assert_eq!(
        summary.pairs(),
        vec![("total_items".to_string(), 300), ("avg_value".to_string(), 9775)]
    );
}

#[test]
fn keys_are_compared_as_whole_texts() {
    let mut summary = Summary::new();
    summary.add("A".to_string(), 1);
    summary.add("a".to_string(), 2);
    summary.add("AA".to_string(), 3);
    summary.add("".to_string(), 4);
    assert_eq!(summary.len(), 4);
    assert_eq!(summary.get("A"), Some(1));
    assert_eq!(summary.get("a"), Some(2));
    assert_eq!(summary.get("AA"), Some(3));
    assert_eq!(summary.get(""), Some(4));
}

#[test]
fn clone_keeps_the_entries() {
    let mut summary = Summary::new();
    summary.add("A".to_string(), 1);
    summary.add("B".to_string(), 2);
    let copy = summary.clone();
    summary.add("A".to_string(), 5);
    assert_eq!(copy.pairs(), vec![("A".to_string(), 1), ("B".to_string(), 2)]);
    assert_eq!(summary.get("A"), Some(6));
}
