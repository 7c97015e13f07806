use rust_cli_tool::aggregate::aggregate;
use rust_cli_tool::command::sample_data;
use rust_cli_tool::record::DataPoint;

fn sum_of_values(records: &Vec<DataPoint>) -> i128 {
    let mut sum: i128 = 0;
    for record in records {
        sum += record.value as i128;
    }
    sum
}

fn sum_of_totals(pairs: &Vec<(String, i128)>) -> i128 {
    let mut sum: i128 = 0;
    for pair in pairs {
        sum += pair.1;
    }
    sum
}

#[test]
fn sample_has_three_records() {
    let records = sample_data();
    assert_eq!(
        records,
        vec![
            DataPoint { id: 1, value: 10050, category: "A".to_string() },
            DataPoint { id: 2, value: 20030, category: "B".to_string() },
            DataPoint { id: 3, value: 15070, category: "A".to_string() },
        ]
    );
}

#[test]
fn sample_totals_by_category() {
    let summary = aggregate(&sample_data());
    assert_eq!(summary.len(), 2);
    assert_eq!(summary.get("A"), Some(25120));
    assert_eq!(summary.get("B"), Some(20030));
}

#[test]
fn empty_input_gives_empty_mapping() {
    let summary = aggregate(&Vec::new());
    assert_eq!(summary.len(), 0);
    assert!(summary.pairs().is_empty());
}

#[test]
fn totals_add_up_to_the_sum_of_all_values() {
    let records = vec![
        DataPoint::new(1, 10050, "A"),
        DataPoint::new(2, -20030, "B"),
        DataPoint::new(3, 15070, "A"),
        DataPoint::new(4, 1, "C"),
        DataPoint::new(5, -7, "B"),
        DataPoint::new(6, 0, "D"),
    ];
    let summary = aggregate(&records);
    assert_eq!(sum_of_totals(&summary.pairs()), sum_of_values(&records));
    assert_eq!(sum_of_totals(&summary.pairs()), 5084);
    let sample = sample_data();
    assert_eq!(sum_of_totals(&aggregate(&sample).pairs()), 45150);
    assert_eq!(sum_of_values(&sample), 45150);
}

#[test]
fn categories_come_out_once_in_order_of_first_occurrence() {
    let records = vec![
        DataPoint::new(1, 1, "B"),
        DataPoint::new(2, 2, "A"),
        DataPoint::new(3, 3, "B"),
        DataPoint::new(4, 4, "C"),
        DataPoint::new(5, 5, "A"),
    ];
    let summary = aggregate(&records);
    assert_eq!(
        summary.pairs(),
        vec![("B".to_string(), 4), ("A".to_string(), 7), ("C".to_string(), 4)]
    );
}

#[test]
fn a_category_can_sum_to_zero_and_stays() {
    let records = vec![DataPoint::new(1, 500, "A"), DataPoint::new(2, -500, "A")];
    let summary = aggregate(&records);
    assert_eq!(summary.len(), 1);
    assert_eq!(summary.get("A"), Some(0));
}

#[test]
fn identifiers_play_no_part() {
    let records = vec![DataPoint::new(7, 100, "A"), DataPoint::new(7, 200, "A")];
    let summary = aggregate(&records);
    assert_eq!(summary.pairs(), vec![("A".to_string(), 300)]);
}

#[test]
fn sums_do_not_wrap_at_the_range_of_a_value() {
    let records = vec![
        DataPoint::new(1, i64::MAX, "A"),
        DataPoint::new(2, i64::MAX, "A"),
        DataPoint::new(3, i64::MIN, "B"),
        DataPoint::new(4, i64::MIN, "B"),
    ];
    let summary = aggregate(&records);
    assert_eq!(summary.get("A"), Some(2 * (i64::MAX as i128)));
    assert_eq!(summary.get("B"), Some(2 * (i64::MIN as i128)));
    assert_eq!(sum_of_totals(&summary.pairs()), -2);
}

#[test]
fn data_point_clone_keeps_the_fields() {
    let point = DataPoint::new(3, 15070, "A");
    let copy = point.clone();
    assert_eq!(copy, DataPoint { id: 3, value: 15070, category: "A".to_string() });
    assert_eq!(copy, point);
}
