use concepts::basics::construct_and_destructure_tuple;
use concepts::basics::condition_while_loop;
use concepts::basics::if_in_let_statement;
use concepts::basics::loop_collection;
use concepts::basics::loop_collection_for;
use concepts::basics::loop_range;
use concepts::basics::plus_one;
use concepts::basics::return_values_from_loops;

#[test]
fn destructured_fields_match_indexed_fields() {
    let (tup, x, y, z) = construct_and_destructure_tuple();
    assert_eq!(x, tup.0);
    assert_eq!(y, tup.1);
    assert_eq!(z, tup.2);
    assert_eq!(tup, (500, 6, 1));
}

#[test]
fn plus_one_adds_one() {
    assert_eq!(plus_one(1), 2);
    assert_eq!(plus_one(-1), 0);
    assert_eq!(plus_one(i32::MAX - 1), i32::MAX);
}

#[test]
fn if_in_let_picks_by_condition() {
    assert_eq!(if_in_let_statement(true), 5);
    assert_eq!(if_in_let_statement(false), 6);
}

#[test]
fn loop_result_is_twice_the_threshold() {
    assert_eq!(return_values_from_loops(10), 20);
}

#[test]
fn loop_result_at_smallest_threshold() {
    assert_eq!(return_values_from_loops(1), 2);
}

#[test]
fn countdown_records_each_value() {
    assert_eq!(condition_while_loop(3), vec![3, 2, 1]);
}

#[test]
fn countdown_from_zero_is_empty() {
    assert_eq!(condition_while_loop(0), Vec::<u64>::new());
}

#[test]
fn indexed_scan_yields_elements_in_order() {
    let a = vec![10, 20, 30, 40, 50];
    assert_eq!(loop_collection(&a), vec![10, 20, 30, 40, 50]);
}

#[test]
fn by_value_scan_yields_elements_in_order() {
    let a = vec![10, 20, 30, 40, 50];
    assert_eq!(loop_collection_for(&a), vec![10, 20, 30, 40, 50]);
}

#[test]
fn both_scans_agree() {
    let a = vec![10, 20, 30, 40, 50];
    assert_eq!(loop_collection(&a), loop_collection_for(&a));
}

#[test]
fn scans_of_empty_sequence_are_empty() {
    let a: Vec<i32> = Vec::new();
    assert_eq!(loop_collection(&a), Vec::<i32>::new());
    assert_eq!(loop_collection_for(&a), Vec::<i32>::new());
}

#[test]
fn range_scan_excludes_end() {
    assert_eq!(loop_range(1, 4), vec![1, 2, 3]);
}

#[test]
fn empty_and_reversed_ranges_yield_nothing() {
    assert_eq!(loop_range(5, 5), Vec::<u64>::new());
    assert_eq!(loop_range(7, 3), Vec::<u64>::new());
}
