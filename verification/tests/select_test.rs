use greedy_enum::select::greedy_parse;

#[test]
fn picks_the_earliest_success() {
    let r = greedy_parse(vec![None, Some(5u32), Some(7u32)], "in");
    assert_eq!(r.unwrap(), 5);
}

#[test]
fn order_decides_an_ambiguous_input() {
    let first = greedy_parse(vec![Some(1u32), Some(2u32)], "x").unwrap();
    let swapped = greedy_parse(vec![Some(2u32), Some(1u32)], "x").unwrap();
    assert_eq!(first, 1);
    assert_eq!(swapped, 2);
}

#[test]
fn a_unique_match_survives_reordering() {
    let front = greedy_parse(vec![Some(9u32), None, None], "x").unwrap();
    let middle = greedy_parse(vec![None, Some(9u32), None], "x").unwrap();
    let back = greedy_parse(vec![None, None, Some(9u32)], "x").unwrap();
    assert_eq!(front, 9);
    assert_eq!(middle, 9);
    assert_eq!(back, 9);
}

#[test]
fn no_match_reports_the_input() {
    let e = greedy_parse::<u32>(vec![None, None], "nope").unwrap_err();
    assert_eq!(e.span, "nope");
    assert_eq!(e.message(), "No valid variant found for string: 'nope'");
}

#[test]
fn no_outcomes_is_no_match() {
    let e = greedy_parse::<u32>(vec![], "").unwrap_err();
    assert_eq!(e.span, "");
    assert_eq!(e.message(), "No valid variant found for string: ''");
}

#[test]
fn same_outcomes_same_result() {
    let a = greedy_parse(vec![None, Some(3u32)], "s").unwrap();
    let b = greedy_parse(vec![None, Some(3u32)], "s").unwrap();
    assert_eq!(a, b);
}
