use oxdb::strutil::{count_underscores, join_comma, u64_to_string};

#[test]
fn decimal_rendering_exact_values() {
    assert_eq!(u64_to_string(0), "0");
    assert_eq!(u64_to_string(7), "7");
    assert_eq!(u64_to_string(10), "10");
    assert_eq!(u64_to_string(1234), "1234");
    assert_eq!(u64_to_string(u64::MAX), "18446744073709551615");
}

#[test]
fn underscore_counting() {
    assert_eq!(count_underscores(""), 0);
    assert_eq!(count_underscores("10:00:00_AM"), 1);
    assert_eq!(count_underscores("01_01_2024"), 2);
    assert_eq!(count_underscores("___"), 3);
}

#[test]
fn joining_description_fragments() {
    assert_eq!(join_comma(&vec![]), "");
    assert_eq!(join_comma(&vec!["one".to_string()]), "one");
    assert_eq!(
        join_comma(&vec!["one".to_string(), "two".to_string(), "three".to_string()]),
        "one, two, three"
    );
}
