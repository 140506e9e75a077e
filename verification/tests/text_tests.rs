use babel_core::text::{i64_text, push_joined, push_joined_i64, push_u64};

#[test]
fn decimal_text_of_small_numbers() {
    assert_eq!(i64_text(0), "0");
    assert_eq!(i64_text(7), "7");
    assert_eq!(i64_text(42), "42");
    assert_eq!(i64_text(1000), "1000");
}

#[test]
fn decimal_text_of_negative_numbers() {
    assert_eq!(i64_text(-1), "-1");
    assert_eq!(i64_text(-305), "-305");
}

#[test]
fn decimal_text_of_extreme_numbers() {
    assert_eq!(i64_text(i64::MIN), "-9223372036854775808");
    assert_eq!(i64_text(i64::MAX), "9223372036854775807");
    let mut s = String::new();
    push_u64(&mut s, u64::MAX);
    assert_eq!(s, "18446744073709551615");
}

#[test]
fn decimal_text_matches_display() {
    for v in [-1000001i64, -99, -10, 9, 10, 11, 99, 100, 123456789] {
        assert_eq!(i64_text(v), v.to_string());
    }
}

#[test]
fn joining_texts() {
    let mut s = String::from("x:");
    push_joined(&mut s, &vec!["a".to_string(), "b".to_string(), "c".to_string()], " & ");
    assert_eq!(s, "x:a & b & c");
    let mut e = String::new();
    push_joined(&mut e, &vec![], ",");
    assert_eq!(e, "");
    let mut one = String::new();
    push_joined(&mut one, &vec!["only".to_string()], ",");
    assert_eq!(one, "only");
}

#[test]
fn joining_numbers() {
    let mut s = String::new();
    push_joined_i64(&mut s, &vec![1, -2, 30], ",");
    assert_eq!(s, "1,-2,30");
    let mut e = String::new();
    push_joined_i64(&mut e, &vec![], ",");
    assert_eq!(e, "");
}
