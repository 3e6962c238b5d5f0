use liana_gui::text::{
    counted_text, decimal_text, fraction_text, joined, push_decimal, to_owned_text,
};

#[test]
fn decimal_text_of_single_digits() {
    assert_eq!(decimal_text(0), "0");
    assert_eq!(decimal_text(7), "7");
    assert_eq!(decimal_text(9), "9");
}

#[test]
fn decimal_text_of_longer_numbers() {
    assert_eq!(decimal_text(10), "10");
    assert_eq!(decimal_text(101), "101");
    assert_eq!(decimal_text(12345), "12345");
    assert_eq!(decimal_text(9_000_000), "9000000");
}

#[test]
fn decimal_text_of_the_largest_number() {
    assert_eq!(decimal_text(usize::MAX), format!("{}", usize::MAX));
}

#[test]
fn decimal_text_agrees_with_formatting() {
    let mut n: usize = 0;
    while n < 2500 {
        assert_eq!(decimal_text(n), format!("{}", n));
        n += 1;
    }
}

#[test]
fn push_decimal_appends_to_what_is_there() {
    let mut out = String::from("step ");
    push_decimal(&mut out, 42);
    assert_eq!(out, "step 42");
    push_decimal(&mut out, 0);
    assert_eq!(out, "step 420");
}

#[test]
fn fraction_text_puts_a_stroke_between() {
    assert_eq!(fraction_text(3, 5), "3/5");
    assert_eq!(fraction_text(0, 0), "0/0");
    assert_eq!(fraction_text(12, 7), "12/7");
}

#[test]
fn counted_text_puts_the_count_first() {
    assert_eq!(counted_text(2, " items"), "2 items");
    assert_eq!(counted_text(0, ""), "0");
}

#[test]
fn joined_keeps_both_parts() {
    assert_eq!(joined("finger", "print"), "fingerprint");
    assert_eq!(joined("", "x"), "x");
    assert_eq!(joined("x", ""), "x");
}

#[test]
fn to_owned_text_copies_what_is_there() {
    let text = String::from("bad descriptor");
    assert_eq!(to_owned_text(Some(&text)), Some(String::from("bad descriptor")));
    assert_eq!(to_owned_text(None), None);
}
