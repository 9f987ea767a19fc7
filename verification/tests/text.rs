use alyrasign::text::{
    decimal_text, patch_text, text_bytes, text_length, within_cap, MAX_DESCRIPTION_LENGTH,
    MAX_LOCATION_LENGTH, MAX_MESSAGE_LENGTH, MAX_NOTE_LENGTH, MAX_ROLE_LENGTH, MAX_TITLE_LENGTH,
};

#[test]
fn caps_have_their_values() {
    assert_eq!(MAX_ROLE_LENGTH, 20);
    assert_eq!(MAX_MESSAGE_LENGTH, 100);
    assert_eq!(MAX_TITLE_LENGTH, 100);
    assert_eq!(MAX_DESCRIPTION_LENGTH, 500);
    assert_eq!(MAX_LOCATION_LENGTH, 100);
    assert_eq!(MAX_NOTE_LENGTH, 500);
}

#[test]
fn length_counts_bytes_not_characters() {
    assert_eq!(text_length(&String::new()), 0);
    assert_eq!(text_length(&"admin".to_string()), 5);
    assert_eq!(text_length(&"é".to_string()), 2);
    assert_eq!(text_length(&"日本".to_string()), 6);
}

#[test]
fn within_cap_is_inclusive() {
    let at = "a".repeat(20);
    let over = "a".repeat(21);
    assert!(within_cap(&at, 20));
    assert!(!within_cap(&over, 20));
    assert!(within_cap(&String::new(), 0));
    let wide = "é".repeat(10);
    assert!(within_cap(&wide, 20));
    assert!(!within_cap(&"é".repeat(11), 20));
}

#[test]
fn text_bytes_are_the_utf8_bytes() {
    assert_eq!(text_bytes(&"5".to_string()), vec![b'5']);
    assert_eq!(text_bytes(&"é".to_string()), vec![0xc3, 0xa9]);
    assert_eq!(text_bytes(&String::new()), Vec::<u8>::new());
}

#[test]
fn decimal_text_of_numbers() {
    assert_eq!(decimal_text(0), "0");
    assert_eq!(decimal_text(7), "7");
    assert_eq!(decimal_text(10), "10");
    assert_eq!(decimal_text(1234567890), "1234567890");
    assert_eq!(decimal_text(u64::MAX), "18446744073709551615");
}

#[test]
fn an_empty_patch_keeps_the_text() {
    assert_eq!(patch_text(&"before".to_string(), String::new()), "before");
    assert_eq!(patch_text(&"before".to_string(), "after".to_string()), "after");
    assert_eq!(patch_text(&String::new(), String::new()), "");
    assert_eq!(patch_text(&"before".to_string(), " ".to_string()), " ");
}

#[test]
fn decimal_text_at_the_turns_of_the_digits() {
    let mut power: u64 = 1;
    for _ in 0..19 {
        for n in [power - 1, power, power + 1, power * 9, power * 9 + 9 % power.max(1)] {
            assert_eq!(decimal_text(n), n.to_string());
        }
        power *= 10;
    }
    assert_eq!(decimal_text(9), "9");
    assert_eq!(decimal_text(99), "99");
    assert_eq!(decimal_text(100), "100");
    assert_eq!(decimal_text(1_000_000), "1000000");
    assert_eq!(decimal_text(u64::MAX - 1), "18446744073709551614");
}
