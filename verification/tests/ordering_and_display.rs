use std::collections::hash_map::DefaultHasher;
use std::hash::{Hash, Hasher};

use chid::{Chid, ParseChidError, ParseTitleError, Title};

fn hash_of<T: Hash>(value: &T) -> u64 {
    let mut hasher = DefaultHasher::new();
    value.hash(&mut hasher);
    hasher.finish()
}

#[test]
fn chid_equality_follows_text() {
    let a = Chid::parse("abc").unwrap();
    let a2 = Chid::parse("abc").unwrap();
    let b = Chid::parse("abd").unwrap();
    assert!(a == a2);
    assert!(a != b);
}

#[test]
fn chid_order_is_lexicographic() {
    let a = Chid::parse("abc").unwrap();
    let a2 = Chid::parse("abc").unwrap();
    let b = Chid::parse("abd").unwrap();
    assert!(a < b);
    assert!(!(b < a));
    assert!(a <= a2);
    assert!(a >= a2);
    assert_eq!(Some(std::cmp::Ordering::Less), a.partial_cmp(&b));
    assert_eq!(Some(std::cmp::Ordering::Equal), a.partial_cmp(&a2));

    // A strict prefix orders below the longer text.
    let prefix = Chid::parse("ab").unwrap();
    assert!(prefix < a);
}

#[test]
fn chid_equal_values_hash_equally() {
    let a = Chid::parse("abc").unwrap();
    let a2 = Chid::parse("abc").unwrap();
    assert!(a == a2);
    assert_eq!(hash_of(&a), hash_of(&a2));
}

#[test]
fn title_equality_and_order_follow_text() {
    let a = Title::parse("alpha").unwrap();
    let a2 = Title::parse("alpha").unwrap();
    let b = Title::parse("beta").unwrap();
    assert!(a == a2);
    assert!(a != b);
    assert!(a < b);
    assert_eq!(Some(std::cmp::Ordering::Less), a.partial_cmp(&b));
    assert_eq!(hash_of(&a), hash_of(&a2));
}

#[test]
fn chid_error_messages() {
    let e = ParseChidError::InvalidChar {
        position: 3,
        character: '.',
    };
    assert_eq!("Invalid character . at position 3", e.to_display_text());
    assert_eq!("CHID too long", ParseChidError::TooLong.to_display_text());
}

#[test]
fn chid_error_message_multi_digit_position() {
    let e = match Chid::parse("aaaaaaaaaaaa x") {
        Err(e) => e,
        Ok(_) => panic!("expected a parse failure"),
    };
    assert_eq!(
        ParseChidError::InvalidChar {
            position: 12,
            character: ' ',
        },
        e
    );
    assert_eq!("Invalid character   at position 12", e.to_display_text());
}

#[test]
fn chid_error_message_position_zero() {
    let e = ParseChidError::InvalidChar {
        position: 0,
        character: '.',
    };
    assert_eq!("Invalid character . at position 0", e.to_display_text());
}

#[test]
fn title_error_message() {
    assert_eq!("Title too long", ParseTitleError::TooLong.to_display_text());
}

#[test]
fn decimal_rendering_appends_digits() {
    let mut out = String::from("n=");
    chid::push_decimal(&mut out, 0);
    assert_eq!("n=0", out);
    let mut big = String::new();
    chid::push_decimal(&mut big, 1234567890);
    assert_eq!("1234567890", big);
}
