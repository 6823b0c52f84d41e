use chid::{Chid, ParseChidError, ParseTitleError, Title};

#[test]
fn parse_chid() {
    assert_eq!(
        Err(ParseChidError::TooLong),
        "aaaaaaaaaaaaaaaaaaaaaaaaaaaaaaaaaaaaaaaaaaaaaaaaaaaaaaaaa".parse::<Chid>()
    );
    assert_eq!("hello", "hello".parse::<Chid>().unwrap().as_str());
    assert_eq!(
        Err(ParseChidError::InvalidChar {
            position: 3,
            character: '.',
        }),
        "hel.lo".parse::<Chid>()
    );
}

#[test]
fn chid_accepts_simple_text() {
    let c = Chid::parse("hello").unwrap();
    assert_eq!(c.as_str(), "hello");
    assert_eq!(c.to_display_text(), "hello");
}

#[test]
fn chid_accepts_empty_text() {
    let c = Chid::parse("").unwrap();
    assert_eq!(c.as_str(), "");
}

#[test]
fn chid_length_boundary() {
    let at_cap = "a".repeat(50);
    let c = Chid::parse(&at_cap).unwrap();
    assert_eq!(c.as_str(), at_cap.as_str());

    let over_cap = "a".repeat(51);
    assert_eq!(Err(ParseChidError::TooLong), Chid::parse(&over_cap));

    // Length 51 fails regardless of content, even when a forbidden
    // character would otherwise be reported first.
    let mut over_with_dot = "a".repeat(50);
    over_with_dot.push('.');
    assert_eq!(Err(ParseChidError::TooLong), Chid::parse(&over_with_dot));

    let far_over = "a".repeat(57);
    assert_eq!(Err(ParseChidError::TooLong), Chid::parse(&far_over));
}

#[test]
fn chid_rejects_space() {
    assert_eq!(
        Err(ParseChidError::InvalidChar {
            position: 0,
            character: ' ',
        }),
        Chid::parse(" lead")
    );
    assert_eq!(
        Err(ParseChidError::InvalidChar {
            position: 4,
            character: ' ',
        }),
        Chid::parse("tail abc")
    );
}

#[test]
fn chid_reports_first_forbidden_character() {
    assert_eq!(
        Err(ParseChidError::InvalidChar {
            position: 1,
            character: ' ',
        }),
        Chid::parse("a .b.")
    );
}

#[test]
fn chid_position_counts_characters_not_bytes() {
    // The e-acute takes two bytes, so the dot sits at byte offset 3 but at
    // character position 2.
    assert_eq!(
        Err(ParseChidError::InvalidChar {
            position: 2,
            character: '.',
        }),
        Chid::parse("aé.b")
    );
}

#[test]
fn chid_length_is_measured_in_bytes() {
    // 25 two-byte characters and a dot: 26 characters but 51 bytes, so the
    // byte-length check fails before the character scan would find the dot.
    let mut text = "é".repeat(25);
    text.push('.');
    assert_eq!(26, text.chars().count());
    assert_eq!(51, text.len());
    assert_eq!(Err(ParseChidError::TooLong), Chid::parse(&text));
}

#[test]
fn chid_round_trips_multibyte_text() {
    let c = Chid::parse("héllo").unwrap();
    assert_eq!(c.as_str(), "héllo");
}

#[test]
fn title_accepts_any_characters() {
    let t = Title::parse("hello world. and more!").unwrap();
    assert_eq!(t.as_str(), "hello world. and more!");
    assert_eq!(t.to_display_text(), "hello world. and more!");
}

#[test]
fn title_length_boundary() {
    let at_cap = "a".repeat(256);
    let t = Title::parse(&at_cap).unwrap();
    assert_eq!(t.as_str(), at_cap.as_str());

    let over_cap = "a".repeat(257);
    assert_eq!(Err(ParseTitleError::TooLong), Title::parse(&over_cap));
}

#[test]
fn title_round_trips_via_from_str() {
    let t: Title = "Some Label".parse().unwrap();
    assert_eq!(t.as_str(), "Some Label");
    let again: Title = t.as_str().parse().unwrap();
    assert_eq!(t, again);
}

#[test]
fn chid_round_trips_via_from_str() {
    let c: Chid = "run-17".parse().unwrap();
    let again: Chid = c.as_str().parse().unwrap();
    assert_eq!(c, again);
}
