use artifacts_mmo_api::validate::{Code, Email, Name, Page, Password, Size, Username};
use artifacts_mmo_api::Error;

#[test]
fn username_bounds_are_six_to_thirty_two() {
    assert!(Username::try_new("abcde").is_err());
    assert!(Username::try_new("abcdef").is_ok());
    assert!(Username::try_new(&"u".repeat(32)).is_ok());
    assert!(Username::try_new(&"u".repeat(33)).is_err());
    assert!(Username::try_new("with-dash_und3r").is_ok());
    assert!(Username::try_new("with space!").is_err());
}

#[test]
fn username_error_names_the_constraint_and_input() {
    match Username::try_new("nope") {
        Err(Error::InvalidInput(m)) => {
            assert_eq!(m, "username must be 6 to 32 characters from [a-zA-Z0-9_-]: nope");
        }
        other => panic!("expected InvalidInput, got {:?}", other),
    }
}

#[test]
fn password_counts_code_points_not_bytes() {
    // five two-byte characters: five code points, valid
    assert!(Password::try_new("\u{e9}\u{e9}\u{e9}\u{e9}\u{e9}").is_ok());
    // four code points, invalid
    assert!(Password::try_new("\u{e9}\u{e9}\u{e9}\u{e9}").is_err());
    assert!(Password::try_new(&"p".repeat(50)).is_ok());
    assert!(Password::try_new(&"p".repeat(51)).is_err());
}

#[test]
fn password_rejects_every_kind_of_whitespace() {
    for ws in [' ', '\t', '\n', '\r', '\u{a0}', '\u{2003}', '\u{3000}'] {
        let candidate = format!("pass{}word", ws);
        assert!(Password::try_new(&candidate).is_err(), "whitespace {:?} accepted", ws);
    }
    assert!(Password::try_new("pass\u{1}word").is_ok()); // control, but not whitespace
}

#[test]
fn email_requires_one_at_then_one_dot() {
    assert!(Email::try_new("a@b.c").is_ok());
    assert!(Email::try_new("long_user123@example00.com").is_ok());
    assert!(Email::try_new("a.b@c.d").is_err()); // dot before the at
    assert!(Email::try_new("a@b.c.d").is_err()); // two dots
    assert!(Email::try_new("a@b@c.d").is_err()); // two ats
    assert!(Email::try_new("a@bc").is_err());
    assert!(Email::try_new("ab.c").is_err());
    assert!(Email::try_new("a-b@c.d").is_err()); // dash is not a word character
}

#[test]
fn name_and_code_accept_one_or_more_name_characters() {
    assert!(Name::try_new("A").is_ok());
    assert!(Name::try_new("").is_err());
    assert!(Code::try_new("copper_ore").is_ok());
    assert!(Code::try_new("").is_err());
    assert!(Code::try_new("caf\u{e9}").is_err());
}

#[test]
fn page_and_size_ranges() {
    assert!(Page::try_new(0).is_err());
    assert!(Page::try_new(1).is_ok());
    assert!(Page::try_new(u32::MAX).is_ok());
    assert!(Size::try_new(0).is_err());
    assert!(Size::try_new(1).is_ok());
    assert!(Size::try_new(100).is_ok());
    assert!(Size::try_new(101).is_err());
    match Size::try_new(101) {
        Err(Error::InvalidInput(m)) => assert_eq!(m, "size must be between 1 and 100: 101"),
        other => panic!("expected InvalidInput, got {:?}", other),
    }
}

#[test]
fn validated_values_hand_back_the_input() {
    let v = Username::try_new("john_doe1").unwrap();
    assert_eq!(v.into_inner(), "john_doe1");
    let v = Code::try_new("x").unwrap();
    assert_eq!(v.into_inner(), "x");
    let v = Page::try_new(7).unwrap();
    assert_eq!(v.into_inner(), 7);
    let v = Size::try_new(42).unwrap();
    assert_eq!(v.into_inner(), 42);
}

#[test]
fn email_word_characters_reach_beyond_ascii() {
    assert!(Email::try_new("\u{e9}@b.c").is_ok()); // accented letter before the at
    assert!(Email::try_new("a@\u{e9}b.fr").is_ok()); // and after it
    assert!(Email::try_new("\u{65e5}\u{672c}@\u{4f8b}x.jp").is_ok()); // ideographs are alphanumeric
    assert!(Email::try_new("\u{2603}@b.c").is_err()); // a snowman is not
    assert!(Email::try_new("\u{e9}@b").is_err()); // the shape still binds
}
