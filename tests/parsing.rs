use eq_tracker::command::{parse_input, parse_u32, InputVariant};

#[test]
fn parses_number_as_new_duration() {
    assert_eq!(parse_input(b"2000"), InputVariant::TrackNewTime(2000));
    assert_eq!(parse_input(b"0"), InputVariant::TrackNewTime(0));
    assert_eq!(parse_input(b"4294967295"), InputVariant::TrackNewTime(4294967295));
}

#[test]
fn plus_sign_before_digits_is_a_number() {
    assert_eq!(parse_input(b"+12"), InputVariant::TrackNewTime(12));
    assert_eq!(parse_u32(b"+12"), Some(12));
}

#[test]
fn first_character_dispatch() {
    assert_eq!(parse_input(b"t"), InputVariant::Track);
    assert_eq!(parse_input(b"track"), InputVariant::Track);
    assert_eq!(parse_input(b"+"), InputVariant::FastForward(true));
    assert_eq!(parse_input(b"-"), InputVariant::FastForward(false));
    assert_eq!(parse_input(b"h"), InputVariant::Hold);
    assert_eq!(parse_input(b"d"), InputVariant::SetDefault);
    assert_eq!(parse_input(b"s"), InputVariant::Status);
    assert_eq!(parse_input(b"r"), InputVariant::Reset);
}

#[test]
fn anything_else_is_invalid() {
    assert_eq!(parse_input(b""), InputVariant::Invalid);
    assert_eq!(parse_input(b"x"), InputVariant::Invalid);
    assert_eq!(parse_input(b"12a"), InputVariant::Invalid);
    assert_eq!(parse_input(b"4294967296"), InputVariant::Invalid);
    assert_eq!(parse_input(b"-5"), InputVariant::FastForward(false));
}

#[test]
fn parse_u32_rejects_non_numbers() {
    assert_eq!(parse_u32(b""), None);
    assert_eq!(parse_u32(b"+"), None);
    assert_eq!(parse_u32(b"99999999999"), None);
    assert_eq!(parse_u32(b"007"), Some(7));
}
