use twilio::form::{args_from_urlencoded, get_args};
use twilio::lookup::{NumberType, ValidationError};
use twilio::{Call, Inbound, InboundKind, Message, MessageStatus, TwilioError};

#[test]
fn form_body_is_percent_decoded() {
    let m = args_from_urlencoded(b"a=b%20c+d&e=%26");
    assert_eq!(
        m.pairs,
        vec![("a".to_string(), "b c d".to_string()), ("e".to_string(), "&".to_string())]
    );
}

#[test]
fn empty_form_body_has_no_pairs() {
    assert!(args_from_urlencoded(b"").pairs.is_empty());
}

#[test]
fn path_query_is_parsed() {
    let m = get_args("/call?a=1&b=2");
    assert_eq!(
        m.pairs,
        vec![("a".to_string(), "1".to_string()), ("b".to_string(), "2".to_string())]
    );
}

#[test]
fn path_without_one_question_mark_has_no_args() {
    assert!(get_args("/call").pairs.is_empty());
    assert!(get_args("/call?a=1?b=2").pairs.is_empty());
}

#[test]
fn last_value_of_a_key_wins() {
    let m = args_from_urlencoded(b"Body=first&Body=second&From=x");
    let msg = Message::from_map(&m).unwrap();
    assert_eq!(msg.body, "second");
    assert_eq!(msg.from, Some("x".to_string()));
    assert_eq!(msg.sid, None);
}

#[test]
fn missing_required_field_is_parsing_error() {
    let m = args_from_urlencoded(b"From=1&To=2");
    assert_eq!(Message::from_map(&m).unwrap_err(), TwilioError::ParsingError);
    assert_eq!(Call::from_map(&m).unwrap_err(), TwilioError::ParsingError);
    assert!(matches!(Inbound::from_map(InboundKind::Call, &m), Err(TwilioError::ParsingError)));
}

#[test]
fn message_status_names() {
    assert_eq!(MessageStatus::from_str("sent").unwrap(), MessageStatus::Sent);
    assert_eq!(
        MessageStatus::from_str("partially_delivered").unwrap(),
        MessageStatus::PartiallyDelivered
    );
    assert_eq!(MessageStatus::Canceled.to_string(), "canceled");
    let e = MessageStatus::from_str("lost").unwrap_err();
    assert_eq!(e.0, "lost");
    assert_eq!(e.to_string(), "Invalid Twilio message status 'lost'");
}

#[test]
fn lookup_wire_names() {
    assert_eq!(NumberType::from_wire("uan"), Some(NumberType::UniversalAccessNumber));
    assert_eq!(NumberType::from_wire("fixedVoip"), Some(NumberType::FixedVoip));
    assert_eq!(NumberType::from_wire("satellite"), None);
    assert_eq!(ValidationError::from_wire("TOO_SHORT"), Some(ValidationError::TooShort));
    assert_eq!(ValidationError::from_wire("too_short"), None);
}
