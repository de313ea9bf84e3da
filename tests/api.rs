use twilio::error::check_status;
use twilio::{ApiMethod, Client, OutboundMessage, TwilioError};

#[test]
fn server_error_is_retryable() {
    let e = check_status(503).unwrap_err();
    assert_eq!(e, TwilioError::HTTPError(503));
    assert!(e.is_retryable());
}

#[test]
fn client_error_is_not_retryable() {
    let e = check_status(404).unwrap_err();
    assert_eq!(e, TwilioError::HTTPError(404));
    assert!(!e.is_retryable());
}

#[test]
fn success_statuses() {
    assert!(check_status(200).is_ok());
    assert!(check_status(201).is_ok());
    assert_eq!(check_status(204).unwrap_err(), TwilioError::HTTPError(204));
    assert_eq!(check_status(500).unwrap_err(), TwilioError::HTTPError(500));
}

#[test]
fn retryable_classes() {
    assert!(TwilioError::RequestError.is_retryable());
    assert!(TwilioError::ReadResponseError.is_retryable());
    assert!(!TwilioError::ParsingError.is_retryable());
    assert!(!TwilioError::AuthError.is_retryable());
    assert!(!TwilioError::BadRequest.is_retryable());
    assert!(!TwilioError::HTTPError(600).is_retryable());
    assert!(TwilioError::HTTPError(500).is_retryable());
}

#[test]
fn form_encoding() {
    let client = Client::new("AC123", "tok");
    let r = client.build_request(ApiMethod::Put, "Calls", &[("Body", "Hello, World!"), ("To", "+1 555")]);
    assert_eq!(r.method, ApiMethod::Put);
    assert_eq!(r.url, "https://api.twilio.com/2010-04-01/Accounts/AC123/Calls.json");
    assert_eq!(r.body, "Body=Hello%2C+World%21&To=%2B1+555");
}

#[test]
fn send_message_request() {
    let client = Client::new("AC123", "tok");
    let r = client.send_message_request(&OutboundMessage::new("+1", "+2", "Hello, World!"));
    assert_eq!(r.method, ApiMethod::Post);
    assert_eq!(r.url, "https://api.twilio.com/2010-04-01/Accounts/AC123/Messages.json");
    assert_eq!(r.auth_user, "AC123");
    assert_eq!(r.auth_token, "tok");
    assert_eq!(r.body, "From=%2B1&To=%2B2&Body=Hello%2C+World%21");
}

#[test]
fn sub_account_changes_url_only() {
    let mut client = Client::new("AC123", "tok");
    client.set_account_sid("AC999".to_string());
    let r = client.message_status_request("SM1");
    assert_eq!(r.url, "https://api.twilio.com/2010-04-01/Accounts/AC999/Messages/SM1.json");
    assert_eq!(r.auth_user, "AC123");
    assert_eq!(r.method, ApiMethod::Get);
}

#[test]
fn lookup_url_has_number() {
    let client = Client::new("AC123", "tok");
    let r = client.lookup_request(14155552671);
    assert_eq!(r.url, "https://lookups.twilio.com/v2/PhoneNumbers/+14155552671?Fields=line_type_intelligence");
    assert_eq!(client.lookup_request(0).url, "https://lookups.twilio.com/v2/PhoneNumbers/+0?Fields=line_type_intelligence");
}

#[test]
fn error_descriptions() {
    assert_eq!(
        TwilioError::HTTPError(503).to_string(),
        "Invalid HTTP status code: 503 Service Unavailable"
    );
    assert_eq!(TwilioError::HTTPError(404).to_string(), "Invalid HTTP status code: 404 Not Found");
    assert_eq!(
        TwilioError::HTTPError(599).to_string(),
        "Invalid HTTP status code: 599 <unknown status code>"
    );
    assert_eq!(TwilioError::ParsingError.to_string(), "Parsing error");
    assert_eq!(TwilioError::BadRequest.to_string(), "Bad request");
}
