use base64::Engine;
use twilio::twiml::{Twiml, Verb};
use twilio::webhook::compute_signature;
use twilio::{Client, FieldMapping, Inbound, InboundKind, Method, TwilioError, WebhookRequest};

fn sign(secret: &str, uri: &str) -> Vec<u8> {
    let digest = compute_signature(secret, uri);
    base64::engine::general_purpose::STANDARD.encode(digest).into_bytes()
}

fn post(secret: &str, host: &str, path: &str, body: &str, signed_uri: &str) -> WebhookRequest {
    WebhookRequest {
        method: Method::Post,
        host: Some(host.to_string()),
        path: path.to_string(),
        signature: Some(sign(secret, signed_uri)),
        body: body.as_bytes().to_vec(),
    }
}

fn pairs(m: &FieldMapping) -> Vec<(String, String)> {
    m.pairs.clone()
}

#[test]
fn hmac_sha1_known_vector() {
    let d = compute_signature("key", "The quick brown fox jumps over the lazy dog");
    let hex: String = d.iter().map(|b| format!("{:02x}", b)).collect();
    assert_eq!(hex, "de7c9b85b8b78aa6bc8a7a36f70a90701c9db4d9");
}

#[test]
fn digest_is_deterministic() {
    let a = compute_signature("secret", "https://example.com/message");
    let b = compute_signature("secret", "https://example.com/message");
    assert_eq!(a, b);
    assert_eq!(a.len(), 20);
}

#[test]
fn post_with_valid_signature_decodes_message() {
    let client = Client::new("AC123", "secret");
    let req = post("secret", "example.com", "/message", "Body=Hello", "https://example.com/messageBodyHello");
    let args = client.parse_request(&req).unwrap();
    assert_eq!(pairs(&args), vec![("Body".to_string(), "Hello".to_string())]);
    match Inbound::from_map(InboundKind::Message, &args).unwrap() {
        Inbound::Message(m) => assert_eq!(m.body, "Hello"),
        Inbound::Call(_) => panic!("expected a message"),
    }
}

#[test]
fn post_fields_are_appended_in_order() {
    let client = Client::new("AC123", "secret");
    let req = post("secret", "example.com", "/m", "To=2&From=1", "https://example.com/mTo2From1");
    assert!(client.parse_request(&req).is_ok());
    let swapped = post("secret", "example.com", "/m", "To=2&From=1", "https://example.com/mFrom1To2");
    assert_eq!(client.parse_request(&swapped).unwrap_err(), TwilioError::AuthError);
}

#[test]
fn mutated_request_fails_verification() {
    let client = Client::new("AC123", "secret");
    let signed = "https://example.com/messageBodyHello";
    let body = post("secret", "example.com", "/message", "Body=Hellp", signed);
    assert_eq!(client.parse_request(&body).unwrap_err(), TwilioError::AuthError);
    let host = post("secret", "example.org", "/message", "Body=Hello", signed);
    assert_eq!(client.parse_request(&host).unwrap_err(), TwilioError::AuthError);
    let path = post("secret", "example.com", "/messages", "Body=Hello", signed);
    assert_eq!(client.parse_request(&path).unwrap_err(), TwilioError::AuthError);
    let mut get = post("secret", "example.com", "/message", "Body=Hello", signed);
    get.method = Method::Get;
    assert_eq!(client.parse_request(&get).unwrap_err(), TwilioError::AuthError);
    let other = Client::new("AC123", "other");
    let ok = post("secret", "example.com", "/message", "Body=Hello", signed);
    assert_eq!(other.parse_request(&ok).unwrap_err(), TwilioError::AuthError);
}

#[test]
fn get_with_valid_signature_decodes_query() {
    let client = Client::new("AC123", "secret");
    let req = WebhookRequest {
        method: Method::Get,
        host: Some("example.com".to_string()),
        path: "/call?CallSid=CA1&From=%2B1555".to_string(),
        signature: Some(sign("secret", "https://example.com/call?CallSid=CA1&From=%2B1555")),
        body: Vec::new(),
    };
    let args = client.parse_request(&req).unwrap();
    match Inbound::from_map(InboundKind::Call, &args).unwrap() {
        Inbound::Call(c) => {
            assert_eq!(c.sid, "CA1");
            assert_eq!(c.from, Some("+1555".to_string()));
            assert_eq!(c.to, None);
        }
        Inbound::Message(_) => panic!("expected a call"),
    }
}

#[test]
fn get_without_query_has_empty_mapping() {
    let client = Client::new("AC123", "secret");
    let req = WebhookRequest {
        method: Method::Get,
        host: Some("example.com".to_string()),
        path: "/call".to_string(),
        signature: Some(sign("secret", "https://example.com/call")),
        body: Vec::new(),
    };
    assert!(client.parse_request(&req).unwrap().pairs.is_empty());
}

#[test]
fn malformed_base64_is_bad_request() {
    let client = Client::new("AC123", "secret");
    let mut req = post("secret", "example.com", "/message", "Body=Hello", "https://example.com/messageBodyHello");
    req.signature = Some(b"not base64!!".to_vec());
    assert_eq!(client.parse_request(&req).unwrap_err(), TwilioError::BadRequest);
}

#[test]
fn missing_signature_is_auth_error() {
    let client = Client::new("AC123", "secret");
    let mut req = post("secret", "example.com", "/message", "Body=Hello", "https://example.com/messageBodyHello");
    req.signature = None;
    assert_eq!(client.parse_request(&req).unwrap_err(), TwilioError::AuthError);
}

#[test]
fn missing_host_wildcard_path_and_other_method_are_bad_requests() {
    let client = Client::new("AC123", "secret");
    let mut no_host = post("secret", "example.com", "/m", "", "https://example.com/m");
    no_host.host = None;
    assert_eq!(client.parse_request(&no_host).unwrap_err(), TwilioError::BadRequest);
    let star = post("secret", "example.com", "*", "", "https://example.com*");
    assert_eq!(client.parse_request(&star).unwrap_err(), TwilioError::BadRequest);
    let mut put = post("secret", "example.com", "/m", "", "https://example.com/m");
    put.method = Method::Other;
    assert_eq!(client.parse_request(&put).unwrap_err(), TwilioError::BadRequest);
}

#[test]
fn responder_answers_message_with_markup() {
    let client = Client::new("AC123", "secret");
    let req = post("secret", "example.com", "/message", "Body=Hello", "https://example.com/messageBodyHello");
    let res = client.respond_to_webhook(&req, InboundKind::Message, |o| {
        let mut t = Twiml::new();
        if let Inbound::Message(m) = o {
            t.add(Verb::Message(twilio::twiml::Message { txt: format!("You told me: '{}'", m.body) }));
        }
        t
    });
    assert_eq!(res.status, 200);
    assert!(res.xml);
    assert!(res.body.contains("You told me: 'Hello'"));
    assert_eq!(res.content_length, res.body.len());
}

#[test]
fn responder_answers_bad_request_without_calling_logic() {
    let client = Client::new("AC123", "secret");
    let req = post("secret", "example.com", "/message", "Body=Hello", "https://example.com/other");
    let res = client.respond_to_webhook(&req, InboundKind::Message, |_| panic!("logic must not run"));
    assert_eq!(res.status, 400);
    assert!(!res.xml);
    assert_eq!(res.body, "Error.");
    assert_eq!(res.content_length, 6);
}

#[test]
fn responder_rejects_missing_required_field() {
    let client = Client::new("AC123", "secret");
    let req = post("secret", "example.com", "/message", "From=1", "https://example.com/messageFrom1");
    let res = client.respond_to_webhook(&req, InboundKind::Message, |_| Twiml::new());
    assert_eq!(res.status, 400);
}

#[test]
fn reordered_body_with_same_header_is_rejected() {
    let client = Client::new("AC123", "secret");
    let signed = post("secret", "example.com", "/m", "To=2&From=1", "https://example.com/mTo2From1");
    assert!(client.parse_request(&signed).is_ok());
    let mut reordered = signed.clone();
    reordered.body = b"From=1&To=2".to_vec();
    assert_eq!(client.parse_request(&reordered).unwrap_err(), TwilioError::AuthError);
}
