use vstd::prelude::*;
use vstd::string::StringExecFns;
use vstd::utf8::encode_utf8;

use crate::client::Client;
use crate::twiml::push_char;

verus! {

/// The bytes that a form encoding writes as themselves.
pub open spec fn byte_unchanged(b: u8) -> bool {
    b == 42 || b == 45 || b == 46 || b == 95 || (48 <= b <= 57) || (65 <= b <= 90) || (97 <= b
        <= 122)
}

/// An upper-case hexadecimal digit.
pub open spec fn hex_digit(d: u8) -> char {
    if d < 10 {
        digit_char(d as nat)
    } else if d == 10 {
        'A'
    } else if d == 11 {
        'B'
    } else if d == 12 {
        'C'
    } else if d == 13 {
        'D'
    } else if d == 14 {
        'E'
    } else {
        'F'
    }
}

/// How one byte is written: as itself, a space as `+`, else `%XX`.
pub open spec fn form_byte(b: u8) -> Seq<char> {
    if byte_unchanged(b) {
        seq![b as char]
    } else if b == 32 {
        seq!['+']
    } else {
        seq!['%', hex_digit(b / 16), hex_digit(b % 16)]
    }
}

/// Each byte of `bs` written in turn.
pub open spec fn form_bytes(bs: Seq<u8>) -> Seq<char>
    decreases bs.len(),
{
    if bs.len() == 0 {
        Seq::empty()
    } else {
        form_bytes(bs.drop_last()) + form_byte(bs.last())
    }
}

/// One pair: its name and value, each as UTF-8 bytes written in turn,
/// joined by `=`.
pub open spec fn form_pair(p: (Seq<char>, Seq<char>)) -> Seq<char> {
    form_bytes(encode_utf8(p.0)) + "="@ + form_bytes(encode_utf8(p.1))
}

/// The `application/x-www-form-urlencoded` text of `pairs`: each pair in
/// order, separated by `&`.
pub open spec fn form_encoded_of(pairs: Seq<(Seq<char>, Seq<char>)>) -> Seq<char>
    decreases pairs.len(),
{
    if pairs.len() == 0 {
        Seq::empty()
    } else if pairs.len() == 1 {
        form_pair(pairs[0])
    } else {
        form_encoded_of(pairs.drop_last()) + "&"@ + form_pair(pairs.last())
    }
}

pub open spec fn str_pairs_view(v: Seq<(&str, &str)>) -> Seq<(Seq<char>, Seq<char>)> {
    v.map_values(|p: (&str, &str)| (p.0@, p.1@))
}

/// Relies on `url::form_urlencoded::Serializer` (`new`, `extend_pairs`,
/// `finish`): each pair's name and value as UTF-8 bytes, bytes outside
/// `*-._`, digits and letters percent-encoded in upper case and a space as
/// `+`, joined with `=` and the pairs with `&`, in order.
#[verifier::external_body]
pub(crate) fn url_encode(params: &[(&str, &str)]) -> (r: String)
    ensures
        r@ == form_encoded_of(str_pairs_view(params@)),
{
    url::form_urlencoded::Serializer::new(String::new()).extend_pairs(params.iter()).finish()
}

/// The HTTP methods of the API calls.
#[derive(Debug, Clone, Copy, PartialEq, Eq, Structural)]
pub enum ApiMethod {
    Get,
    Post,
    Put,
}

/// An outbound API request, ready for the HTTP client: basic
/// authorization with `auth_user` and `auth_token`, and a form body.
#[derive(Debug, Clone)]
pub struct ApiRequest {
    pub method: ApiMethod,
    pub url: String,
    pub auth_user: String,
    pub auth_token: String,
    pub body: String,
}

pub open spec fn api_base() -> Seq<char> {
    "https://api.twilio.com/2010-04-01/Accounts/"@
}

/// The URL of a resource of account `account`.
pub open spec fn resource_url(account: Seq<char>, endpoint: Seq<char>) -> Seq<char> {
    api_base() + account + "/"@ + endpoint + ".json"@
}

/// The decimal digits of `n`, most significant first.
pub open spec fn decimal(n: nat) -> Seq<char>
    decreases n,
{
    if n < 10 {
        seq![digit_char(n)]
    } else {
        decimal(n / 10).push(digit_char(n % 10))
    }
}

pub open spec fn digit_char(d: nat) -> char {
    if d == 0 { '0' }
    else if d == 1 { '1' }
    else if d == 2 { '2' }
    else if d == 3 { '3' }
    else if d == 4 { '4' }
    else if d == 5 { '5' }
    else if d == 6 { '6' }
    else if d == 7 { '7' }
    else if d == 8 { '8' }
    else { '9' }
}

fn digit(d: u64) -> (c: char)
    requires
        d < 10,
    ensures
        c == digit_char(d as nat),
{
    if d == 0 { '0' }
    else if d == 1 { '1' }
    else if d == 2 { '2' }
    else if d == 3 { '3' }
    else if d == 4 { '4' }
    else if d == 5 { '5' }
    else if d == 6 { '6' }
    else if d == 7 { '7' }
    else if d == 8 { '8' }
    else { '9' }
}

/// Appends the decimal digits of `n`.
pub(crate) fn push_decimal(out: &mut String, n: u64)
    ensures
        final(out)@ == old(out)@ + decimal(n as nat),
    decreases n,
{
    if n >= 10 {
        push_decimal(out, n / 10);
    }
    push_char(out, digit(n % 10));
    assert(out@ =~= old(out)@ + decimal(n as nat));
}

/// The lookup URL of the number `+number`, asking for line type data.
pub open spec fn lookup_url(number: nat) -> Seq<char> {
    "https://lookups.twilio.com/v2/PhoneNumbers/+"@ + decimal(number)
        + "?Fields=line_type_intelligence"@
}

/// A message to send.
#[derive(Debug, Clone)]
pub struct OutboundMessage {
    pub from: String,
    pub to: String,
    pub body: String,
}

impl OutboundMessage {
    pub fn new(from: &str, to: &str, body: &str) -> (r: OutboundMessage)
        ensures
            r.from@ == from@,
            r.to@ == to@,
            r.body@ == body@,
    {
        OutboundMessage {
            from: String::from_str(from),
            to: String::from_str(to),
            body: String::from_str(body),
        }
    }
}

impl Client {
    /// The URL of `endpoint` under this client's account.
    pub fn resource_url(&self, endpoint: &str) -> (r: String)
        ensures
            r@ == resource_url(self.account_id@, endpoint@),
    {
        let mut url = String::from_str("https://api.twilio.com/2010-04-01/Accounts/");
        url.append(self.account_id.as_str());
        url.append("/");
        url.append(endpoint);
        url.append(".json");
        url
    }

    /// A request to `endpoint` of this client's account, with `params` as
    /// its form body.
    pub fn build_request(&self, method: ApiMethod, endpoint: &str, params: &[(&str, &str)]) -> (r:
        ApiRequest)
        ensures
            r.method == method,
            r.url@ == resource_url(self.account_id@, endpoint@),
            r.auth_user@ == self.auth_user@,
            r.auth_token@ == self.auth_token@,
            r.body@ == form_encoded_of(str_pairs_view(params@)),
    {
        ApiRequest {
            method,
            url: self.resource_url(endpoint),
            auth_user: self.auth_user.clone(),
            auth_token: self.auth_token.clone(),
            body: url_encode(params),
        }
    }

    /// The request that sends `msg`.
    pub fn send_message_request(&self, msg: &OutboundMessage) -> (r: ApiRequest)
        ensures
            r.method == ApiMethod::Post,
            r.url@ == resource_url(self.account_id@, "Messages"@),
            r.auth_user@ == self.auth_user@,
            r.auth_token@ == self.auth_token@,
            r.body@ == form_encoded_of(
                seq![("From"@, msg.from@), ("To"@, msg.to@), ("Body"@, msg.body@)],
            ),
    {
        let params = [
            ("From", msg.from.as_str()),
            ("To", msg.to.as_str()),
            ("Body", msg.body.as_str()),
        ];
        let r = self.build_request(ApiMethod::Post, "Messages", &params);
        assert(str_pairs_view(params@) =~= seq![
            ("From"@, msg.from@),
            ("To"@, msg.to@),
            ("Body"@, msg.body@),
        ]);
        r
    }

    /// The request that reads the status of message `sid`.
    pub fn message_status_request(&self, sid: &str) -> (r: ApiRequest)
        ensures
            r.method == ApiMethod::Get,
            r.url@ == api_base() + self.account_id@ + "/Messages/"@ + sid@ + ".json"@,
            r.auth_user@ == self.auth_user@,
            r.auth_token@ == self.auth_token@,
            r.body@.len() == 0,
    {
        let mut url = String::from_str("https://api.twilio.com/2010-04-01/Accounts/");
        url.append(self.account_id.as_str());
        url.append("/Messages/");
        url.append(sid);
        url.append(".json");
        ApiRequest {
            method: ApiMethod::Get,
            url,
            auth_user: self.auth_user.clone(),
            auth_token: self.auth_token.clone(),
            body: String::new(),
        }
    }

    /// The request that looks up the number `+number`.
    pub fn lookup_request(&self, number: u64) -> (r: ApiRequest)
        ensures
            r.method == ApiMethod::Get,
            r.url@ == lookup_url(number as nat),
            r.auth_user@ == self.auth_user@,
            r.auth_token@ == self.auth_token@,
            r.body@.len() == 0,
    {
        let mut url = String::from_str("https://lookups.twilio.com/v2/PhoneNumbers/+");
        push_decimal(&mut url, number);
        url.append("?Fields=line_type_intelligence");
        ApiRequest {
            method: ApiMethod::Get,
            url,
            auth_user: self.auth_user.clone(),
            auth_token: self.auth_token.clone(),
            body: String::new(),
        }
    }
}

} // verus!
