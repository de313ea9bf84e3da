use vstd::prelude::*;
use vstd::string::StringExecFns;
use vstd::utf8::encode_utf8;

use crate::client::Client;
use crate::error::TwilioError;
use crate::form::{
    args_from_urlencoded, form_pairs_of, get_args, path_args, question_marks, FieldMapping,
};

verus! {

/// The bytes that a base64 text (standard alphabet, padded) encodes, or
/// `None` where the text is not valid base64.
pub uninterp spec fn base64_decoded(text: Seq<u8>) -> Option<Seq<u8>>;

/// The HMAC-SHA1 digest of `msg` under `key`.
pub uninterp spec fn hmac_sha1(key: Seq<u8>, msg: Seq<u8>) -> Seq<u8>;

pub open spec fn bytes_view(o: Option<Vec<u8>>) -> Option<Seq<u8>> {
    match o {
        Some(v) => Some(v@),
        None => None,
    }
}

/// Relies on `base64::decode` (standard alphabet): the decoded bytes, or an
/// error for malformed input.
#[verifier::external_body]
fn decode_base64(text: &[u8]) -> (r: Option<Vec<u8>>)
    ensures
        bytes_view(r) == base64_decoded(text@),
{
    #[allow(deprecated)]
    base64::decode(text).ok()
}

/// Relies on `hmac::Hmac<sha1::Sha1>`: the digest of `msg` keyed with `key`.
/// HMAC takes keys of any length, so `new_from_slice` does not fail.
#[verifier::external_body]
fn hmac_sha1_digest(key: &[u8], msg: &[u8]) -> (r: Vec<u8>)
    ensures
        r@ == hmac_sha1(key@, msg@),
{
    let mut mac = <hmac::Hmac<sha1::Sha1> as hmac::Mac>::new_from_slice(key).unwrap();
    hmac::Mac::update(&mut mac, msg);
    hmac::Mac::finalize(mac).into_bytes().to_vec()
}

/// The HTTP methods that a webhook distinguishes.
#[derive(Debug, Clone, Copy, PartialEq, Eq, Structural)]
pub enum Method {
    Get,
    Post,
    Other,
}

/// The parts of an inbound webhook request that its check reads.
#[derive(Debug, Clone)]
pub struct WebhookRequest {
    pub method: Method,
    /// The host name of the `Host` header, if there is one.
    pub host: Option<String>,
    /// The path of the request URI, with its query.
    pub path: String,
    /// The raw value of the `X-Twilio-Signature` header, if there is one.
    pub signature: Option<Vec<u8>>,
    pub body: Vec<u8>,
}

/// Each key followed by its value, for every pair in order, with no separator.
pub open spec fn append_suffix(pairs: Seq<(Seq<char>, Seq<char>)>) -> Seq<char>
    decreases pairs.len(),
{
    if pairs.len() == 0 {
        Seq::empty()
    } else {
        append_suffix(pairs.drop_last()) + pairs.last().0 + pairs.last().1
    }
}

/// The string that the provider signs for a request to `host` and `path`,
/// followed by `suffix` (the appended form fields of a POST).
pub open spec fn canonical_uri(host: Seq<char>, path: Seq<char>, suffix: Seq<char>) -> Seq<char> {
    "https://"@ + host + path + suffix
}

/// The digest that a correct signature header encodes.
pub open spec fn signature_of(secret: Seq<char>, uri: Seq<char>) -> Seq<u8> {
    hmac_sha1(encode_utf8(secret), encode_utf8(uri))
}

/// The arguments of a request, or `None` for a method other than GET or POST.
pub open spec fn request_args(req: WebhookRequest) -> Option<Seq<(Seq<char>, Seq<char>)>> {
    match req.method {
        Method::Get => Some(path_args(encode_utf8(req.path@))),
        Method::Post => Some(form_pairs_of(req.body@)),
        Method::Other => None,
    }
}

/// What is appended to the URI before signing: the form fields of a POST.
pub open spec fn request_suffix(req: WebhookRequest, args: Seq<(Seq<char>, Seq<char>)>) -> Seq<char> {
    if req.method == Method::Post {
        append_suffix(args)
    } else {
        Seq::empty()
    }
}

/// The outcome of checking a webhook request against the shared secret:
/// its arguments where it is authentic, else the error that rejects it.
pub open spec fn check_outcome(secret: Seq<char>, req: WebhookRequest) -> Result<
    Seq<(Seq<char>, Seq<char>)>,
    TwilioError,
> {
    match req.signature {
        None => Err(TwilioError::AuthError),
        Some(sig) => match base64_decoded(sig@) {
            None => Err(TwilioError::BadRequest),
            Some(expected) => match req.host {
                None => Err(TwilioError::BadRequest),
                Some(host) => if req.path@ == "*"@ {
                    Err(TwilioError::BadRequest)
                } else {
                    match request_args(req) {
                        None => Err(TwilioError::BadRequest),
                        Some(args) => if signature_of(
                            secret,
                            canonical_uri(host@, req.path@, request_suffix(req, args)),
                        ) == expected {
                            Ok(args)
                        } else {
                            Err(TwilioError::AuthError)
                        },
                    }
                },
            },
        },
    }
}

pub open spec fn mapping_outcome(r: Result<FieldMapping, TwilioError>) -> Result<
    Seq<(Seq<char>, Seq<char>)>,
    TwilioError,
> {
    match r {
        Ok(m) => Ok(m@),
        Err(e) => Err(e),
    }
}

/// Byte equality that reads every byte, whatever it finds.
fn bytes_equal(a: &[u8], b: &[u8]) -> (r: bool)
    ensures
        r == (a@ == b@),
{
    if a.len() != b.len() {
        return false;
    }
    let mut same = true;
    let mut i: usize = 0;
    while i < a.len()
        invariant
            a@.len() == b@.len(),
            i <= a@.len(),
            same == (a@.subrange(0, i as int) =~= b@.subrange(0, i as int)),
        decreases a@.len() - i,
    {
        let eq: bool = a[i] == b[i];
        same = same && eq;
        proof {
            let (pa, pb) = (a@.subrange(0, i as int), b@.subrange(0, i as int));
            let (qa, qb) = (a@.subrange(0, i + 1), b@.subrange(0, i + 1));
            assert(qa =~= pa.push(a@[i as int]));
            assert(qb =~= pb.push(b@[i as int]));
            if qa =~= qb {
                assert(qa[i as int] == qb[i as int]);
                assert(pa =~= qa.drop_last());
                assert(pb =~= qb.drop_last());
            }
        }
        i = i + 1;
    }
    assert(a@.subrange(0, i as int) =~= a@);
    assert(b@.subrange(0, i as int) =~= b@);
    same
}

/// The HMAC-SHA1 digest of `uri` under `secret`, as the provider computes it.
pub fn compute_signature(secret: &str, uri: &str) -> (r: Vec<u8>)
    ensures
        r@ == signature_of(secret@, uri@),
{
    hmac_sha1_digest(secret.as_bytes(), uri.as_bytes())
}

/// Appends each key and then its value to `s`, for every pair in order.
fn append_fields(s: &mut String, args: &FieldMapping)
    ensures
        final(s)@ == old(s)@ + append_suffix(args@),
{
    let mut i: usize = 0;
    while i < args.pairs.len()
        invariant
            i <= args@.len(),
            args@.len() == args.pairs@.len(),
            s@ == old(s)@ + append_suffix(args@.subrange(0, i as int)),
        decreases args.pairs@.len() - i,
    {
        let ghost pre = args@.subrange(0, i as int);
        assert(args@.subrange(0, i + 1).drop_last() =~= pre);
        s.append(args.pairs[i].0.as_str());
        s.append(args.pairs[i].1.as_str());
        i = i + 1;
    }
    assert(args@.subrange(0, i as int) =~= args@);
}

impl Client {
    /// Checks that a webhook request was signed by the provider with this
    /// client's auth token, and decodes its arguments: the query of a GET,
    /// the form body of a POST.
    pub fn parse_request(&self, req: &WebhookRequest) -> (r: Result<FieldMapping, TwilioError>)
        ensures
            mapping_outcome(r) == check_outcome(self.auth_token@, *req),
    {
        let sig = match &req.signature {
            None => return Err(TwilioError::AuthError),
            Some(s) => s,
        };
        let expected = match decode_base64(sig.as_slice()) {
            None => return Err(TwilioError::BadRequest),
            Some(e) => e,
        };
        let host = match &req.host {
            None => return Err(TwilioError::BadRequest),
            Some(h) => h,
        };
        let star = String::from_str("*");
        if req.path == star {
            return Err(TwilioError::BadRequest);
        }
        let mut uri = String::from_str("https://");
        uri.append(host.as_str());
        uri.append(req.path.as_str());
        let args = match req.method {
            Method::Get => get_args(req.path.as_str()),
            Method::Post => {
                let a = args_from_urlencoded(req.body.as_slice());
                append_fields(&mut uri, &a);
                a
            },
            Method::Other => return Err(TwilioError::BadRequest),
        };
        let digest = compute_signature(self.auth_token.as_str(), uri.as_str());
        if !bytes_equal(digest.as_slice(), expected.as_slice()) {
            return Err(TwilioError::AuthError);
        }
        Ok(args)
    }
}

/// The signature digest is a function of the secret and the URI: computing
/// it twice on the same values gives the same bytes.
pub proof fn lemma_signature_deterministic(s1: Seq<char>, u1: Seq<char>, s2: Seq<char>, u2: Seq<char>)
    requires
        s1 == s2,
        u1 == u2,
    ensures
        signature_of(s1, u1) == signature_of(s2, u2),
{
}

/// A well-formed GET or POST request is accepted exactly when its
/// signature header encodes the digest of its canonical URI; it then yields
/// its arguments.
pub proof fn lemma_accepted_iff_signed(secret: Seq<char>, req: WebhookRequest)
    requires
        req.signature is Some,
        base64_decoded(req.signature->Some_0@) is Some,
        req.host is Some,
        req.path@ != "*"@,
        req.method != Method::Other,
    ensures
        ({
            let args = request_args(req)->Some_0;
            let uri = canonical_uri(req.host->Some_0@, req.path@, request_suffix(req, args));
            let expected = base64_decoded(req.signature->Some_0@)->Some_0;
            &&& check_outcome(secret, req) is Ok <==> signature_of(secret, uri) == expected
            &&& check_outcome(secret, req) is Ok ==> check_outcome(secret, req) == Ok::<
                Seq<(Seq<char>, Seq<char>)>,
                TwilioError,
            >(args)
            &&& check_outcome(secret, req) is Err ==> check_outcome(secret, req) == Err::<
                Seq<(Seq<char>, Seq<char>)>,
                TwilioError,
            >(TwilioError::AuthError)
        }),
{
}

/// A signature header that is not valid base64 makes the request a bad
/// request, not an authentication failure.
pub proof fn lemma_malformed_signature_is_bad_request(secret: Seq<char>, req: WebhookRequest)
    requires
        req.signature is Some,
        base64_decoded(req.signature->Some_0@) is None,
    ensures
        check_outcome(secret, req) == Err::<Seq<(Seq<char>, Seq<char>)>, TwilioError>(
            TwilioError::BadRequest,
        ),
{
}

/// An accepted GET request whose path has no `?` has no arguments.
pub proof fn lemma_get_without_query_has_no_args(secret: Seq<char>, req: WebhookRequest)
    requires
        req.method == Method::Get,
        question_marks(encode_utf8(req.path@)) == 0,
        check_outcome(secret, req) is Ok,
    ensures
        check_outcome(secret, req) == Ok::<Seq<(Seq<char>, Seq<char>)>, TwilioError>(
            Seq::empty(),
        ),
{
}

/// The canonical URI of a request that names a host and a GET or POST method.
pub open spec fn signed_uri(req: WebhookRequest) -> Seq<char> {
    canonical_uri(req.host->Some_0@, req.path@, request_suffix(req, request_args(req)->Some_0))
}

/// Whether a request has everything that its check reads before the digest.
pub open spec fn well_formed(req: WebhookRequest) -> bool {
    &&& req.signature is Some
    &&& base64_decoded(req.signature->Some_0@) is Some
    &&& req.host is Some
    &&& req.path@ != "*"@
    &&& req.method != Method::Other
}

/// For one host and path, a different suffix (form fields in another order,
/// or with another value) gives a different canonical URI.
pub proof fn lemma_suffix_changes_uri(host: Seq<char>, path: Seq<char>, s1: Seq<char>, s2: Seq<char>)
    requires
        s1 != s2,
    ensures
        canonical_uri(host, path, s1) != canonical_uri(host, path, s2),
{
    let pre = "https://"@ + host + path;
    assert(canonical_uri(host, path, s1) == pre + s1);
    assert(canonical_uri(host, path, s2) == pre + s2);
    if pre + s1 == pre + s2 {
        assert(s1 =~= (pre + s1).subrange(pre.len() as int, (pre + s1).len() as int));
        assert(s2 =~= (pre + s2).subrange(pre.len() as int, (pre + s2).len() as int));
    }
}

/// With one signature header, two requests whose canonical URIs have
/// different digests are never both accepted: once one is, the other is an
/// authentication error. (Where two distinct URIs share a digest, nothing
/// tells them apart.)
pub proof fn lemma_distinct_digests_not_both_accepted(
    secret: Seq<char>,
    r1: WebhookRequest,
    r2: WebhookRequest,
)
    requires
        well_formed(r1),
        well_formed(r2),
        r1.signature->Some_0@ == r2.signature->Some_0@,
        signature_of(secret, signed_uri(r1)) != signature_of(secret, signed_uri(r2)),
        check_outcome(secret, r1) is Ok,
    ensures
        check_outcome(secret, r2) == Err::<Seq<(Seq<char>, Seq<char>)>, TwilioError>(
            TwilioError::AuthError,
        ),
{
}

} // verus!
