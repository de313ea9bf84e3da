use vstd::prelude::*;
use vstd::string::StringExecFns;
use vstd::utf8::encode_utf8;

use crate::client::Client;
use crate::error::TwilioError;
use crate::inbound::{decodes_to, Inbound, InboundKind};
use crate::twiml::{document, Twiml};
use crate::webhook::{check_outcome, WebhookRequest};

verus! {

/// The response that a webhook handler sends back.
#[derive(Debug, Clone)]
pub struct WebhookResponse {
    pub status: u16,
    /// Whether the body is XML markup (else plain text).
    pub xml: bool,
    pub body: String,
    /// The length of the body in bytes.
    pub content_length: usize,
}

/// The fixed answer to a request that failed its check or its decoding.
pub fn error_response() -> (r: WebhookResponse)
    ensures
        r.status == 400,
        !r.xml,
        r.body@ == "Error."@,
        r.content_length == encode_utf8(r.body@).len() as usize,
{
    let body = String::from_str("Error.");
    let n = body.as_str().len();
    WebhookResponse { status: 400, xml: false, body, content_length: n }
}

/// The answer that carries a markup document.
pub fn markup_response(t: &Twiml) -> (r: WebhookResponse)
    ensures
        r.status == 200,
        r.xml,
        r.body@ == document(t.verbs@),
        r.content_length == encode_utf8(r.body@).len() as usize,
{
    let body = t.as_twiml();
    let n = body.as_str().len();
    WebhookResponse { status: 200, xml: true, body, content_length: n }
}

/// Whether a request checks and decodes to `o` for `kind`.
pub open spec fn accepted_as(
    secret: Seq<char>,
    req: WebhookRequest,
    kind: InboundKind,
    o: Inbound,
) -> bool {
    match check_outcome(secret, req) {
        Ok(args) => decodes_to(kind, args, o),
        Err(_) => false,
    }
}

impl Client {
    /// Checks and decodes the request, then answers with the markup that
    /// `logic` makes of the decoded object. A request that fails either step
    /// gets the fixed error answer, and `logic` is not called.
    pub fn respond_to_webhook<F: Fn(Inbound) -> Twiml>(
        &self,
        req: &WebhookRequest,
        kind: InboundKind,
        logic: F,
    ) -> (r: WebhookResponse)
        requires
            forall|o: Inbound| logic.requires((o,)),
        ensures
            r.content_length == encode_utf8(r.body@).len() as usize,
            r.status == 200 ==> exists|o: Inbound, t: Twiml|
                accepted_as(self.auth_token@, *req, kind, o) && logic.ensures((o,), t)
                    && r.xml && r.body@ == document(t.verbs@),
            r.status != 200 ==> r.status == 400 && !r.xml && r.body@ == "Error."@
                && forall|o: Inbound| !accepted_as(self.auth_token@, *req, kind, o),
    {
        let args = match self.parse_request(req) {
            Ok(a) => a,
            Err(_) => return error_response(),
        };
        let o = match Inbound::from_map(kind, &args) {
            Ok(o) => o,
            Err(_) => return error_response(),
        };
        let t = logic(o);
        markup_response(&t)
    }
}

} // verus!
