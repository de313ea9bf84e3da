use vstd::prelude::*;
use vstd::string::StringExecFns;

use crate::error::TwilioError;
use crate::form::{lookup, FieldMapping};

verus! {

pub open spec fn string_view(o: Option<String>) -> Option<Seq<char>> {
    match o {
        Some(s) => Some(s@),
        None => None,
    }
}

/// The last value given for `key`, if any.
pub fn find(m: &FieldMapping, key: &str) -> (r: Option<String>)
    ensures
        string_view(r) == lookup(m@, key@),
{
    let k = String::from_str(key);
    let mut found: Option<String> = None;
    let mut i: usize = 0;
    while i < m.pairs.len()
        invariant
            i <= m.pairs@.len(),
            m@.len() == m.pairs@.len(),
            k@ == key@,
            string_view(found) == lookup(m@.subrange(0, i as int), key@),
        decreases m.pairs@.len() - i,
    {
        assert(m@.subrange(0, i + 1).drop_last() =~= m@.subrange(0, i as int));
        if m.pairs[i].0 == k {
            found = Some(m.pairs[i].1.clone());
        }
        i = i + 1;
    }
    assert(m@.subrange(0, i as int) =~= m@);
    found
}

/// An inbound message event. Its text is required; the rest is optional.
#[derive(Debug, Clone)]
pub struct Message {
    pub sid: Option<String>,
    pub from: Option<String>,
    pub to: Option<String>,
    pub body: String,
}

/// An inbound call event. Its call SID is required; the rest is optional.
#[derive(Debug, Clone)]
pub struct Call {
    pub sid: String,
    pub from: Option<String>,
    pub to: Option<String>,
    pub status: Option<String>,
}

/// The domain objects that a webhook decodes to.
#[derive(Debug, Clone)]
pub enum Inbound {
    Message(Message),
    Call(Call),
}

/// Which domain object a webhook expects.
#[derive(Debug, Clone, Copy, PartialEq, Eq, Structural)]
pub enum InboundKind {
    Message,
    Call,
}

/// The message that a mapping decodes to: `None` where `Body` is missing.
pub open spec fn message_of(m: Seq<(Seq<char>, Seq<char>)>, r: Message) -> bool {
    &&& lookup(m, "Body"@) == Some(r.body@)
    &&& string_view(r.sid) == lookup(m, "MessageSid"@)
    &&& string_view(r.from) == lookup(m, "From"@)
    &&& string_view(r.to) == lookup(m, "To"@)
}

pub open spec fn call_of(m: Seq<(Seq<char>, Seq<char>)>, r: Call) -> bool {
    &&& lookup(m, "CallSid"@) == Some(r.sid@)
    &&& string_view(r.from) == lookup(m, "From"@)
    &&& string_view(r.to) == lookup(m, "To"@)
    &&& string_view(r.status) == lookup(m, "CallStatus"@)
}

/// Whether `r` is what a mapping decodes to for `kind`.
pub open spec fn decodes_to(kind: InboundKind, m: Seq<(Seq<char>, Seq<char>)>, r: Inbound) -> bool {
    match (kind, r) {
        (InboundKind::Message, Inbound::Message(x)) => message_of(m, x),
        (InboundKind::Call, Inbound::Call(x)) => call_of(m, x),
        _ => false,
    }
}

/// Whether a mapping holds every field that `kind` requires.
pub open spec fn has_required(kind: InboundKind, m: Seq<(Seq<char>, Seq<char>)>) -> bool {
    match kind {
        InboundKind::Message => lookup(m, "Body"@) is Some,
        InboundKind::Call => lookup(m, "CallSid"@) is Some,
    }
}

impl Message {
    pub fn from_map(m: &FieldMapping) -> (r: Result<Message, TwilioError>)
        ensures
            match r {
                Ok(x) => message_of(m@, x),
                Err(e) => e == TwilioError::ParsingError && lookup(m@, "Body"@) is None,
            },
    {
        let body = match find(m, "Body") {
            Some(b) => b,
            None => return Err(TwilioError::ParsingError),
        };
        Ok(Message { sid: find(m, "MessageSid"), from: find(m, "From"), to: find(m, "To"), body })
    }
}

impl Call {
    pub fn from_map(m: &FieldMapping) -> (r: Result<Call, TwilioError>)
        ensures
            match r {
                Ok(x) => call_of(m@, x),
                Err(e) => e == TwilioError::ParsingError && lookup(m@, "CallSid"@) is None,
            },
    {
        let sid = match find(m, "CallSid") {
            Some(s) => s,
            None => return Err(TwilioError::ParsingError),
        };
        Ok(
            Call {
                sid,
                from: find(m, "From"),
                to: find(m, "To"),
                status: find(m, "CallStatus"),
            },
        )
    }
}

impl Inbound {
    /// Converts a mapping into the domain object of `kind`; a missing
    /// required field is a parsing error.
    pub fn from_map(kind: InboundKind, m: &FieldMapping) -> (r: Result<Inbound, TwilioError>)
        ensures
            r is Ok <==> has_required(kind, m@),
            match r {
                Ok(x) => decodes_to(kind, m@, x),
                Err(e) => e == TwilioError::ParsingError,
            },
    {
        match kind {
            InboundKind::Message => match Message::from_map(m) {
                Ok(x) => Ok(Inbound::Message(x)),
                Err(e) => Err(e),
            },
            InboundKind::Call => match Call::from_map(m) {
                Ok(x) => Ok(Inbound::Call(x)),
                Err(e) => Err(e),
            },
        }
    }
}

} // verus!
