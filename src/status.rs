use vstd::prelude::*;
use vstd::string::StringExecFns;

verus! {

/// Whether two strings hold the same characters.
pub fn str_eq(a: &str, b: &str) -> (r: bool)
    ensures
        r == (a@ == b@),
{
    String::from_str(a) == String::from_str(b)
}

/// The delivery states of a message.
#[derive(Debug, Clone, Copy, PartialEq, Eq, Structural)]
pub enum MessageStatus {
    Queued,
    Sending,
    Sent,
    Failed,
    Delivered,
    Undelivered,
    Receiving,
    Received,
    Accepted,
    Scheduled,
    Read,
    PartiallyDelivered,
    Canceled,
}

/// The wire name of a status.
pub open spec fn status_name(s: MessageStatus) -> Seq<char> {
    match s {
        MessageStatus::Queued => "queued"@,
        MessageStatus::Sending => "sending"@,
        MessageStatus::Sent => "sent"@,
        MessageStatus::Failed => "failed"@,
        MessageStatus::Delivered => "delivered"@,
        MessageStatus::Undelivered => "undelivered"@,
        MessageStatus::Receiving => "receiving"@,
        MessageStatus::Received => "received"@,
        MessageStatus::Accepted => "accepted"@,
        MessageStatus::Scheduled => "scheduled"@,
        MessageStatus::Read => "read"@,
        MessageStatus::PartiallyDelivered => "partially_delivered"@,
        MessageStatus::Canceled => "canceled"@,
    }
}

/// The status whose wire name is `s`, if any.
pub open spec fn status_of_name(s: Seq<char>) -> Option<MessageStatus> {
    if s == "queued"@ { Some(MessageStatus::Queued) }
    else if s == "sending"@ { Some(MessageStatus::Sending) }
    else if s == "sent"@ { Some(MessageStatus::Sent) }
    else if s == "failed"@ { Some(MessageStatus::Failed) }
    else if s == "delivered"@ { Some(MessageStatus::Delivered) }
    else if s == "undelivered"@ { Some(MessageStatus::Undelivered) }
    else if s == "receiving"@ { Some(MessageStatus::Receiving) }
    else if s == "received"@ { Some(MessageStatus::Received) }
    else if s == "accepted"@ { Some(MessageStatus::Accepted) }
    else if s == "scheduled"@ { Some(MessageStatus::Scheduled) }
    else if s == "read"@ { Some(MessageStatus::Read) }
    else if s == "partially_delivered"@ { Some(MessageStatus::PartiallyDelivered) }
    else if s == "canceled"@ { Some(MessageStatus::Canceled) }
    else { None }
}

/// A status name that no status has.
#[derive(Debug, Clone)]
pub struct InvalidMessageStatus(pub String);

impl InvalidMessageStatus {
    /// The error's description.
    pub fn to_string(&self) -> (r: String)
        ensures
            r@ == "Invalid Twilio message status '"@ + self.0@ + "'"@,
    {
        let mut out = String::from_str("Invalid Twilio message status '");
        out.append(self.0.as_str());
        out.append("'");
        out
    }
}

impl MessageStatus {
    /// The wire name.
    pub fn to_string(&self) -> (r: String)
        ensures
            r@ == status_name(*self),
    {
        let s = match self {
            MessageStatus::Queued => "queued",
            MessageStatus::Sending => "sending",
            MessageStatus::Sent => "sent",
            MessageStatus::Failed => "failed",
            MessageStatus::Delivered => "delivered",
            MessageStatus::Undelivered => "undelivered",
            MessageStatus::Receiving => "receiving",
            MessageStatus::Received => "received",
            MessageStatus::Accepted => "accepted",
            MessageStatus::Scheduled => "scheduled",
            MessageStatus::Read => "read",
            MessageStatus::PartiallyDelivered => "partially_delivered",
            MessageStatus::Canceled => "canceled",
        };
        String::from_str(s)
    }

    /// The status named `s`; an unknown name is an error that carries it.
    pub fn from_str(s: &str) -> (r: Result<MessageStatus, InvalidMessageStatus>)
        ensures
            match r {
                Ok(x) => status_of_name(s@) == Some(x),
                Err(e) => status_of_name(s@) is None && e.0@ == s@,
            },
    {
        if str_eq(s, "queued") { Ok(MessageStatus::Queued) }
        else if str_eq(s, "sending") { Ok(MessageStatus::Sending) }
        else if str_eq(s, "sent") { Ok(MessageStatus::Sent) }
        else if str_eq(s, "failed") { Ok(MessageStatus::Failed) }
        else if str_eq(s, "delivered") { Ok(MessageStatus::Delivered) }
        else if str_eq(s, "undelivered") { Ok(MessageStatus::Undelivered) }
        else if str_eq(s, "receiving") { Ok(MessageStatus::Receiving) }
        else if str_eq(s, "received") { Ok(MessageStatus::Received) }
        else if str_eq(s, "accepted") { Ok(MessageStatus::Accepted) }
        else if str_eq(s, "scheduled") { Ok(MessageStatus::Scheduled) }
        else if str_eq(s, "read") { Ok(MessageStatus::Read) }
        else if str_eq(s, "partially_delivered") { Ok(MessageStatus::PartiallyDelivered) }
        else if str_eq(s, "canceled") { Ok(MessageStatus::Canceled) }
        else { Err(InvalidMessageStatus(String::from_str(s))) }
    }
}

} // verus!
