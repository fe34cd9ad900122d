//! The notification service: the messages it delivers and its answer to an
//! e-mail once it has tried to queue it.

use vstd::prelude::*;

use fake::faker::internet::en::SafeEmail;
use fake::Fake;

use crate::status::{Code, Status};
use crate::time::Timestamp;

verus! {

/// Whether a character is a lowercase hexadecimal digit.
pub open spec fn is_lower_hex_digit(c: char) -> bool {
    ('0' <= c && c <= '9') || ('a' <= c && c <= 'f')
}

/// Whether a position of a hyphenated UUID holds a hyphen.
pub open spec fn is_uuid_hyphen_position(i: int) -> bool {
    i == 8 || i == 13 || i == 18 || i == 23
}

/// Whether a text is a hyphenated version-4 UUID of RFC 4122's variant, as
/// uuid writes it: 36 characters, hyphens after the 8th, 12th, 16th and 20th
/// digit, lowercase hex digits elsewhere, version digit `4`, and variant digit
/// `8`, `9`, `a` or `b`.
pub open spec fn is_v4_uuid_text(s: Seq<char>) -> bool {
    &&& s.len() == 36
    &&& forall|i: int| 0 <= i < 36 ==> if is_uuid_hyphen_position(i) {
        s[i] == '-'
    } else {
        is_lower_hex_digit(#[trigger] s[i])
    }
    &&& s[14] == '4'
    &&& (s[19] == '8' || s[19] == '9' || s[19] == 'a' || s[19] == 'b')
}

/// Whether a text is an address of the kind that fake's `SafeEmail` gives:
/// a name at `example.com`, `example.net` or `example.org`.
pub open spec fn is_safe_email(s: Seq<char>) -> bool {
    &&& s.len() >= 12
    &&& {
        ||| s.skip(s.len() - 12) == "@example.com"@
        ||| s.skip(s.len() - 12) == "@example.net"@
        ||| s.skip(s.len() - 12) == "@example.org"@
    }
}

/// Calls `uuid::Uuid::new_v4` and writes the id as text (`Display`, which is
/// uuid's lowercase hyphenated form). Claims the form of the text: `new_v4`
/// sets the version nibble to 4 and the variant bits to `10`; the other
/// digits are random and nothing is claimed of them.
#[verifier::external_body]
fn new_v4_uuid_text() -> (s: String)
    ensures
        is_v4_uuid_text(s@),
{
    uuid::Uuid::new_v4().to_string()
}

/// Calls `fake::Fake::fake` on `fake::faker::internet::en::SafeEmail`. Claims
/// only the form of the address: the name is random.
#[verifier::external_body]
fn fake_safe_email() -> (s: String)
    ensures
        is_safe_email(s@),
{
    SafeEmail().fake()
}

/// An e-mail to be delivered by the notification service.
#[derive(Debug)]
pub struct EmailMessage {
    pub message_id: String,
    pub subject: String,
    pub sender: String,
    pub recipients: Vec<String>,
    pub body: String,
}

/// A text message to be delivered by the notification service.
#[derive(Debug)]
pub struct SmsMessage {
    pub message_id: String,
    pub sender: String,
    pub recipients: Vec<String>,
    pub body: String,
}

/// A message shown inside the application on one device.
#[derive(Debug)]
pub struct InAppMessage {
    pub message_id: String,
    pub device_id: String,
    pub title: String,
    pub body: String,
}

/// The three kinds of message that the notification service delivers.
#[derive(Debug)]
pub enum Msg {
    Email(EmailMessage),
    Sms(SmsMessage),
    InApp(InAppMessage),
}

/// One request on the notification stream.
#[derive(Debug)]
pub struct SendRequest {
    pub msg: Option<Msg>,
}

/// The answer to one delivered message.
#[derive(Debug)]
pub struct SendResponse {
    pub message_id: String,
    pub timestamp: Option<Timestamp>,
}

impl From<EmailMessage> for Msg {
    fn from(email: EmailMessage) -> (m: Msg)
        ensures
            m == Msg::Email(email),
    {
        Msg::Email(email)
    }
}

impl vstd::std_specs::convert::FromSpecImpl<EmailMessage> for Msg {
    open spec fn obeys_from_spec() -> bool {
        true
    }

    open spec fn from_spec(email: EmailMessage) -> Msg {
        Msg::Email(email)
    }
}

impl From<EmailMessage> for SendRequest {
    fn from(email: EmailMessage) -> (r: SendRequest)
        ensures
            r == (SendRequest { msg: Some(Msg::Email(email)) }),
    {
        let msg: Msg = Msg::from(email);
        SendRequest { msg: Some(msg) }
    }
}

impl vstd::std_specs::convert::FromSpecImpl<EmailMessage> for SendRequest {
    open spec fn obeys_from_spec() -> bool {
        true
    }

    open spec fn from_spec(email: EmailMessage) -> SendRequest {
        SendRequest { msg: Some(Msg::Email(email)) }
    }
}

/// The text of the error answered when a message could not be queued.
pub open spec fn queue_failure_message() -> Seq<char> {
    "Failed to send message"@
}

impl EmailMessage {
    /// An e-mail with a random id and random addresses, for tests.
    pub fn fake() -> (m: EmailMessage)
        ensures
            is_v4_uuid_text(m.message_id@),
            is_safe_email(m.sender@),
            m.recipients@.len() == 1,
            is_safe_email(m.recipients@[0]@),
            m.subject@ == "Hello"@,
            m.body@ == "Hello, world!"@,
    {
        let message_id = new_v4_uuid_text();
        let sender = fake_safe_email();
        let mut recipients: Vec<String> = Vec::new();
        recipients.push(fake_safe_email());
        EmailMessage { message_id, sender, recipients, subject: "Hello".to_string(), body: "Hello, world!".to_string() }
    }

    /// What the service answers for an e-mail once it has tried to queue it:
    /// the message id with the time of delivery when it was queued, an
    /// internal error otherwise.
    pub fn delivery_response(message_id: String, queued: bool, timestamp: Timestamp) -> (r: Result<SendResponse, Status>)
        ensures
            queued ==> r == Ok::<SendResponse, Status>(SendResponse { message_id, timestamp: Some(timestamp) }),
            !queued ==> (r matches Err(s) && s.code == Code::Internal && s.message@ == queue_failure_message()),
    {
        if queued {
            Ok(SendResponse { message_id, timestamp: Some(timestamp) })
        } else {
            Err(Status::internal("Failed to send message"))
        }
    }
}

/// Converting an e-mail keeps it whole: it becomes the e-mail message, and
/// the request that carries it, with every field unchanged.
pub proof fn lemma_email_conversion_keeps_message(email: EmailMessage)
    ensures
        <Msg as vstd::std_specs::convert::FromSpec<EmailMessage>>::from_spec(email) matches Msg::Email(x)
            && x.message_id == email.message_id && x.subject == email.subject && x.sender == email.sender
            && x.recipients == email.recipients && x.body == email.body,
        <SendRequest as vstd::std_specs::convert::FromSpec<EmailMessage>>::from_spec(email).msg matches Some(
            Msg::Email(x),
        ) && x.message_id == email.message_id && x.subject == email.subject && x.sender == email.sender
            && x.recipients == email.recipients && x.body == email.body,
{
}

/// Wrapping an e-mail into a request gives the same message as converting it
/// into a `Msg` first.
pub proof fn lemma_request_wraps_msg(email: EmailMessage)
    ensures
        <SendRequest as vstd::std_specs::convert::FromSpec<EmailMessage>>::from_spec(email) == (SendRequest {
            msg: Some(<Msg as vstd::std_specs::convert::FromSpec<EmailMessage>>::from_spec(email)),
        }),
{
}

} // verus!
