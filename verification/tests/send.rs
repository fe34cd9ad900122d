use crm::send::{EmailMessage, Msg, SendRequest};
use crm::status::Code;
use crm::time::Timestamp;

fn email() -> EmailMessage {
    EmailMessage {
        message_id: "m-1".to_string(),
        subject: "Hello".to_string(),
        sender: "a@example.com".to_string(),
        recipients: vec!["b@example.com".to_string()],
        body: "Hello, world!".to_string(),
    }
}

#[test]
fn email_converts_into_email_msg() {
    match Msg::from(email()) {
        Msg::Email(e) => {
            assert_eq!(e.message_id, "m-1");
            assert_eq!(e.recipients, vec!["b@example.com".to_string()]);
        }
        _ => panic!("not an e-mail"),
    }
}

#[test]
fn email_converts_into_request_with_email_msg() {
    let request = SendRequest::from(email());
    match request.msg {
        Some(Msg::Email(e)) => {
            assert_eq!(e.subject, "Hello");
            assert_eq!(e.body, "Hello, world!");
        }
        _ => panic!("not an e-mail request"),
    }
}

#[test]
fn queued_email_is_answered_with_its_id_and_time() {
    let ts = Timestamp { seconds: 1_715_040_000, nanos: 5 };
    let response = EmailMessage::delivery_response("m-7".to_string(), true, ts).unwrap();
    assert_eq!(response.message_id, "m-7");
    assert_eq!(response.timestamp, Some(ts));
}

#[test]
fn unqueued_email_is_an_internal_error() {
    let ts = Timestamp { seconds: 0, nanos: 0 };
    let err = EmailMessage::delivery_response("m-7".to_string(), false, ts).unwrap_err();
    assert_eq!(err.code, Code::Internal);
    assert_eq!(err.message, "Failed to send message");
}

#[test]
fn fake_email_has_the_expected_form() {
    let m = EmailMessage::fake();
    assert_eq!(m.message_id.len(), 36);
    assert_eq!(&m.message_id[14..15], "4");
    let parsed = uuid::Uuid::parse_str(&m.message_id).unwrap();
    assert_eq!(parsed.get_version_num(), 4);
    assert!("89ab".contains(&m.message_id[19..20]));
    assert!(m.message_id.chars().enumerate().all(|(i, c)| if [8, 13, 18, 23].contains(&i) { c == '-' } else { c.is_ascii_hexdigit() && !c.is_ascii_uppercase() }));
    assert!(m.sender.ends_with("@example.com") || m.sender.ends_with("@example.net") || m.sender.ends_with("@example.org"));
    assert_eq!(m.recipients.len(), 1);
    assert!(m.recipients[0].contains('@'));
    assert_eq!(m.subject, "Hello");
    assert_eq!(m.body, "Hello, world!");
    assert_ne!(EmailMessage::fake().message_id, m.message_id);
}
