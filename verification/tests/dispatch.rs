use submitsnap_core::dispatch::{
    email_body, notification_email, render_value, truncate, webhook_payload, NotificationSource,
    MAX_BODY_BYTES,
};
use submitsnap_core::form::model::SubmissionStatus;
use submitsnap_core::form::validation::{FieldDefinition, FieldType, FormSchema};
use submitsnap_core::json::{JsonNumber, JsonValue};

fn text(s: &str) -> JsonValue {
    JsonValue::String(s.to_owned())
}

fn object(entries: Vec<(&str, JsonValue)>) -> JsonValue {
    JsonValue::Object(entries.into_iter().map(|(k, v)| (k.to_owned(), v)).collect(), "{}".to_owned())
}

fn field(key: &str, label: &str) -> FieldDefinition {
    FieldDefinition {
        key: key.to_owned(),
        field_type: FieldType::Text,
        label: label.to_owned(),
        required: false,
        help: None,
        placeholder: None,
        min_length: None,
        max_length: None,
        min: None,
        max: None,
        options: None,
        max_bytes: None,
        accept: None,
    }
}

/// 2026-01-02 03:04:05 UTC.
const CREATED_AT: i64 = 1_767_323_045_000_000;

fn source(data: JsonValue, fields: Vec<FieldDefinition>) -> NotificationSource {
    NotificationSource {
        organization_id: 0,
        form_id: 0,
        form_name: "Contact us".to_owned(),
        schema: FormSchema {
            title: "Contact us".to_owned(),
            description: None,
            submit_label: None,
            fields,
        },
        notify_emails: vec!["team@example.com".to_owned()],
        submission_id: 0,
        data,
        status: SubmissionStatus::Unread,
        created_at: CREATED_AT,
    }
}

#[test]
fn answers_are_labelled_and_ordered_like_the_form() {
    let source = source(
        object(vec![("email", text("a@b.co")), ("message", text("hello"))]),
        vec![field("email", "Email address"), field("message", "Message")],
    );

    let body = email_body(&source);

    let email_at = body.find("Email address: a@b.co").expect("the label is used");
    let message_at = body.find("Message: hello").expect("the label is used");
    assert!(email_at < message_at, "declaration order is kept");
}

#[test]
fn an_answer_for_a_field_that_is_gone_is_still_shown() {
    let source = source(
        object(vec![("email", text("a@b.co")), ("referrer", text("https://example.com"))]),
        vec![field("email", "Email")],
    );

    let body = email_body(&source);
    assert!(body.contains("Email: a@b.co"));
    assert!(
        body.contains("referrer: https://example.com"),
        "a retired field is kept, not dropped: {body}"
    );
}

#[test]
fn lists_are_flattened_and_empty_answers_are_blank() {
    let topics = JsonValue::Array(vec![text("Sales"), text("Support")], "[\"Sales\",\"Support\"]".to_owned());
    let source = source(
        object(vec![("note", JsonValue::Null), ("topics", topics)]),
        vec![field("topics", "Topics"), field("note", "Note")],
    );

    let body = email_body(&source);
    assert!(body.contains("Topics: Sales, Support"), "{body}");
    assert!(body.contains("Note: \n"), "{body}");
}

#[test]
fn a_huge_answer_is_truncated_rather_than_sent() {
    let source = source(
        object(vec![("message", text(&"x".repeat(MAX_BODY_BYTES * 2)))]),
        vec![field("message", "Message")],
    );

    let body = email_body(&source);
    assert!(body.len() <= MAX_BODY_BYTES + 32, "{} bytes", body.len());
    assert!(body.ends_with("[truncated]\n"));
}

#[test]
fn truncation_lands_on_a_character_boundary() {
    let mut text = "é".repeat(100);
    truncate(&mut text, 5);

    assert!(text.ends_with("[truncated]\n"));
    assert!(text.is_char_boundary(text.len()));
}

#[test]
fn a_text_that_fits_is_not_cut() {
    let mut fits = "héllo".to_owned();
    truncate(&mut fits, 6);
    assert_eq!(fits, "héllo");
    let mut cut = "héllo".to_owned();
    truncate(&mut cut, 2);
    assert_eq!(cut, "h\n\n[truncated]\n");
}

#[test]
fn the_whole_body_reads_like_the_form() {
    let source = source(
        object(vec![("a_gone", text("x")), ("email", text("a@b.co")), ("b_gone", JsonValue::Bool(true))]),
        vec![field("email", "Email")],
    );
    assert_eq!(
        email_body(&source),
        "Contact us received a new submission.\n\n  Email: a@b.co\n  a_gone: x\n  b_gone: true\n\nReceived 2026-01-02 03:04 UTC.\n"
    );
}

#[test]
fn each_recipient_gets_a_message_of_their_own() {
    let source = source(object(vec![]), vec![]);
    let job = notification_email(&source, "team@example.com");
    assert_eq!(job.to, "team@example.com");
    assert_eq!(job.subject, "New submission for \"Contact us\"");
    assert!(job.text_body.starts_with("Contact us received a new submission."));
}

#[test]
fn values_render_as_a_reader_expects() {
    let nested = JsonValue::Array(
        vec![
            JsonValue::Number(JsonNumber { order: 0, text: "1.5".to_owned() }),
            JsonValue::Array(vec![text("a")], "[\"a\"]".to_owned()),
            JsonValue::Object(vec![], "{}".to_owned()),
        ],
        "[1.5,[\"a\"],{}]".to_owned(),
    );
    assert_eq!(render_value(&nested), "1.5, a, {}");
    assert_eq!(render_value(&JsonValue::Bool(false)), "false");
    assert_eq!(render_value(&JsonValue::Null), "");
}

#[test]
fn the_webhook_payload_carries_the_event_the_form_and_the_answers() {
    let data = JsonValue::Object(
        vec![("email".to_owned(), text("a@b.co"))],
        "{\"email\":\"a@b.co\"}".to_owned(),
    );
    let source = source(data, vec![field("email", "Email")]);

    let payload: serde_json::Value = serde_json::from_str(&webhook_payload(&source)).unwrap();

    assert_eq!(payload["event"], "submission.received");
    assert_eq!(payload["form"]["name"], "Contact us");
    assert_eq!(payload["submission"]["data"]["email"], "a@b.co");
    assert_eq!(payload["submission"]["status"], "unread");
}

#[test]
fn the_webhook_payload_is_exact_compact_json() {
    let data = JsonValue::Object(vec![], "{}".to_owned());
    let mut source = source(data, vec![]);
    source.form_id = 1;
    source.submission_id = 2;
    source.form_name = "Say \"hi\"".to_owned();

    assert_eq!(
        webhook_payload(&source),
        "{\"event\":\"submission.received\",\"form\":{\"id\":\"00000000-0000-0000-0000-000000000001\",\
         \"name\":\"Say \\\"hi\\\"\"},\"submission\":{\"created_at\":\"2026-01-02T03:04:05Z\",\
         \"data\":{},\"id\":\"00000000-0000-0000-0000-000000000002\",\"status\":\"unread\"}}"
    );
}
