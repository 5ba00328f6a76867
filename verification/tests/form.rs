use submitsnap_core::form::dto::{PublicFormResponse, UpdateFormRequest};
use submitsnap_core::form::download::{content_disposition, export_disposition};
use submitsnap_core::form::error::FormError;
use submitsnap_core::form::export::{csv_header, csv_row, escape, export_filename, json_row, ExportFormat};
use submitsnap_core::form::model::{public_path, FormStatus, SubmissionStatus};
use submitsnap_core::form::rules::{
    apply_update, check_bytes, check_claim_count, check_declared_type, check_file_references,
    check_notify_emails, check_redirect_url, clean_filename, download_of, file_answers, head_take,
    intake_status, normalise_content_type, object_key, upload_field, upload_limit,
    FileUploadRecord, FormDefinition,
};
use submitsnap_core::form::validation::{
    is_valid_key, validate_schema, validate_submission, FieldDefinition, FieldType, FormSchema,
    NumberBound, MAX_KEY_LENGTH,
};
use submitsnap_core::json::{JsonNumber, JsonValue};
use submitsnap_core::form::export::{ export_closing, export_columns, export_content_type, export_opening, json_separator, };
use submitsnap_core::form::dto::{ExportQuery, SubmissionQuery};
use submitsnap_core::form::model::{require_closable, resolve_public};
use submitsnap_core::organization::OrganizationError;
use submitsnap_core::form::rules::{inspects_now, interrupted_upload, stored_content_type};
use submitsnap_core::form::sample::sample_submission;

/// The order key of an `f64`: its bits, with the sign flipped for positives and every bit
/// flipped for negatives, so integer order is numeric order.
fn order_of(x: f64) -> u64 {
    let bits = x.to_bits();
    if bits >> 63 == 1 {
        !bits
    } else {
        bits | (1u64 << 63)
    }
}

fn text(s: &str) -> JsonValue {
    JsonValue::String(s.to_owned())
}

fn number(x: f64, shown: &str) -> JsonValue {
    JsonValue::Number(JsonNumber { order: order_of(x), text: shown.to_owned() })
}

fn object(entries: Vec<(&str, JsonValue)>, compact: &str) -> JsonValue {
    JsonValue::Object(
        entries.into_iter().map(|(k, v)| (k.to_owned(), v)).collect(),
        compact.to_owned(),
    )
}

fn entries(items: Vec<(&str, JsonValue)>) -> Vec<(String, JsonValue)> {
    items.into_iter().map(|(k, v)| (k.to_owned(), v)).collect()
}

fn schema(fields: Vec<FieldDefinition>) -> FormSchema {
    FormSchema {
        title: "Contact".to_owned(),
        description: None,
        submit_label: None,
        fields,
    }
}

fn field(key: &str, field_type: FieldType) -> FieldDefinition {
    FieldDefinition {
        key: key.to_owned(),
        field_type,
        label: key.to_owned(),
        required: false,
        help: None,
        placeholder: None,
        min_length: None,
        max_length: None,
        min: None,
        max: None,
        options: None,
        max_bytes: None,
        accept: None,
    }
}

const NIL: &str = "00000000-0000-0000-0000-000000000000";
const CREATED: &str = "2026-01-02T03:04:05+00:00";

#[test]
fn only_a_published_form_accepts_submissions() {
    assert!(FormStatus::Published.accepts_submissions());
    assert!(!FormStatus::Draft.accepts_submissions());
    assert!(!FormStatus::Closed.accepts_submissions());
}

#[test]
fn keys_must_look_like_keys() {
    assert!(is_valid_key("email"));
    assert!(is_valid_key("first_name_2"));
    assert!(!is_valid_key("Email"), "uppercase is rejected");
    assert!(!is_valid_key("2nd"), "a leading digit is rejected");
    assert!(!is_valid_key("first-name"), "hyphens are rejected");
    assert!(!is_valid_key(""), "an empty key is rejected");
    assert!(!is_valid_key(&"a".repeat(MAX_KEY_LENGTH + 1)));
}

#[test]
fn a_definition_reports_every_problem_at_once() {
    let broken = schema(vec![
        field("Email", FieldType::Email),
        field("email", FieldType::Email),
        field("email", FieldType::Email),
        field("colour", FieldType::Select),
        field("_hidden", FieldType::Text),
    ]);

    let problems: Vec<String> =
        validate_schema(&broken).unwrap_err().iter().map(|p| p.message()).collect();
    assert!(problems.iter().any(|p| p.contains("lowercase letter")));
    assert!(problems.iter().any(|p| p.contains("more than once")));
    assert!(problems.iter().any(|p| p.contains("needs options")));
    assert!(problems.iter().any(|p| p.contains("reserved")));
}

#[test]
fn a_select_needs_options_and_an_empty_form_is_refused() {
    assert!(validate_schema(&schema(vec![])).is_err());

    let mut select = field("topic", FieldType::Select);
    select.options = Some(vec!["Sales".to_owned()]);
    assert!(validate_schema(&schema(vec![select])).is_ok());
}

#[test]
fn a_payload_is_checked_against_the_definition() {
    let mut email = field("email", FieldType::Email);
    email.required = true;
    let definition = schema(vec![email, field("age", FieldType::Number)]);

    let good = entries(vec![("age", number(30.0, "30")), ("email", text("a@b.co"))]);
    assert!(validate_submission(&definition, good).is_ok());

    let bad = entries(vec![
        ("age", text("thirty")),
        ("email", text("not-an-address")),
        ("extra", number(1.0, "1")),
    ]);
    let problems: Vec<String> = validate_submission(&definition, bad)
        .unwrap_err()
        .iter()
        .map(|p| p.message())
        .collect();
    assert!(problems.iter().any(|p| p.contains("valid email")));
    assert!(problems.iter().any(|p| p.contains("must be a number")));
    assert!(problems.iter().any(|p| p.contains("not a field")));
}

#[test]
fn reserved_keys_are_dropped_rather_than_stored() {
    let definition = schema(vec![field("email", FieldType::Email)]);
    let payload = entries(vec![
        ("_gotcha", text("spam")),
        ("_source", text("landing")),
        ("email", text("a@b.co")),
    ]);

    let answers = validate_submission(&definition, payload).unwrap();

    assert_eq!(answers.len(), 1);
    assert!(answers.iter().any(|(key, _)| key == "email"));
}

#[test]
fn a_missing_required_answer_is_reported() {
    for absent in [vec![], vec![("email", text(""))], vec![("email", text("   "))]] {
        let mut email = field("email", FieldType::Email);
        email.required = true;
        let definition = schema(vec![email]);
        let problems: Vec<String> = validate_submission(&definition, entries(absent))
            .unwrap_err()
            .iter()
            .map(|p| p.message())
            .collect();
        assert!(problems.iter().any(|p| p.contains("required")), "{problems:?}");
    }
}

#[test]
fn select_answers_must_be_offered_options() {
    let offered = || {
        let mut topic = field("topic", FieldType::Select);
        topic.options = Some(vec!["Sales".to_owned(), "Support".to_owned()]);
        schema(vec![topic])
    };

    assert!(validate_submission(&offered(), entries(vec![("topic", text("Sales"))])).is_ok());
    assert!(validate_submission(&offered(), entries(vec![("topic", text("Other"))])).is_err());
}

#[test]
fn ranges_and_lengths_are_enforced() {
    let mut message = field("message", FieldType::Text);
    message.max_length = Some(5);
    let mut age = field("age", FieldType::Number);
    age.min = Some(NumberBound { order: order_of(18.0), display: "18".to_owned() });
    let definition = schema(vec![message, age]);

    let problems: Vec<String> = validate_submission(
        &definition,
        entries(vec![("age", number(12.0, "12")), ("message", text("far too long"))]),
    )
    .unwrap_err()
    .iter()
    .map(|p| p.message())
    .collect();

    assert!(problems.iter().any(|p| p.contains("at most 5 characters")));
    assert!(problems.iter().any(|p| p.contains("at least 18")));
}

#[test]
fn dates_must_parse() {
    let definition = schema(vec![field("when", FieldType::Date)]);

    assert!(validate_submission(&definition, entries(vec![("when", text("2026-01-31"))])).is_ok());
    assert!(validate_submission(&definition, entries(vec![("when", text("31/01/2026"))])).is_err());
}

#[test]
fn cells_are_quoted_only_when_they_need_to_be() {
    assert_eq!(escape("plain"), "plain");
    assert_eq!(escape("with,comma"), "\"with,comma\"");
    assert_eq!(escape("with\"quote"), "\"with\"\"quote\"");
    assert_eq!(escape("two\nlines"), "\"two\nlines\"");
}

#[test]
fn a_row_follows_the_column_order() {
    let columns = vec!["email".to_owned(), "note".to_owned()];
    let data = object(
        vec![("email", text("a@b.co")), ("note", text("hi, there"))],
        "{\"email\":\"a@b.co\",\"note\":\"hi, there\"}",
    );
    let row = csv_row(&columns, NIL, CREATED, SubmissionStatus::Unread, &data);

    assert!(row.ends_with("a@b.co,\"hi, there\"\n"), "{row}");
    assert!(row.starts_with(NIL));
    assert!(row.contains("unread"));
}

#[test]
fn a_missing_answer_becomes_an_empty_cell() {
    let columns = vec!["email".to_owned(), "absent".to_owned()];
    let data = object(vec![("email", text("a@b.co"))], "{\"email\":\"a@b.co\"}");
    let row = csv_row(&columns, NIL, CREATED, SubmissionStatus::Unread, &data);

    assert!(row.contains("a@b.co,\n"), "{row}");
}

#[test]
fn structured_answers_keep_their_shape() {
    let columns = vec!["tags".to_owned()];
    let tags = JsonValue::Array(vec![text("a"), text("b")], "[\"a\",\"b\"]".to_owned());
    let data = object(vec![("tags", tags)], "{\"tags\":[\"a\",\"b\"]}");
    let row = csv_row(&columns, NIL, CREATED, SubmissionStatus::Unread, &data);

    assert!(row.contains("\"[\"\"a\"\",\"\"b\"\"]\""), "{row}");
}

#[test]
fn the_header_lists_the_fixed_columns_then_the_escaped_fields() {
    let header = csv_header(&vec!["email".to_owned(), "a,b".to_owned()]);
    assert_eq!(header, "id,created_at,status,email,\"a,b\"\n");
}

#[test]
fn a_full_row_is_exact() {
    let columns = vec!["email".to_owned()];
    let data = object(vec![("email", text("a@b.co"))], "{\"email\":\"a@b.co\"}");
    let row = csv_row(&columns, NIL, CREATED, SubmissionStatus::Spam, &data);
    assert_eq!(row, format!("{NIL},{CREATED},spam,a@b.co\n"));
}

#[test]
fn export_filenames_name_the_format() {
    let csv = export_filename("Contact us", ExportFormat::Csv);
    let json = export_filename("Contact us", ExportFormat::Json);
    assert!(csv.ends_with(".csv"), "{csv}");
    assert!(json.ends_with(".json"), "{json}");
}

#[test]
fn a_honeypot_files_a_submission_as_spam_without_refusing_it() {
    let filled = entries(vec![("_gotcha", text("bot")), ("email", text("a@b.co"))]);
    let blank = entries(vec![("_gotcha", text("   ")), ("email", text("a@b.co"))]);
    let absent = entries(vec![("email", text("a@b.co"))]);
    assert_eq!(intake_status(true, &filled), SubmissionStatus::Spam);
    assert_eq!(intake_status(true, &blank), SubmissionStatus::Unread);
    assert_eq!(intake_status(true, &absent), SubmissionStatus::Unread);
    assert_eq!(intake_status(false, &filled), SubmissionStatus::Unread);
}

#[test]
fn uploads_never_exceed_the_instance_ceiling() {
    assert_eq!(upload_limit(Some(10), 100), 10);
    assert_eq!(upload_limit(Some(1000), 100), 100);
    assert_eq!(upload_limit(None, 100), 100);
}

#[test]
fn declared_types_are_normalised_and_checked_against_the_field() {
    assert_eq!(normalise_content_type(Some(" Image/PNG ; charset=x")), Some("image/png".to_owned()));
    assert_eq!(normalise_content_type(Some(" ; x")), None);
    assert_eq!(normalise_content_type(None), None);

    let mut photo = field("photo", FieldType::File);
    photo.accept = Some(vec!["image/*".to_owned(), "application/pdf".to_owned()]);
    assert!(check_declared_type(&photo, Some("image/png")).is_ok());
    assert!(check_declared_type(&photo, Some("application/pdf")).is_ok());
    match check_declared_type(&photo, Some("text/plain")) {
        Err(FormError::FileRejected(m)) => assert_eq!(m, "photo does not accept text/plain"),
        other => panic!("{other:?}"),
    }
    assert!(matches!(check_declared_type(&photo, None), Err(FormError::FileRejected(_))));
    assert!(check_declared_type(&field("any", FieldType::File), Some("text/plain")).is_ok());
}

#[test]
fn bytes_that_contradict_the_declared_type_are_refused() {
    assert!(check_bytes(None, false).is_ok());
    assert!(check_bytes(Some("image/png"), true).is_ok());
    match check_bytes(Some("image/png"), false) {
        Err(FormError::FileRejected(m)) => assert_eq!(m, "the contents do not look like image/png"),
        other => panic!("{other:?}"),
    }
}

#[test]
fn filenames_are_single_line_and_without_directories() {
    assert_eq!(clean_filename(Some("../../etc/passwd")), "passwd");
    assert_eq!(clean_filename(Some("C:\\Users\\me\\report.pdf")), "report.pdf");
    assert_eq!(clean_filename(Some("  bad\nname.txt ")), "badname.txt");
    assert_eq!(clean_filename(Some("dir/")), "file");
    assert_eq!(clean_filename(None), "file");
    assert_eq!(clean_filename(Some(&"x".repeat(300))).chars().count(), 200);
}

#[test]
fn the_download_header_cannot_be_broken_out_of() {
    assert_eq!(
        content_disposition("a\"b é.txt"),
        "attachment; filename=\"a_b _.txt\"; filename*=UTF-8''a%22b%20%C3%A9.txt"
    );
    assert_eq!(export_disposition("my \"form\".csv"), "attachment; filename=\"my form.csv\"");
}

#[test]
fn notification_addresses_and_redirects_are_checked() {
    assert!(check_notify_emails(&vec!["a@b.co".to_owned()]).is_ok());
    match check_notify_emails(&vec!["a@b.co".to_owned(), "nope".to_owned()]) {
        Err(FormError::InvalidSchema(m)) => assert_eq!(m, "nope is not a valid email address"),
        other => panic!("{other:?}"),
    }
    match check_notify_emails(&vec!["a@b.co".to_owned(); 21]) {
        Err(FormError::InvalidSchema(m)) => assert_eq!(m, "at most 20 notification addresses"),
        other => panic!("{other:?}"),
    }
    assert!(check_redirect_url(None).is_ok());
    assert!(check_redirect_url(Some("https://example.com/thanks")).is_ok());
    assert!(check_redirect_url(Some("javascript:alert(1)")).is_err());
}

fn record(field_key: &str, object_key: &str, used: bool) -> FileUploadRecord {
    FileUploadRecord {
        id: 1,
        field_key: field_key.to_owned(),
        object_key: object_key.to_owned(),
        filename: "f".to_owned(),
        content_type: "image/png".to_owned(),
        size_bytes: 3,
        submission_id: if used { Some(9) } else { None },
    }
}

#[test]
fn file_answers_must_refer_to_unclaimed_uploads_for_their_field() {
    let ledger = vec![record("photo", "k1", false), record("cv", "k2", true), record("cv", "k3", false)];
    let claim = |field: &str, key: &str| vec![(field.to_owned(), key.to_owned())];

    assert_eq!(check_file_references(&claim("photo", "k1"), &ledger).unwrap(), vec![0]);
    match check_file_references(&claim("photo", "nope"), &ledger) {
        Err(FormError::FileRejected(m)) => assert_eq!(m, "photo refers to a file this form did not receive"),
        other => panic!("{other:?}"),
    }
    match check_file_references(&claim("cv", "k2"), &ledger) {
        Err(FormError::FileRejected(m)) => assert_eq!(m, "cv refers to a file another submission already used"),
        other => panic!("{other:?}"),
    }
    match check_file_references(&claim("photo", "k3"), &ledger) {
        Err(FormError::FileRejected(m)) => assert_eq!(m, "photo refers to a file uploaded for a different field"),
        other => panic!("{other:?}"),
    }
}

#[test]
fn file_answers_are_read_from_file_fields_only() {
    let definition = schema(vec![field("photo", FieldType::File), field("note", FieldType::Text)]);
    let data = object(vec![("note", text("k9")), ("photo", text("k1"))], "{}");
    assert_eq!(file_answers(&definition, &data), vec![("photo".to_owned(), "k1".to_owned())]);
}

#[test]
fn uploads_go_to_file_fields_under_generated_keys() {
    let definition = schema(vec![field("photo", FieldType::File), field("note", FieldType::Text)]);
    assert_eq!(upload_field(&definition, "photo").unwrap(), 0);
    match upload_field(&definition, "note") {
        Err(FormError::FileRejected(m)) => assert_eq!(m, "note is not a file field on this form"),
        other => panic!("{other:?}"),
    }
    assert_eq!(
        object_key(1, 2, "tok"),
        "00000000-0000-0000-0000-000000000001/00000000-0000-0000-0000-000000000002/tok"
    );
    assert_eq!(head_take(0, 10, 4), 4);
    assert_eq!(head_take(2, 1, 4), 1);
    assert_eq!(head_take(4, 10, 4), 0);
    assert!(check_claim_count(2, 2).is_ok());
    assert!(check_claim_count(1, 2).is_err());
}

#[test]
fn a_download_needs_a_stored_object_key() {
    let files = object(
        vec![
            ("cv", object(vec![("key", text("k2"))], "{}")),
            ("photo", object(vec![("filename", text("me.png")), ("key", text("k1"))], "{}")),
        ],
        "{}",
    );
    let photo = download_of(&files, "photo").unwrap();
    assert_eq!((photo.object_key.as_str(), photo.filename.as_str()), ("k1", "me.png"));
    assert_eq!(photo.content_type, "application/octet-stream");
    assert_eq!(download_of(&files, "cv").unwrap().filename, "file");
    assert!(matches!(download_of(&files, "other"), Err(FormError::FileMissing)));
}

fn definition(status: FormStatus) -> FormDefinition {
    FormDefinition {
        name: "Contact".to_owned(),
        status,
        schema: schema(vec![field("email", FieldType::Email)]),
        notify_emails: vec![],
        success_message: None,
        redirect_url: None,
        honeypot_enabled: false,
    }
}

fn request() -> UpdateFormRequest {
    UpdateFormRequest {
        name: None,
        schema: None,
        notify_emails: None,
        success_message: None,
        redirect_url: None,
        honeypot_enabled: None,
    }
}

#[test]
fn an_update_keeps_what_it_leaves_out() {
    let mut change = request();
    change.name = Some("  Renamed  ".to_owned());
    change.success_message = Some(Some("Thanks".to_owned()));
    let (merged, changed) = apply_update(definition(FormStatus::Draft), change, false).unwrap();
    assert_eq!(merged.name, "Renamed");
    assert_eq!(merged.success_message.as_deref(), Some("Thanks"));
    assert_eq!(merged.schema.fields.len(), 1);
    assert!(!changed);

    let mut fields = request();
    fields.schema = Some(schema(vec![field("email", FieldType::Email), field("note", FieldType::Text)]));
    let (_, changed) = apply_update(definition(FormStatus::Draft), fields, false).unwrap();
    assert!(changed);
}

#[test]
fn an_update_is_refused_by_its_first_failing_check() {
    let mut blank = request();
    blank.name = Some("   ".to_owned());
    match apply_update(definition(FormStatus::Draft), blank, false) {
        Err(FormError::InvalidSchema(m)) => assert_eq!(m, "name must be between 1 and 120 characters"),
        other => panic!("{other:?}"),
    }

    let mut files = request();
    files.schema = Some(schema(vec![field("cv", FieldType::File)]));
    assert!(apply_update(definition(FormStatus::Draft), files, false).is_ok());
    let mut files = request();
    files.schema = Some(schema(vec![field("cv", FieldType::File)]));
    assert!(matches!(
        apply_update(definition(FormStatus::Published), files, false),
        Err(FormError::FileUploadsUnavailable)
    ));

    let mut redirect = request();
    redirect.redirect_url = Some(Some("ftp://x".to_owned()));
    match apply_update(definition(FormStatus::Draft), redirect, false) {
        Err(FormError::InvalidSchema(m)) => assert_eq!(m, "redirect_url must be an http or https address"),
        other => panic!("{other:?}"),
    }
}

#[test]
fn the_public_definition_names_the_honeypot_only_when_enabled() {
    let shown = PublicFormResponse::new(schema(vec![field("email", FieldType::Email)]), true);
    assert_eq!(shown.honeypot_field.as_deref(), Some("_gotcha"));
    assert_eq!(shown.fields.len(), 1);
    let hidden = PublicFormResponse::new(schema(vec![]), false);
    assert_eq!(hidden.honeypot_field, None);
    assert_eq!(public_path("abc"), "/f/abc");
}

#[test]
fn an_export_is_framed_so_an_empty_one_is_still_well_formed() {
    let fields = vec![field("email", FieldType::Email), field("note", FieldType::Text)];
    let stored = vec!["note".to_owned(), "retired".to_owned()];
    assert_eq!(export_columns(&fields, &stored), vec!["email", "note", "retired"]);
    assert_eq!(export_opening(ExportFormat::Json, &vec![]), "[");
    assert_eq!(export_opening(ExportFormat::Csv, &vec!["email".to_owned()]), "id,created_at,status,email\n");
    assert_eq!(export_closing(ExportFormat::Json).as_deref(), Some("]"));
    assert_eq!(export_closing(ExportFormat::Csv), None);
    assert_eq!((json_separator(true), json_separator(false)), ("", ","));
    assert_eq!(export_content_type(ExportFormat::Csv), "text/csv; charset=utf-8");
}

#[test]
fn a_draft_is_not_found_and_a_closed_form_says_so() {
    assert!(resolve_public(FormStatus::Published).is_ok());
    assert!(matches!(resolve_public(FormStatus::Draft), Err(FormError::NotFound)));
    assert!(matches!(resolve_public(FormStatus::Closed), Err(FormError::Closed)));
    assert!(require_closable(FormStatus::Published).is_ok());
    match require_closable(FormStatus::Draft) {
        Err(FormError::InvalidSchema(m)) => assert_eq!(m, "only a published form can be closed"),
        other => panic!("{other:?}"),
    }
    assert_eq!(ExportQuery { format: None }.format_or_default(), ExportFormat::Csv);
    let query = SubmissionQuery {
        limit: None,
        offset: None,
        form_id: Some(4),
        status: None,
        since: None,
        until: None,
        field: None,
        value: None,
    };
    assert_eq!(query.form_filter(Some(9)), Some(9));
    assert_eq!(query.form_filter(None), Some(4));
    assert_eq!(query.bounds(), (50, 0));
}

#[test]
fn organization_failures_become_form_failures() {
    assert!(matches!(FormError::from_organization(OrganizationError::NotFound), FormError::NotFound));
    assert!(matches!(FormError::from_organization(OrganizationError::NotAMember), FormError::Forbidden));
    assert!(matches!(FormError::from_organization(OrganizationError::LastOwner), FormError::Internal(_)));
}

#[test]
fn an_upload_is_inspected_once_and_sized_against_its_limit() {
    assert!(inspects_now(false, 4, 4, false));
    assert!(!inspects_now(false, 3, 4, false));
    assert!(inspects_now(false, 3, 4, true));
    assert!(!inspects_now(true, 4, 4, true));
    assert!(matches!(interrupted_upload(10, 10, "x".to_owned()), FormError::FileTooLarge { limit: 10 }));
    assert!(matches!(interrupted_upload(9, 10, "x".to_owned()), FormError::Internal(_)));
    assert_eq!(stored_content_type(None), "application/octet-stream");
    assert_eq!(stored_content_type(Some("image/png".to_owned())), "image/png");
    assert_eq!(FormError::FileTooLarge { limit: 1024 }.message(), "the file exceeds the 1024 byte limit");
}

#[test]
fn problems_name_their_field_as_written() {
    let broken = schema(vec![field("Email", FieldType::Email)]);
    let problems: Vec<String> =
        validate_schema(&broken).unwrap_err().iter().map(|p| p.message()).collect();
    assert!(problems.contains(
        &"field \"Email\": key must start with a lowercase letter and contain only lowercase letters, digits, and underscores, up to 64 characters"
            .to_owned()
    ), "{problems:?}");
    let unknown = validate_submission(&schema(vec![]), entries(vec![("x\"y", text("1"))]))
        .unwrap_err()
        .iter()
        .map(|p| p.message())
        .collect::<Vec<_>>();
    assert!(unknown.contains(&"\"x\\\"y\" is not a field on this form".to_owned()), "{unknown:?}");
}

fn required(key: &str, field_type: FieldType) -> FieldDefinition {
    FieldDefinition { required: true, ..field(key, field_type) }
}

#[test]
fn text_bounds_that_leave_no_answer_are_refused() {
    let mut zero = required("comment", FieldType::Text);
    zero.max_length = Some(0);
    let problems: Vec<String> =
        validate_schema(&schema(vec![zero])).unwrap_err().iter().map(|p| p.message()).collect();
    assert_eq!(problems, vec!["field \"comment\": max_length must be greater than zero".to_owned()]);

    let mut long = required("essay", FieldType::Textarea);
    long.min_length = Some(10_001);
    let problems: Vec<String> =
        validate_schema(&schema(vec![long])).unwrap_err().iter().map(|p| p.message()).collect();
    assert_eq!(
        problems,
        vec!["field \"essay\": min_length is greater than the 10000 character limit".to_owned()]
    );

    let mut wide = required("essay", FieldType::Textarea);
    wide.min_length = Some(10_001);
    wide.max_length = Some(20_000);
    assert!(validate_schema(&schema(vec![wide])).is_ok(), "an explicit maximum may go beyond the limit");

    let mut counted = required("age", FieldType::Number);
    counted.max_length = Some(0);
    assert!(validate_schema(&schema(vec![counted])).is_ok(), "lengths do not bound a number");
}

#[test]
fn blank_select_options_are_refused() {
    let mut colour = required("colour", FieldType::Select);
    colour.options = Some(vec!["red".to_owned(), "  ".to_owned()]);
    let problems: Vec<String> =
        validate_schema(&schema(vec![colour])).unwrap_err().iter().map(|p| p.message()).collect();
    assert_eq!(problems, vec!["field \"colour\": select options must not be blank".to_owned()]);
}

#[test]
fn every_valid_form_can_be_submitted() {
    let mut name = required("name", FieldType::Text);
    name.min_length = Some(3);
    name.max_length = Some(3);
    let mut colour = required("colour", FieldType::Select);
    colour.options = Some(vec!["red".to_owned(), "blue".to_owned()]);
    let mut age = required("age", FieldType::Number);
    age.min = Some(NumberBound { order: order_of(18.0), display: "18".to_owned() });
    let form = schema(vec![
        name,
        required("email", FieldType::Email),
        colour,
        age,
        required("born", FieldType::Date),
        required("agree", FieldType::Checkbox),
        required("cv", FieldType::File),
        field("note", FieldType::Textarea),
    ]);
    assert!(validate_schema(&form).is_ok());

    let payload = sample_submission(&form, "person@example.com");
    let shown: Vec<String> = payload.iter().map(|entry| format!("{:?}", entry)).collect();
    assert_eq!(shown.len(), 7, "one answer per required field");
    assert_eq!(shown[0], format!("{:?}", ("name".to_owned(), text("aaa"))));
    assert_eq!(shown[1], format!("{:?}", ("email".to_owned(), text("person@example.com"))));
    assert_eq!(shown[2], format!("{:?}", ("colour".to_owned(), text("red"))));
    assert_eq!(shown[4], format!("{:?}", ("born".to_owned(), text("2015-09-05"))));
    assert_eq!(shown[5], format!("{:?}", ("agree".to_owned(), JsonValue::Bool(true))));

    let answers = validate_submission(&form, payload).unwrap();
    let stored: Vec<String> = answers.iter().map(|entry| format!("{:?}", entry)).collect();
    assert_eq!(stored, shown);
}

#[test]
fn a_successful_submission_stores_exactly_the_unreserved_non_null_answers() {
    let form = schema(vec![field("name", FieldType::Text), field("age", FieldType::Number)]);
    let payload = entries(vec![
        ("_gotcha", text("")),
        ("name", text("Ada")),
        ("age", JsonValue::Null),
        ("_page", text("2")),
    ]);

    let stored = validate_submission(&form, payload).unwrap();
    assert_eq!(format!("{:?}", stored), format!("{:?}", entries(vec![("name", text("Ada"))])));
}

#[test]
fn a_refused_answer_that_is_not_null_is_always_reported() {
    let form = schema(vec![field("age", FieldType::Number), field("born", FieldType::Date)]);
    let problems = validate_submission(
        &form,
        entries(vec![("age", text("ten")), ("born", text("yesterday"))]),
    )
    .unwrap_err();
    let messages: Vec<String> = problems.iter().map(|p| p.message()).collect();
    assert_eq!(messages.len(), 2);
}

#[test]
fn json_rows_are_one_object_each() {
    let first_data = JsonValue::Object(
        vec![("email".to_owned(), text("a@b.co"))],
        "{\"email\":\"a@b.co\"}".to_owned(),
    );
    let second_data = JsonValue::Object(
        vec![("email".to_owned(), text("c@d.co"))],
        "{\"email\":\"c@d.co\"}".to_owned(),
    );
    let first = json_row(1, 0, SubmissionStatus::Unread, &first_data, "");
    let second = json_row(2, 0, SubmissionStatus::Unread, &second_data, ",");

    assert!(first.starts_with('{'));
    assert!(second.starts_with(','));
    assert!(first.contains("\"email\":\"a@b.co\""));
    assert!(first.contains("\"status\":\"unread\""));
}

#[test]
fn a_json_row_is_exact_and_parses() {
    let row = json_row(
        0x0123_4567_89ab_cdef_0123_4567_89ab_cdef,
        1_767_323_045_500_000,
        SubmissionStatus::Spam,
        &text("line\nbreak"),
        ",",
    );
    assert_eq!(
        row,
        ",{\"created_at\":\"2026-01-02T03:04:05.500Z\",\"data\":\"line\\nbreak\",\
         \"id\":\"01234567-89ab-cdef-0123-456789abcdef\",\"status\":\"spam\"}"
    );
    let parsed: serde_json::Value = serde_json::from_str(&row[1..]).unwrap();
    assert_eq!(parsed["data"], "line\nbreak");
}

#[test]
fn upload_metadata_names_the_object_and_its_size() {
    let upload = FileUploadRecord {
        id: 1,
        field_key: "cv".to_owned(),
        object_key: "forms/1/cv/abc".to_owned(),
        filename: "my \"cv\".pdf".to_owned(),
        content_type: "application/pdf".to_owned(),
        size_bytes: 2048,
        submission_id: None,
    };
    assert_eq!(
        upload.metadata(),
        "{\"content_type\":\"application/pdf\",\"filename\":\"my \\\"cv\\\".pdf\",\
         \"key\":\"forms/1/cv/abc\",\"size\":2048}"
    );
    let parsed: serde_json::Value = serde_json::from_str(&upload.metadata()).unwrap();
    assert_eq!(parsed["size"], 2048);
}
