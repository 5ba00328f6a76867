//! The decisions the form service makes around storage: what a honeypot means, which uploads a
//! submission may claim, which uploads a field takes, how a definition is checked on every
//! write, and how an update is merged into the stored form.

use vstd::prelude::*;
use crate::form::dto::UpdateFormRequest;
use crate::form::error::FormError;
use crate::form::model::{FormStatus, SubmissionStatus};
use crate::form::validation::{
    FieldDefinition, FormSchema, NumberBound, SchemaProblem, SubmissionProblem, FieldType,
    HONEYPOT_FIELD, field_index, has_file_field, schema_problem_message, schema_problems,
    submission_problem_message, validate_email, validate_schema, html_email,
};
use crate::json::{
    JsonValue, json_quoted, lemma_map_first_unique, map_find, map_first, map_get, map_has,
    push_member, quote_json,
};
use crate::auth::uuid_text::{uuid_hyphenated, uuid_text};
use crate::text::{
    ascii_lowercase, ascii_lowercased, blank, chars_of, chars_eq, concat, has_prefix, is_blank,
    is_control, join, join_strings, owned, push_str, signed_decimal, signed_decimal_string,
    starts_with, string_of, trim,
    trimmed, trimmed_string, views,
};

verus! {

// ------------------------------------------------------------------------------------------
// Honeypot
// ------------------------------------------------------------------------------------------

/// Whether the honeypot was filled: present, not null, and not a blank string.
pub open spec fn honeypot_filled(payload: Seq<(String, JsonValue)>) -> bool {
    match map_get(payload, HONEYPOT_FIELD@) {
        None => false,
        Some(JsonValue::Null) => false,
        Some(JsonValue::String(text)) => !is_blank(text@),
        Some(_) => true,
    }
}

/// When the honeypot counts as filled: when the payload's first `_gotcha` entry holds anything
/// but null or a blank string. A payload without that entry never fills it.
pub proof fn law_when_the_honeypot_is_filled(payload: Seq<(String, JsonValue)>, k: int)
    ensures
        !map_has(payload, HONEYPOT_FIELD@) ==> !honeypot_filled(payload),
        map_first(payload, HONEYPOT_FIELD@, k) ==> (honeypot_filled(payload) <==> !(payload[k].1 is Null)
            && !(payload[k].1 is String && is_blank(payload[k].1->String_0@))),
{
    if map_first(payload, HONEYPOT_FIELD@, k) {
        lemma_map_first_unique(payload, HONEYPOT_FIELD@, k);
    }
}

/// Whether a payload filled the honeypot.
pub fn honeypot_was_filled(payload: &Vec<(String, JsonValue)>) -> (b: bool)
    ensures
        b == honeypot_filled(payload@),
{
    match map_find(payload, HONEYPOT_FIELD) {
        None => false,
        Some(i) => match &payload[i].1 {
            JsonValue::Null => false,
            JsonValue::String(text) => !blank(text.as_str()),
            _ => true,
        },
    }
}

/// How a valid submission is filed. A bot that fills every input fills the honeypot too: it is
/// accepted as normal so it learns nothing, and filed as spam for the organization to ignore.
pub fn intake_status(honeypot_enabled: bool, payload: &Vec<(String, JsonValue)>) -> (s:
    SubmissionStatus)
    ensures
        s == (if honeypot_enabled && honeypot_filled(payload@) {
            SubmissionStatus::Spam
        } else {
            SubmissionStatus::Unread
        }),
{
    if honeypot_enabled && honeypot_was_filled(payload) {
        SubmissionStatus::Spam
    } else {
        SubmissionStatus::Unread
    }
}

/// The honeypot a public definition names, when the form has one.
pub fn honeypot_field(enabled: bool) -> (r: Option<String>)
    ensures
        enabled ==> (r matches Some(s) && s@ == HONEYPOT_FIELD@),
        !enabled ==> r is None,
{
    if enabled {
        Some(owned(HONEYPOT_FIELD))
    } else {
        None
    }
}

// ------------------------------------------------------------------------------------------
// File answers
// ------------------------------------------------------------------------------------------

/// The views of (field key, object key) pairs.
pub open spec fn pair_views(pairs: Seq<(String, String)>) -> Seq<(Seq<char>, Seq<char>)> {
    pairs.map_values(|p: (String, String)| (p.0@, p.1@))
}

/// The file answers among the first `n` fields, as (field key, object key) pairs.
pub open spec fn file_answer_pairs(
    fields: Seq<FieldDefinition>,
    answers: Seq<(String, JsonValue)>,
    n: int,
) -> Seq<(Seq<char>, Seq<char>)>
    decreases n,
{
    if n <= 0 {
        seq![]
    } else {
        let earlier = file_answer_pairs(fields, answers, n - 1);
        let field = fields[n - 1];
        if field.field_type == FieldType::File {
            match map_get(answers, field.key@) {
                Some(JsonValue::String(object_key)) => earlier.push((field.key@, object_key@)),
                _ => earlier,
            }
        } else {
            earlier
        }
    }
}

/// The file answers of stored data: every file field, in declaration order, whose answer is a
/// string. Data that is not an object has none.
pub open spec fn file_answers_of(schema: FormSchema, data: JsonValue) -> Seq<(Seq<char>, Seq<char>)> {
    match data {
        JsonValue::Object(entries, _) => file_answer_pairs(
            schema.fields@,
            entries@,
            schema.fields@.len() as int,
        ),
        _ => seq![],
    }
}

/// The file answers in a validated payload, as (field key, object key) pairs.
pub fn file_answers(schema: &FormSchema, data: &JsonValue) -> (r: Vec<(String, String)>)
    ensures
        pair_views(r@) == file_answers_of(*schema, *data),
{
    let mut found: Vec<(String, String)> = Vec::new();
    match data {
        JsonValue::Object(entries, _) => {
            let mut i: usize = 0;
            while i < schema.fields.len()
                invariant
                    i <= schema.fields@.len(),
                    pair_views(found@) == file_answer_pairs(schema.fields@, entries@, i as int),
                decreases schema.fields@.len() - i,
            {
                let field = &schema.fields[i];
                let ghost before = found@;
                if field.field_type == FieldType::File {
                    match map_find(entries, field.key.as_str()) {
                        Some(j) => match &entries[j].1 {
                            JsonValue::String(object_key) => {
                                found.push((field.key.clone(), object_key.clone()));
                            },
                            _ => {},
                        },
                        None => {},
                    }
                }
                i = i + 1;
                proof {
                    assert(pair_views(found@) =~= file_answer_pairs(
                        schema.fields@,
                        entries@,
                        i as int,
                    ));
                }
            }
            found
        },
        _ => {
            assert(pair_views(found@) =~= seq![]);
            found
        },
    }
}

/// An upload that has been stored but not yet claimed by a submission.
#[derive(Debug)]
pub struct FileUploadRecord {
    pub id: u128,
    pub field_key: String,
    pub object_key: String,
    pub filename: String,
    pub content_type: String,
    pub size_bytes: i64,
    pub submission_id: Option<u128>,
}

/// The JSON object a submission stores about an attached file: its members in the order
/// `serde_json` keeps them (by name).
pub open spec fn upload_metadata(u: FileUploadRecord) -> Seq<char> {
    "{\"content_type\":"@ + json_quoted(u.content_type@) + ",\"filename\":"@ + json_quoted(
        u.filename@,
    ) + ",\"key\":"@ + json_quoted(u.object_key@) + ",\"size\":"@ + signed_decimal(u.size_bytes)
        + "}"@
}

impl FileUploadRecord {
    /// The shape stored with a submission. Enough to render a download link and to explain what
    /// was attached, without another lookup.
    pub fn metadata(&self) -> (r: String)
        ensures
            r@ == upload_metadata(*self),
    {
        let mut out = String::new();
        let content_type = quote_json(self.content_type.as_str());
        push_member(&mut out, "{\"content_type\":", content_type.as_str());
        let filename = quote_json(self.filename.as_str());
        push_member(&mut out, ",\"filename\":", filename.as_str());
        let key = quote_json(self.object_key.as_str());
        push_member(&mut out, ",\"key\":", key.as_str());
        let size = signed_decimal_string(self.size_bytes);
        push_member(&mut out, ",\"size\":", size.as_str());
        push_str(&mut out, "}");
        proof {
            assert(out@ =~= upload_metadata(*self));
        }
        out
    }
}

/// Whether `i` is the first upload with this object key.
pub open spec fn first_upload(recorded: Seq<FileUploadRecord>, object_key: Seq<char>, i: int) -> bool {
    &&& 0 <= i < recorded.len()
    &&& recorded[i].object_key@ == object_key
    &&& forall|j: int| 0 <= j < i ==> (#[trigger] recorded[j]).object_key@ != object_key
}

/// The upload an object key refers to: the first one recorded with it.
pub open spec fn upload_index(recorded: Seq<FileUploadRecord>, object_key: Seq<char>) -> Option<int> {
    if exists|i: int| 0 <= i < recorded.len() && (#[trigger] recorded[i]).object_key@ == object_key {
        Some(choose|i: int| first_upload(recorded, object_key, i))
    } else {
        None
    }
}

proof fn lemma_first_upload(recorded: Seq<FileUploadRecord>, object_key: Seq<char>, i: int)
    requires
        first_upload(recorded, object_key, i),
    ensures
        upload_index(recorded, object_key) == Some(i),
{
    assert(recorded[i].object_key@ == object_key);
    let k = choose|k: int| first_upload(recorded, object_key, k);
    assert(first_upload(recorded, object_key, k));
    if k < i {
        assert(recorded[k].object_key@ != object_key);
    } else if k > i {
        assert(recorded[i].object_key@ != object_key);
    }
}

/// How one file answer checks out against the upload ledger: the upload it claims, or why it
/// is refused.
pub open spec fn reference_outcome(
    answer: (Seq<char>, Seq<char>),
    recorded: Seq<FileUploadRecord>,
) -> Result<int, Seq<char>> {
    match upload_index(recorded, answer.1) {
        None => Err(answer.0 + " refers to a file this form did not receive"@),
        Some(i) => if recorded[i].submission_id is Some {
            Err(answer.0 + " refers to a file another submission already used"@)
        } else if recorded[i].field_key@ != answer.0 {
            Err(answer.0 + " refers to a file uploaded for a different field"@)
        } else {
            Ok(i)
        },
    }
}

/// How the first `n` file answers check out: the uploads they claim, or the first refusal.
pub open spec fn references_outcome(
    answers: Seq<(Seq<char>, Seq<char>)>,
    recorded: Seq<FileUploadRecord>,
    n: int,
) -> Result<Seq<int>, Seq<char>>
    decreases n,
{
    if n <= 0 {
        Ok(seq![])
    } else {
        match references_outcome(answers, recorded, n - 1) {
            Err(m) => Err(m),
            Ok(claimed) => match reference_outcome(answers[n - 1], recorded) {
                Ok(i) => Ok(claimed.push(i)),
                Err(m) => Err(m),
            },
        }
    }
}

/// Once a file answer is refused, later answers do not change the outcome.
proof fn lemma_refusal_persists(
    answers: Seq<(Seq<char>, Seq<char>)>,
    recorded: Seq<FileUploadRecord>,
    n: int,
    m: int,
)
    requires
        0 <= n <= m,
        references_outcome(answers, recorded, n) is Err,
    ensures
        references_outcome(answers, recorded, m) == references_outcome(answers, recorded, n),
    decreases m - n,
{
    if m > n {
        lemma_refusal_persists(answers, recorded, n, m - 1);
    }
}

fn find_upload(recorded: &Vec<FileUploadRecord>, object_key: &String) -> (r: Option<usize>)
    ensures
        r matches Some(i) ==> upload_index(recorded@, object_key@) == Some(i as int) && i
            < recorded@.len(),
        r is None ==> upload_index(recorded@, object_key@) is None,
{
    let mut i: usize = 0;
    while i < recorded.len()
        invariant
            i <= recorded@.len(),
            forall|j: int| 0 <= j < i ==> (#[trigger] recorded@[j]).object_key@ != object_key@,
        decreases recorded@.len() - i,
    {
        if recorded[i].object_key.eq(object_key) {
            proof {
                lemma_first_upload(recorded@, object_key@, i as int);
            }
            return Some(i);
        }
        i = i + 1;
    }
    None
}

/// Matches each file answer against the upload ledger, returning the index of the upload each
/// one claims.
///
/// A key this server never issued for this form and this field is either a mistake or an attempt
/// to attach somebody else's file, so it is refused rather than stored.
pub fn check_file_references(
    answers: &Vec<(String, String)>,
    recorded: &Vec<FileUploadRecord>,
) -> (r: Result<Vec<usize>, FormError>)
    ensures
        r is Ok <==> references_outcome(
            pair_views(answers@),
            recorded@,
            answers@.len() as int,
        ) is Ok,
        r matches Ok(claimed) ==> references_outcome(
            pair_views(answers@),
            recorded@,
            answers@.len() as int,
        ) == Ok::<Seq<int>, Seq<char>>(claimed@.map_values(|i: usize| i as int)),
        r matches Err(e) ==> (e matches FormError::FileRejected(m) && references_outcome(
            pair_views(answers@),
            recorded@,
            answers@.len() as int,
        ) == Err::<Seq<int>, Seq<char>>(m@)),
{
    let mut claimed: Vec<usize> = Vec::new();
    assert(claimed@.map_values(|i: usize| i as int) =~= seq![]);
    let mut k: usize = 0;
    while k < answers.len()
        invariant
            k <= answers@.len(),
            references_outcome(pair_views(answers@), recorded@, k as int) == Ok::<
                Seq<int>,
                Seq<char>,
            >(claimed@.map_values(|i: usize| i as int)),
        decreases answers@.len() - k,
    {
        let field_key = &answers[k].0;
        let object_key = &answers[k].1;
        let ghost answer = pair_views(answers@)[k as int];
        assert(answer == (field_key@, object_key@));
        match find_upload(recorded, object_key) {
            None => {
                let m = concat(field_key.as_str(), " refers to a file this form did not receive");
                proof {
                    lemma_refusal_persists(
                        pair_views(answers@),
                        recorded@,
                        k + 1,
                        answers@.len() as int,
                    );
                }
                return Err(FormError::FileRejected(m));
            },
            Some(i) => {
                if recorded[i].submission_id.is_some() {
                    let m = concat(
                        field_key.as_str(),
                        " refers to a file another submission already used",
                    );
                    proof {
                        lemma_refusal_persists(
                            pair_views(answers@),
                            recorded@,
                            k + 1,
                            answers@.len() as int,
                        );
                    }
                    return Err(FormError::FileRejected(m));
                }
                if !recorded[i].field_key.eq(field_key) {
                    let m = concat(
                        field_key.as_str(),
                        " refers to a file uploaded for a different field",
                    );
                    proof {
                        lemma_refusal_persists(
                            pair_views(answers@),
                            recorded@,
                            k + 1,
                            answers@.len() as int,
                        );
                    }
                    return Err(FormError::FileRejected(m));
                }
                let ghost before = claimed@;
                claimed.push(i);
                proof {
                    assert(claimed@.map_values(|i: usize| i as int) =~= before.map_values(
                        |i: usize| i as int,
                    ).push(i as int));
                }
            },
        }
        k = k + 1;
    }
    Ok(claimed)
}

/// Every referenced upload must have been claimed by the new submission. The row locks make a
/// shortfall unreachable; it is refused rather than ignored, so a future change cannot silently
/// attach a file that was already used.
pub fn check_claim_count(claimed: u64, referenced: usize) -> (r: Result<(), FormError>)
    ensures
        r is Ok <==> claimed == referenced,
        r matches Err(e) ==> (e matches FormError::FileRejected(m) && m@
            == "a file was claimed by another submission"@),
{
    if claimed != referenced as u64 {
        Err(FormError::FileRejected(owned("a file was claimed by another submission")))
    } else {
        Ok(())
    }
}

// ------------------------------------------------------------------------------------------
// Uploads
// ------------------------------------------------------------------------------------------

/// The field an upload is for: one with that key that takes files. Any other key is refused,
/// naming it.
pub fn upload_field(schema: &FormSchema, field_key: &str) -> (r: Result<usize, FormError>)
    ensures
        match field_index(schema.fields@, field_key@) {
            Some(i) => if schema.fields@[i].field_type == FieldType::File {
                r matches Ok(j) && j as int == i
            } else {
                r matches Err(FormError::FileRejected(m)) && m@ == field_key@
                    + " is not a file field on this form"@
            },
            None => r matches Err(FormError::FileRejected(m)) && m@ == field_key@
                + " is not a file field on this form"@,
        },
{
    match schema.field(field_key) {
        Some(i) => {
            if schema.fields[i].field_type == FieldType::File {
                return Ok(i);
            }
        },
        None => {},
    }
    Err(FormError::FileRejected(concat(field_key, " is not a file field on this form")))
}

/// Where an upload is stored: under its organization and form, named by a fresh secret token.
/// The key is generated here and never taken from the client, which is what makes a path
/// traversal impossible rather than merely filtered out.
pub fn object_key(organization_id: u128, form_id: u128, token: &str) -> (r: String)
    ensures
        r@ == uuid_hyphenated(organization_id) + "/"@ + uuid_hyphenated(form_id) + "/"@ + token@,
{
    let mut r = uuid_text(organization_id);
    push_str(&mut r, "/");
    let form = uuid_text(form_id);
    push_str(&mut r, form.as_str());
    push_str(&mut r, "/");
    push_str(&mut r, token);
    r
}

/// How many bytes of the next chunk go into the buffer that is inspected to confirm the declared
/// type: enough to fill it to `wanted`, and no more than the chunk holds.
pub fn head_take(head_len: usize, chunk_len: usize, wanted: usize) -> (n: usize)
    ensures
        n == if head_len < wanted {
            if wanted - head_len < chunk_len {
                (wanted - head_len) as int
            } else {
                chunk_len as int
            }
        } else {
            0
        },
        head_len < wanted ==> head_len + n <= wanted,
        n <= chunk_len,
{
    if head_len < wanted {
        let room = wanted - head_len;
        if room < chunk_len {
            room
        } else {
            chunk_len
        }
    } else {
        0
    }
}

/// Whether the buffered head of an upload is inspected now: once, as soon as it is full, so a
/// rejected file is not written out in full first; or at the end of a file shorter than the
/// buffer.
pub fn inspects_now(inspected: bool, head_len: usize, wanted: usize, ended: bool) -> (b: bool)
    ensures
        b == (!inspected && (head_len >= wanted || ended)),
{
    !inspected && (head_len >= wanted || ended)
}

/// The failure of a transport that broke off mid-upload: past the limit it is the size refusal,
/// since the byte counter should have refused first; otherwise an internal failure.
pub fn interrupted_upload(written: u64, limit: u64, cause: String) -> (e: FormError)
    ensures
        written >= limit ==> e == (FormError::FileTooLarge { limit }),
        written < limit ==> (e matches FormError::Internal(m) && m@ == cause@),
{
    if written >= limit {
        FormError::FileTooLarge { limit }
    } else {
        FormError::Internal(cause)
    }
}

/// The media type an upload is stored with when none was declared.
pub const DEFAULT_CONTENT_TYPE: &'static str = "application/octet-stream";

/// The media type an upload is recorded with: the declared one, or the default.
pub fn stored_content_type(declared: Option<String>) -> (r: String)
    ensures
        r@ == match declared {
            Some(d) => d@,
            None => DEFAULT_CONTENT_TYPE@,
        },
{
    match declared {
        Some(d) => d,
        None => owned(DEFAULT_CONTENT_TYPE),
    }
}

/// A stored file ready to serve: the object to stream and the headers that go with it.
#[derive(Debug)]
pub struct Download {
    pub object_key: String,
    pub filename: String,
    pub content_type: String,
}

/// The text under `key` in a JSON value, when it is an object holding a string there.
pub open spec fn text_at(value: JsonValue, key: Seq<char>) -> Option<Seq<char>> {
    match value {
        JsonValue::Object(entries, _) => match map_get(entries@, key) {
            Some(JsonValue::String(t)) => Some(t@),
            _ => None,
        },
        _ => None,
    }
}

fn text_in(value: &JsonValue, key: &str) -> (r: Option<String>)
    ensures
        match r {
            Some(t) => text_at(*value, key@) == Some(t@),
            None => text_at(*value, key@) is None,
        },
{
    match value {
        JsonValue::Object(entries, _) => match map_find(entries, key) {
            Some(i) => match &entries[i].1 {
                JsonValue::String(t) => Some(t.clone()),
                _ => None,
            },
            None => None,
        },
        _ => None,
    }
}

/// The attachment stored for a field, when the files of a submission hold one under that key.
pub open spec fn attachment_of(files: JsonValue, field_key: Seq<char>) -> Option<JsonValue> {
    match files {
        JsonValue::Object(entries, _) => map_get(entries@, field_key),
        _ => None,
    }
}

/// The file a submission stored for a field: its object key (without one there is nothing to
/// serve), its filename or `file`, and its media type or the default.
pub fn download_of(files: &JsonValue, field_key: &str) -> (r: Result<Download, FormError>)
    ensures
        match attachment_of(*files, field_key@) {
            None => r matches Err(FormError::FileMissing),
            Some(attachment) => match text_at(attachment, "key"@) {
                None => r matches Err(FormError::FileMissing),
                Some(object_key) => r matches Ok(d) && d.object_key@ == object_key
                    && d.filename@ == match text_at(attachment, "filename"@) {
                    Some(f) => f,
                    None => "file"@,
                } && d.content_type@ == match text_at(attachment, "content_type"@) {
                    Some(c) => c,
                    None => DEFAULT_CONTENT_TYPE@,
                },
            },
        },
{
    let attachment = match files {
        JsonValue::Object(entries, _) => match map_find(entries, field_key) {
            Some(i) => &entries[i].1,
            None => {
                return Err(FormError::FileMissing);
            },
        },
        _ => {
            return Err(FormError::FileMissing);
        },
    };
    let object_key = match text_in(attachment, "key") {
        Some(k) => k,
        None => {
            return Err(FormError::FileMissing);
        },
    };
    let filename = match text_in(attachment, "filename") {
        Some(f) => f,
        None => owned("file"),
    };
    let content_type = match text_in(attachment, "content_type") {
        Some(c) => c,
        None => owned(DEFAULT_CONTENT_TYPE),
    };
    Ok(Download { object_key, filename, content_type })
}

/// The largest upload a field takes: its own limit, which can lower the instance ceiling but
/// never raise it.
pub fn upload_limit(field_max: Option<u64>, instance_max: u64) -> (r: u64)
    ensures
        r == match field_max {
            Some(m) => if m < instance_max {
                m
            } else {
                instance_max
            },
            None => instance_max,
        },
        r <= instance_max,
{
    let wanted = match field_max {
        Some(m) => m,
        None => instance_max,
    };
    if wanted < instance_max {
        wanted
    } else {
        instance_max
    }
}

/// The part of a media type before its parameters.
pub open spec fn before_parameters(s: Seq<char>) -> Seq<char> {
    if s.contains(';') {
        s.take(choose|i: int| 0 <= i < s.len() && s[i] == ';' && forall|j: int| 0 <= j < i ==> s[j] != ';')
    } else {
        s
    }
}

/// A declared media type, lower-cased and without parameters; none when nothing is left.
pub open spec fn normalised_content_type(raw: Option<Seq<char>>) -> Option<Seq<char>> {
    match raw {
        None => None,
        Some(text) => {
            let essence = trim(before_parameters(text));
            if essence.len() == 0 {
                None
            } else {
                Some(ascii_lowercase(essence))
            }
        },
    }
}

fn essence_of(raw: &str) -> (r: String)
    ensures
        r@ == before_parameters(raw@),
{
    let v = chars_of(raw);
    let mut i: usize = 0;
    while i < v.len() && v[i] != ';'
        invariant
            v@ == raw@,
            i <= v@.len(),
            forall|j: int| 0 <= j < i ==> v@[j] != ';',
        decreases v@.len() - i,
    {
        i = i + 1;
    }
    if i < v.len() {
        proof {
            let k = choose|k: int| 0 <= k < v@.len() && v@[k] == ';' && forall|j: int| 0 <= j < k ==> v@[j] != ';';
            if k < i {
                assert(v@[k] != ';');
            } else if k > i {
                assert(v@[i as int] == ';');
            }
            assert(v@.contains(';'));
        }
    } else {
        assert(v@.take(v@.len() as int) =~= v@);
        assert(!v@.contains(';'));
    }
    let mut prefix: Vec<char> = Vec::new();
    let mut k: usize = 0;
    while k < i
        invariant
            i <= v@.len(),
            k <= i,
            prefix@ == v@.take(k as int),
        decreases i - k,
    {
        prefix.push(v[k]);
        k = k + 1;
        assert(prefix@ =~= v@.take(k as int));
    }
    string_of(prefix.as_slice())
}

/// Lower-cases a declared media type and drops any parameters.
pub fn normalise_content_type(raw: Option<&str>) -> (r: Option<String>)
    ensures
        match raw {
            Some(text) => match r {
                Some(s) => normalised_content_type(Some(text@)) == Some(s@),
                None => normalised_content_type(Some(text@)) is None,
            },
            None => r is None,
        },
{
    match raw {
        None => None,
        Some(text) => {
            let essence = essence_of(text);
            let stripped = trimmed(essence.as_str());
            if stripped.len() == 0 {
                None
            } else {
                Some(ascii_lowercased(&stripped))
            }
        },
    }
}

/// Whether a field's `accept` list admits a declared media type. No list admits everything; an
/// entry ending in `/*` admits every subtype of its type; any other entry admits exactly itself.
pub open spec fn type_accepted(accept: Option<Vec<String>>, declared: Seq<char>) -> bool {
    match accept {
        None => true,
        Some(list) => list_admits(list@, declared),
    }
}

/// Whether some entry of an `accept` list admits a declared media type.
pub open spec fn list_admits(entries: Seq<String>, declared: Seq<char>) -> bool {
    exists|i: int| 0 <= i < entries.len() && entry_admits(#[trigger] entries[i]@, declared)
}

/// Whether one `accept` entry admits a declared media type.
pub open spec fn entry_admits(entry: Seq<char>, declared: Seq<char>) -> bool {
    entry == declared || (entry.len() >= 2 && entry.last() == '*' && entry[entry.len() - 2] == '/'
        && has_prefix(declared, entry.drop_last()))
}

fn admits(entry: &String, declared: &str) -> (b: bool)
    ensures
        b == entry_admits(entry@, declared@),
{
    let e = chars_of(entry.as_str());
    let d = chars_of(declared);
    if chars_eq(&e, &d) {
        return true;
    }
    let n = e.len();
    if n >= 2 && e[n - 1] == '*' && e[n - 2] == '/' {
        let mut stem: Vec<char> = Vec::new();
        let mut i: usize = 0;
        while i < n - 1
            invariant
                n == e@.len(),
                n >= 2,
                i <= n - 1,
                stem@ == e@.take(i as int),
            decreases n - 1 - i,
        {
            stem.push(e[i]);
            i = i + 1;
            assert(stem@ =~= e@.take(i as int));
        }
        assert(stem@ =~= e@.drop_last());
        let stem_text = string_of(stem.as_slice());
        starts_with(declared, stem_text.as_str())
    } else {
        false
    }
}

impl FieldDefinition {
    /// Whether this field takes files of a declared media type.
    pub fn accepts(&self, declared: &str) -> (b: bool)
        ensures
            b == type_accepted(self.accept, declared@),
    {
        match &self.accept {
            None => true,
            Some(list) => {
                let mut i: usize = 0;
                while i < list.len()
                    invariant
                        self.accept == Some(*list),
                        i <= list@.len(),
                        forall|j: int| 0 <= j < i ==> !entry_admits(#[trigger] list@[j]@, declared@),
                    decreases list@.len() - i,
                {
                    if admits(&list[i], declared) {
                        assert(entry_admits(list@[i as int]@, declared@));
                        assert(list_admits(list@, declared@));
                        return true;
                    }
                    i = i + 1;
                }
                false
            },
        }
    }
}

/// The declared type has to be one the field accepts. This is what makes `accept` mean
/// something; the signature check only confirms the bytes agree with what was declared.
pub fn check_declared_type(field: &FieldDefinition, declared: Option<&str>) -> (r: Result<
    (),
    FormError,
>)
    ensures
        declared is None ==> (r matches Err(FormError::FileRejected(m)) && m@
            == "a Content-Type header is required so the file can be checked against the field"@),
        declared matches Some(d) ==> (r is Ok <==> type_accepted(field.accept, d@)),
        declared matches Some(d) ==> (r matches Err(e) ==> (e matches FormError::FileRejected(m)
            && m@ == field.key@ + " does not accept "@ + d@)),
{
    match declared {
        None => Err(
            FormError::FileRejected(
                owned(
                    "a Content-Type header is required so the file can be checked against the field",
                ),
            ),
        ),
        Some(d) => {
            if field.accepts(d) {
                Ok(())
            } else {
                let mut m = concat(field.key.as_str(), " does not accept ");
                push_str(&mut m, d);
                Err(FormError::FileRejected(m))
            }
        },
    }
}

/// Refuses bytes that contradict the declared media type. `consistent` is whether the leading
/// bytes of the file agree with that type; with no declared type there is nothing to check.
pub fn check_bytes(declared: Option<&str>, consistent: bool) -> (r: Result<(), FormError>)
    ensures
        declared is None ==> r is Ok,
        declared matches Some(d) ==> (r is Ok <==> consistent),
        declared matches Some(d) ==> (r matches Err(e) ==> (e matches FormError::FileRejected(m)
            && m@ == "the contents do not look like "@ + d@)),
{
    match declared {
        None => Ok(()),
        Some(d) => {
            if consistent {
                Ok(())
            } else {
                Err(FormError::FileRejected(concat("the contents do not look like ", d)))
            }
        },
    }
}

/// The name of an uploaded file without any directory part: what follows the last `/` or `\`.
pub open spec fn base_name(s: Seq<char>) -> Seq<char>
    decreases s.len(),
{
    if s.len() == 0 {
        s
    } else if s.last() == '/' || s.last() == '\\' {
        seq![]
    } else {
        base_name(s.drop_last()).push(s.last())
    }
}

/// The characters that are not control characters.
pub open spec fn without_controls(s: Seq<char>) -> Seq<char>
    decreases s.len(),
{
    if s.len() == 0 {
        s
    } else if is_control(s.last()) {
        without_controls(s.drop_last())
    } else {
        without_controls(s.drop_last()).push(s.last())
    }
}

/// At most the first 200 characters.
pub open spec fn first_200(s: Seq<char>) -> Seq<char> {
    if s.len() > 200 {
        s.take(200)
    } else {
        s
    }
}

/// A filename fit to show a human and to echo in a header: single-line, free of path
/// structure, and short; "file" when nothing is left.
pub open spec fn cleaned_filename(raw: Option<Seq<char>>) -> Seq<char> {
    let text = match raw {
        Some(t) => t,
        None => seq![],
    };
    let cleaned = first_200(without_controls(trim(base_name(text))));
    if cleaned.len() == 0 {
        "file"@
    } else {
        cleaned
    }
}

fn base_name_of(v: &Vec<char>) -> (r: Vec<char>)
    ensures
        r@ == base_name(v@),
{
    let mut r: Vec<char> = Vec::new();
    let mut i: usize = 0;
    while i < v.len()
        invariant
            i <= v@.len(),
            r@ == base_name(v@.take(i as int)),
        decreases v@.len() - i,
    {
        if v[i] == '/' || v[i] == '\\' {
            r = Vec::new();
        } else {
            r.push(v[i]);
        }
        i = i + 1;
        proof {
            assert(v@.take(i as int).drop_last() =~= v@.take(i - 1));
            assert(r@ =~= base_name(v@.take(i as int)));
        }
    }
    assert(v@.take(v@.len() as int) =~= v@);
    r
}

/// Keeps a filename single-line, free of path structure, and short.
pub fn clean_filename(raw: Option<&str>) -> (r: String)
    ensures
        r@ == cleaned_filename(
            match raw {
                Some(t) => Some(t@),
                None => None,
            },
        ),
{
    let text: Vec<char> = match raw {
        Some(t) => chars_of(t),
        None => Vec::new(),
    };
    let base = base_name_of(&text);
    let base_text = string_of(base.as_slice());
    let stripped = trimmed(base_text.as_str());
    let mut kept: Vec<char> = Vec::new();
    let mut i: usize = 0;
    while i < stripped.len()
        invariant
            i <= stripped@.len(),
            kept@ == without_controls(stripped@.take(i as int)),
        decreases stripped@.len() - i,
    {
        let c = stripped[i];
        let u = c as u32;
        if !(u <= 0x1F || (0x7F <= u && u <= 0x9F)) {
            kept.push(c);
        }
        i = i + 1;
        proof {
            assert(stripped@.take(i as int).drop_last() =~= stripped@.take(i - 1));
            assert(kept@ =~= without_controls(stripped@.take(i as int)));
        }
    }
    assert(stripped@.take(stripped@.len() as int) =~= stripped@);
    if kept.len() > 200 {
        kept.truncate(200);
        assert(kept@ =~= first_200(without_controls(stripped@)));
    }
    if kept.len() == 0 {
        owned("file")
    } else {
        string_of(kept.as_slice())
    }
}

// ------------------------------------------------------------------------------------------
// Definitions on every write
// ------------------------------------------------------------------------------------------

/// The messages of a list of definition problems.
pub open spec fn schema_messages(problems: Seq<SchemaProblem>) -> Seq<Seq<char>> {
    problems.map_values(|p: SchemaProblem| schema_problem_message(p))
}

/// The messages of a list of payload problems.
pub open spec fn submission_messages(problems: Seq<SubmissionProblem>) -> Seq<Seq<char>> {
    problems.map_values(|p: SubmissionProblem| submission_problem_message(p))
}

/// One refusal listing every definition problem, separated by "; ".
pub fn schema_error(problems: &Vec<SchemaProblem>) -> (e: FormError)
    ensures
        e matches FormError::InvalidSchema(m) && m@ == join(schema_messages(problems@), "; "@),
{
    let mut messages: Vec<String> = Vec::new();
    let mut i: usize = 0;
    while i < problems.len()
        invariant
            i <= problems@.len(),
            views(messages@) == schema_messages(problems@).take(i as int),
        decreases problems@.len() - i,
    {
        let ghost before = messages@;
        let message = problems[i].message();
        messages.push(message);
        proof {
            assert(views(before).len() == i);
            assert forall|k: int| 0 <= k < i + 1 implies views(messages@)[k] == schema_messages(
                problems@,
            ).take(i + 1)[k] by {
                if k < i {
                    assert(messages@[k] == before[k]);
                    assert(views(before)[k] == schema_messages(problems@).take(i as int)[k]);
                }
            }
        }
        i = i + 1;
        assert(views(messages@) =~= schema_messages(problems@).take(i as int));
    }
    assert(schema_messages(problems@).take(problems@.len() as int) =~= schema_messages(problems@));
    FormError::InvalidSchema(join_strings(&messages, "; "))
}

/// One refusal listing every payload problem, separated by "; ".
pub fn submission_error(problems: &Vec<SubmissionProblem>) -> (e: FormError)
    ensures
        e matches FormError::InvalidSubmission(m) && m@ == join(
            submission_messages(problems@),
            "; "@,
        ),
{
    let mut messages: Vec<String> = Vec::new();
    let mut i: usize = 0;
    while i < problems.len()
        invariant
            i <= problems@.len(),
            views(messages@) == submission_messages(problems@).take(i as int),
        decreases problems@.len() - i,
    {
        let ghost before = messages@;
        let message = problems[i].message();
        messages.push(message);
        proof {
            assert(views(before).len() == i);
            assert forall|k: int| 0 <= k < i + 1 implies views(messages@)[k] == submission_messages(
                problems@,
            ).take(i + 1)[k] by {
                if k < i {
                    assert(messages@[k] == before[k]);
                    assert(views(before)[k] == submission_messages(problems@).take(i as int)[k]);
                }
            }
        }
        i = i + 1;
        assert(views(messages@) =~= submission_messages(problems@).take(i as int));
    }
    assert(submission_messages(problems@).take(problems@.len() as int) =~= submission_messages(
        problems@,
    ));
    FormError::InvalidSubmission(join_strings(&messages, "; "))
}

/// A definition is checked on every write, so a stored form is always renderable, and one that
/// must be submittable may only ask for files when this deployment can store them.
pub fn check_schema(schema: &FormSchema, require_submittable: bool, uploads_enabled: bool) -> (r:
    Result<(), FormError>)
    ensures
        schema_problems(*schema).len() > 0 ==> (r matches Err(FormError::InvalidSchema(m)) && m@
            == join(schema_messages(schema_problems(*schema)), "; "@)),
        schema_problems(*schema).len() == 0 ==> (r is Ok <==> !(require_submittable
            && has_file_field(schema.fields@) && !uploads_enabled)),
        schema_problems(*schema).len() == 0 && r is Err ==> r matches Err(
            FormError::FileUploadsUnavailable,
        ),
{
    match validate_schema(schema) {
        Err(problems) => Err(schema_error(&problems)),
        Ok(()) => {
            if require_submittable && schema.has_file_field() && !uploads_enabled {
                Err(FormError::FileUploadsUnavailable)
            } else {
                Ok(())
            }
        },
    }
}

/// The most notification addresses a form may have.
pub const MAX_NOTIFY_EMAILS: usize = 20;

/// Whether `i` is the first address that is not valid.
pub open spec fn first_invalid(emails: Seq<String>, i: int) -> bool {
    &&& 0 <= i < emails.len()
    &&& !html_email(emails[i]@)
    &&& forall|j: int| 0 <= j < i ==> html_email(#[trigger] emails[j]@)
}

/// At most twenty notification addresses, each of them valid. The first invalid address is named.
pub fn check_notify_emails(emails: &Vec<String>) -> (r: Result<(), FormError>)
    ensures
        emails@.len() > MAX_NOTIFY_EMAILS ==> (r matches Err(FormError::InvalidSchema(m)) && m@
            == "at most 20 notification addresses"@),
        emails@.len() <= MAX_NOTIFY_EMAILS ==> (r is Ok <==> forall|i: int|
            0 <= i < emails@.len() ==> html_email(#[trigger] emails@[i]@)),
        emails@.len() <= MAX_NOTIFY_EMAILS ==> (r matches Err(e) ==> exists|i: int|
            first_invalid(emails@, i) && (e matches FormError::InvalidSchema(m) && m@
                == emails@[i]@ + " is not a valid email address"@)),
{
    if emails.len() > MAX_NOTIFY_EMAILS {
        return Err(FormError::InvalidSchema(owned("at most 20 notification addresses")));
    }
    let mut i: usize = 0;
    while i < emails.len()
        invariant
            emails@.len() <= MAX_NOTIFY_EMAILS,
            i <= emails@.len(),
            forall|j: int| 0 <= j < i ==> html_email(#[trigger] emails@[j]@),
        decreases emails@.len() - i,
    {
        if !validate_email(emails[i].as_str()) {
            let message = concat(emails[i].as_str(), " is not a valid email address");
            assert(first_invalid(emails@, i as int));
            return Err(FormError::InvalidSchema(message));
        }
        i = i + 1;
    }
    Ok(())
}

/// A redirect has to be an http or https address.
pub fn check_redirect_url(url: Option<&str>) -> (r: Result<(), FormError>)
    ensures
        match url {
            None => r is Ok,
            Some(u) => (r is Ok <==> (has_prefix(u@, "https://"@) || has_prefix(u@, "http://"@))),
        },
        r matches Err(e) ==> (e matches FormError::InvalidSchema(m) && m@
            == "redirect_url must be an http or https address"@),
{
    match url {
        None => Ok(()),
        Some(u) => {
            if !starts_with(u, "https://") && !starts_with(u, "http://") {
                Err(FormError::InvalidSchema(owned("redirect_url must be an http or https address")))
            } else {
                Ok(())
            }
        },
    }
}

// ------------------------------------------------------------------------------------------
// Updates
// ------------------------------------------------------------------------------------------

/// The editable part of a stored form, together with its stage.
#[derive(Debug)]
pub struct FormDefinition {
    pub name: String,
    pub status: FormStatus,
    pub schema: FormSchema,
    pub notify_emails: Vec<String>,
    pub success_message: Option<String>,
    pub redirect_url: Option<String>,
    pub honeypot_enabled: bool,
}

/// The longest a form name may be, in characters.
pub const MAX_FORM_NAME: usize = 120;

/// Two optional texts with the same characters.
pub open spec fn same_text_option(a: Option<String>, b: Option<String>) -> bool {
    match (a, b) {
        (None, None) => true,
        (Some(x), Some(y)) => x@ == y@,
        _ => false,
    }
}

/// Two optional lists of texts with the same characters.
pub open spec fn same_texts_option(a: Option<Vec<String>>, b: Option<Vec<String>>) -> bool {
    match (a, b) {
        (None, None) => true,
        (Some(x), Some(y)) => views(x@) == views(y@),
        _ => false,
    }
}

/// Two optional bounds of the same value.
pub open spec fn same_bound(a: Option<NumberBound>, b: Option<NumberBound>) -> bool {
    match (a, b) {
        (None, None) => true,
        (Some(x), Some(y)) => x.order == y.order,
        _ => false,
    }
}

/// Two fields that ask the same question in the same way.
pub open spec fn same_field(a: FieldDefinition, b: FieldDefinition) -> bool {
    &&& a.key@ == b.key@
    &&& a.field_type == b.field_type
    &&& a.label@ == b.label@
    &&& a.required == b.required
    &&& same_text_option(a.help, b.help)
    &&& same_text_option(a.placeholder, b.placeholder)
    &&& a.min_length == b.min_length
    &&& a.max_length == b.max_length
    &&& same_bound(a.min, b.min)
    &&& same_bound(a.max, b.max)
    &&& same_texts_option(a.options, b.options)
    &&& a.max_bytes == b.max_bytes
    &&& same_texts_option(a.accept, b.accept)
}

/// Two field lists that are the same, field by field.
pub open spec fn same_fields(a: Seq<FieldDefinition>, b: Seq<FieldDefinition>) -> bool {
    a.len() == b.len() && forall|i: int| 0 <= i < a.len() ==> same_field(#[trigger] a[i], b[i])
}

fn text_option_eq(a: &Option<String>, b: &Option<String>) -> (r: bool)
    ensures
        r == same_text_option(*a, *b),
{
    match (a, b) {
        (None, None) => true,
        (Some(x), Some(y)) => x.eq(y),
        _ => false,
    }
}

fn texts_eq(x: &Vec<String>, y: &Vec<String>) -> (r: bool)
    ensures
        r == (views(x@) == views(y@)),
{
    if x.len() != y.len() {
        assert(views(x@).len() != views(y@).len());
        return false;
    }
    let mut i: usize = 0;
    while i < x.len()
        invariant
            x@.len() == y@.len(),
            i <= x@.len(),
            forall|k: int| 0 <= k < i ==> (#[trigger] x@[k])@ == y@[k]@,
        decreases x@.len() - i,
    {
        if !x[i].eq(&y[i]) {
            assert(views(x@)[i as int] != views(y@)[i as int]);
            return false;
        }
        i = i + 1;
    }
    assert(views(x@) =~= views(y@));
    true
}

fn texts_option_eq(a: &Option<Vec<String>>, b: &Option<Vec<String>>) -> (r: bool)
    ensures
        r == same_texts_option(*a, *b),
{
    match (a, b) {
        (None, None) => true,
        (Some(x), Some(y)) => texts_eq(x, y),
        _ => false,
    }
}

fn bound_eq(a: &Option<NumberBound>, b: &Option<NumberBound>) -> (r: bool)
    ensures
        r == same_bound(*a, *b),
{
    match (a, b) {
        (None, None) => true,
        (Some(x), Some(y)) => x.order == y.order,
        _ => false,
    }
}

fn field_eq(a: &FieldDefinition, b: &FieldDefinition) -> (r: bool)
    ensures
        r == same_field(*a, *b),
{
    a.key.eq(&b.key) && a.field_type == b.field_type && a.label.eq(&b.label) && a.required
        == b.required && text_option_eq(&a.help, &b.help) && text_option_eq(
        &a.placeholder,
        &b.placeholder,
    ) && a.min_length == b.min_length && a.max_length == b.max_length && bound_eq(&a.min, &b.min)
        && bound_eq(&a.max, &b.max) && texts_option_eq(&a.options, &b.options) && a.max_bytes
        == b.max_bytes && texts_option_eq(&a.accept, &b.accept)
}

/// Whether two field lists are the same, field by field.
pub fn fields_equal(a: &Vec<FieldDefinition>, b: &Vec<FieldDefinition>) -> (r: bool)
    ensures
        r == same_fields(a@, b@),
{
    if a.len() != b.len() {
        return false;
    }
    let mut i: usize = 0;
    while i < a.len()
        invariant
            a@.len() == b@.len(),
            i <= a@.len(),
            forall|k: int| 0 <= k < i ==> same_field(#[trigger] a@[k], b@[k]),
        decreases a@.len() - i,
    {
        if !field_eq(&a[i], &b[i]) {
            return false;
        }
        i = i + 1;
    }
    true
}

/// The name an update leaves a form with: the requested one trimmed, or the current one.
pub open spec fn merged_name(current: Seq<char>, requested: Option<String>) -> Seq<char> {
    match requested {
        Some(name) => trim(name@),
        None => current,
    }
}

/// The definition an update leaves a form with.
pub open spec fn merged_schema(current: FormDefinition, request: UpdateFormRequest) -> FormSchema {
    match request.schema {
        Some(s) => s,
        None => current.schema,
    }
}

/// The notification addresses an update leaves a form with.
pub open spec fn merged_emails(current: FormDefinition, request: UpdateFormRequest) -> Vec<String> {
    match request.notify_emails {
        Some(e) => e,
        None => current.notify_emails,
    }
}

/// The success message an update leaves a form with.
pub open spec fn merged_success(current: FormDefinition, request: UpdateFormRequest) -> Option<
    String,
> {
    match request.success_message {
        Some(m) => m,
        None => current.success_message,
    }
}

/// The redirect an update leaves a form with.
pub open spec fn merged_redirect(current: FormDefinition, request: UpdateFormRequest) -> Option<
    String,
> {
    match request.redirect_url {
        Some(u) => u,
        None => current.redirect_url,
    }
}

/// Whether the honeypot is on after an update.
pub open spec fn merged_honeypot(current: FormDefinition, request: UpdateFormRequest) -> bool {
    match request.honeypot_enabled {
        Some(h) => h,
        None => current.honeypot_enabled,
    }
}

/// A form name of 1 to 120 characters.
pub open spec fn valid_form_name(name: Seq<char>) -> bool {
    0 < name.len() <= MAX_FORM_NAME
}

/// Whether a form at this stage would be left unable to take the files its definition asks for.
pub open spec fn uploads_blocked(status: FormStatus, schema: FormSchema, uploads_enabled: bool) -> bool {
    status == FormStatus::Published && has_file_field(schema.fields@) && !uploads_enabled
}

/// No redirect, or an http(s) one.
pub open spec fn redirect_allowed(url: Option<String>) -> bool {
    match url {
        Some(u) => has_prefix(u@, "https://"@) || has_prefix(u@, "http://"@),
        None => true,
    }
}

/// At most twenty notification addresses, each of them valid.
pub open spec fn emails_allowed(emails: Seq<String>) -> bool {
    emails.len() <= MAX_NOTIFY_EMAILS && forall|i: int|
        0 <= i < emails.len() ==> html_email(#[trigger] emails[i]@)
}

/// Every check a stored definition has to pass.
pub open spec fn definition_admissible(
    name: Seq<char>,
    status: FormStatus,
    schema: FormSchema,
    redirect: Option<String>,
    emails: Seq<String>,
    uploads_enabled: bool,
) -> bool {
    &&& valid_form_name(name)
    &&& schema_problems(schema).len() == 0
    &&& !uploads_blocked(status, schema, uploads_enabled)
    &&& redirect_allowed(redirect)
    &&& emails_allowed(emails)
}

/// Merges a partial update into the stored form and checks the result.
///
/// Every field the request leaves out keeps its current value. The merged form must have a name
/// of 1 to 120 characters, a definition that passes [`check_schema`] (and that stays submittable
/// when the form is published), an http(s) redirect, and valid notification addresses; the
/// first of those checks to fail is the answer. On success the merged definition is returned
/// with whether its fields changed, which is what decides a new schema version.
pub fn apply_update(
    current: FormDefinition,
    request: UpdateFormRequest,
    uploads_enabled: bool,
) -> (r: Result<(FormDefinition, bool), FormError>)
    ensures
        r is Ok <==> definition_admissible(
            merged_name(current.name@, request.name),
            current.status,
            merged_schema(current, request),
            merged_redirect(current, request),
            merged_emails(current, request)@,
            uploads_enabled,
        ),
        r matches Ok((merged, changed)) ==> {
            &&& merged.name@ == merged_name(current.name@, request.name)
            &&& merged.status == current.status
            &&& merged.schema == merged_schema(current, request)
            &&& merged.notify_emails == merged_emails(current, request)
            &&& merged.success_message == merged_success(current, request)
            &&& merged.redirect_url == merged_redirect(current, request)
            &&& merged.honeypot_enabled == merged_honeypot(current, request)
            &&& changed == !same_fields(merged.schema.fields@, current.schema.fields@)
        },
        !valid_form_name(merged_name(current.name@, request.name)) ==> (r matches Err(
            FormError::InvalidSchema(m),
        ) && m@ == "name must be between 1 and 120 characters"@),
        valid_form_name(merged_name(current.name@, request.name)) && schema_problems(
            merged_schema(current, request),
        ).len() > 0 ==> (r matches Err(FormError::InvalidSchema(m)) && m@ == join(
            schema_messages(schema_problems(merged_schema(current, request))),
            "; "@,
        )),
        valid_form_name(merged_name(current.name@, request.name)) && schema_problems(
            merged_schema(current, request),
        ).len() == 0 && uploads_blocked(current.status, merged_schema(current, request), uploads_enabled)
            ==> r matches Err(FormError::FileUploadsUnavailable),
        valid_form_name(merged_name(current.name@, request.name)) && schema_problems(
            merged_schema(current, request),
        ).len() == 0 && !uploads_blocked(current.status, merged_schema(current, request), uploads_enabled)
            && !redirect_allowed(merged_redirect(current, request)) ==> (r matches Err(
            FormError::InvalidSchema(m),
        ) && m@ == "redirect_url must be an http or https address"@),
        valid_form_name(merged_name(current.name@, request.name)) && schema_problems(
            merged_schema(current, request),
        ).len() == 0 && !uploads_blocked(current.status, merged_schema(current, request), uploads_enabled)
            && redirect_allowed(merged_redirect(current, request)) && merged_emails(
            current,
            request,
        )@.len() > MAX_NOTIFY_EMAILS ==> (r matches Err(FormError::InvalidSchema(m)) && m@
            == "at most 20 notification addresses"@),
        valid_form_name(merged_name(current.name@, request.name)) && schema_problems(
            merged_schema(current, request),
        ).len() == 0 && !uploads_blocked(current.status, merged_schema(current, request), uploads_enabled)
            && redirect_allowed(merged_redirect(current, request)) && merged_emails(
            current,
            request,
        )@.len() <= MAX_NOTIFY_EMAILS && r is Err ==> exists|i: int|
            first_invalid(merged_emails(current, request)@, i) && (r matches Err(
                FormError::InvalidSchema(m),
            ) && m@ == merged_emails(current, request)@[i]@ + " is not a valid email address"@),
{
    let ghost old_current = current;
    let ghost old_request = request;
    let FormDefinition {
        name: current_name,
        status,
        schema: current_schema,
        notify_emails: current_emails,
        success_message: current_success,
        redirect_url: current_redirect,
        honeypot_enabled: current_honeypot,
    } = current;
    let UpdateFormRequest {
        name: requested_name,
        schema: requested_schema,
        notify_emails: requested_emails,
        success_message: requested_success,
        redirect_url: requested_redirect,
        honeypot_enabled: requested_honeypot,
    } = request;
    let name = match requested_name {
        Some(n) => trimmed_string(n.as_str()),
        None => current_name,
    };
    let notify_emails = match requested_emails {
        Some(e) => e,
        None => current_emails,
    };
    let success_message = match requested_success {
        Some(m) => m,
        None => current_success,
    };
    let redirect_url = match requested_redirect {
        Some(u) => u,
        None => current_redirect,
    };
    let honeypot_enabled = match requested_honeypot {
        Some(h) => h,
        None => current_honeypot,
    };
    let name_length = chars_of(name.as_str()).len();
    if name_length == 0 || name_length > MAX_FORM_NAME {
        return Err(FormError::InvalidSchema(owned("name must be between 1 and 120 characters")));
    }
    let (schema, changed) = match requested_schema {
        Some(s) => {
            let changed = !fields_equal(&s.fields, &current_schema.fields);
            (s, changed)
        },
        None => {
            let changed = !fields_equal(&current_schema.fields, &current_schema.fields);
            (current_schema, changed)
        },
    };
    check_schema(&schema, status.accepts_submissions(), uploads_enabled)?;
    let redirect_view: Option<&str> = match &redirect_url {
        Some(u) => Some(u.as_str()),
        None => None,
    };
    check_redirect_url(redirect_view)?;
    check_notify_emails(&notify_emails)?;
    Ok(
        (
            FormDefinition {
                name,
                status,
                schema,
                notify_emails,
                success_message,
                redirect_url,
                honeypot_enabled,
            },
            changed,
        ),
    )
}

} // verus!
