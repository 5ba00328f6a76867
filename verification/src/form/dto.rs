//! The shapes form requests arrive in and uploads are reported with.

use vstd::prelude::*;
use crate::form::export::ExportFormat;
use crate::form::model::SubmissionStatus;
use crate::form::validation::{FieldDefinition, FormSchema, HONEYPOT_FIELD};
use crate::form::rules::honeypot_field;
use crate::pagination::{page_bounds, served_limit, served_offset};

pub use crate::pagination::PaginationQuery;

verus! {

/// A new form, created as a draft.
#[derive(Debug)]
pub struct CreateFormRequest {
    pub name: String,
    pub schema: FormSchema,
    /// Addresses told about each submission.
    pub notify_emails: Vec<String>,
}

/// A partial update: every absent field keeps its current value. For the two nullable fields,
/// `Some(None)` clears the value and `None` leaves it alone.
#[derive(Debug)]
pub struct UpdateFormRequest {
    pub name: Option<String>,
    pub schema: Option<FormSchema>,
    pub notify_emails: Option<Vec<String>>,
    pub success_message: Option<Option<String>>,
    pub redirect_url: Option<Option<String>>,
    pub honeypot_enabled: Option<bool>,
}

/// What an upload reports back: the key a submission refers to the file by.
#[derive(Debug)]
pub struct UploadedFileResponse {
    pub key: String,
    pub filename: String,
    pub content_type: String,
    pub size: i64,
}

/// The query string of an upload.
#[derive(Debug)]
pub struct UploadQuery {
    /// The name the file had on the client, shown to the organization.
    pub filename: Option<String>,
}

/// A change of a submission's filing.
#[derive(Debug, Clone, Copy)]
pub struct UpdateSubmissionRequest {
    pub status: SubmissionStatus,
}

/// The query string of an export.
#[derive(Debug, Clone, Copy)]
pub struct ExportQuery {
    /// CSV when absent.
    pub format: Option<ExportFormat>,
}

impl ExportQuery {
    /// The encoding asked for, CSV by default.
    pub fn format_or_default(&self) -> (f: ExportFormat)
        ensures
            f == match self.format {
                Some(format) => format,
                None => ExportFormat::Csv,
            },
    {
        match self.format {
            Some(format) => format,
            None => ExportFormat::Csv,
        }
    }
}

/// What a stranger is allowed to see of a published form. Never the organization, never the
/// internal identifiers.
#[derive(Debug)]
pub struct PublicFormResponse {
    pub title: String,
    pub description: Option<String>,
    pub submit_label: Option<String>,
    pub fields: Vec<FieldDefinition>,
    /// The input a bot fills and a person does not, when the form has one.
    pub honeypot_field: Option<String>,
}

impl PublicFormResponse {
    /// The public definition of a form with this schema.
    pub fn new(schema: FormSchema, honeypot_enabled: bool) -> (r: Self)
        ensures
            r.title == schema.title,
            r.description == schema.description,
            r.submit_label == schema.submit_label,
            r.fields == schema.fields,
            honeypot_enabled ==> (r.honeypot_field matches Some(h) && h@ == HONEYPOT_FIELD@),
            !honeypot_enabled ==> r.honeypot_field is None,
    {
        let FormSchema { title, description, submit_label, fields } = schema;
        PublicFormResponse {
            title,
            description,
            submit_label,
            fields,
            honeypot_field: honeypot_field(honeypot_enabled),
        }
    }
}

/// The query string of the submission inbox.
#[derive(Debug)]
pub struct SubmissionQuery {
    pub limit: Option<u32>,
    pub offset: Option<u32>,
    pub form_id: Option<u128>,
    pub status: Option<SubmissionStatus>,
    /// Inclusive lower bound, in microseconds since the Unix epoch.
    pub since: Option<i64>,
    /// Exclusive upper bound, in microseconds since the Unix epoch.
    pub until: Option<i64>,
    /// An answer key to filter on, together with `value`.
    pub field: Option<String>,
    pub value: Option<String>,
}

impl SubmissionQuery {
    /// The `(limit, offset)` this listing is served with.
    pub fn bounds(&self) -> (r: (i64, i64))
        ensures
            r.0 == served_limit(self.limit),
            r.1 == served_offset(self.offset),
    {
        page_bounds(self.limit, self.offset)
    }

    /// The form the listing is narrowed to: the one in the path, or else the one asked for.
    pub fn form_filter(&self, path_form_id: Option<u128>) -> (r: Option<u128>)
        ensures
            r == match path_form_id {
                Some(id) => Some(id),
                None => self.form_id,
            },
    {
        match path_form_id {
            Some(id) => Some(id),
            None => self.form_id,
        }
    }
}

} // verus!
