//! Failures of form operations.

use vstd::prelude::*;
use crate::error::{AppError, AppErrorView};
use crate::organization::OrganizationError;
use crate::text::{decimal, decimal_string, owned, push_str};

verus! {

#[derive(Debug)]
pub enum FormError {
    NotFound,
    Forbidden,
    /// The definition is not usable. The message lists every problem at once.
    InvalidSchema(String),
    /// The submitted payload does not match the form. The message lists every problem at once.
    InvalidSubmission(String),
    Closed,
    FileUploadsUnavailable,
    /// A file answer was not acceptable: an unknown reference, one already used by another
    /// submission, or one that belongs to a different field.
    FileRejected(String),
    FileTooLarge { limit: u64 },
    FileMissing,
    TooManySubmissions,
    Internal(String),
}

/// The text of a size refusal.
pub open spec fn too_large_message(limit: u64) -> Seq<char> {
    "the file exceeds the "@ + decimal(limit as nat) + " byte limit"@
}

fn too_large(limit: u64) -> (s: String)
    ensures
        s@ == too_large_message(limit),
{
    let mut s = owned("the file exceeds the ");
    let n = decimal_string(limit);
    push_str(&mut s, n.as_str());
    push_str(&mut s, " byte limit");
    s
}

/// The message each failure displays.
pub open spec fn form_message(e: FormError) -> Seq<char> {
    match e {
        FormError::NotFound => "form not found"@,
        FormError::Forbidden => "forbidden"@,
        FormError::InvalidSchema(m) => m@,
        FormError::InvalidSubmission(m) => m@,
        FormError::Closed => "this form is no longer accepting submissions"@,
        FormError::FileUploadsUnavailable => "file uploads are not configured on this instance"@,
        FormError::FileRejected(m) => m@,
        FormError::FileTooLarge { limit } => too_large_message(limit),
        FormError::FileMissing => "the stored file is no longer available"@,
        FormError::TooManySubmissions => "too many submissions for this form; try again shortly"@,
        FormError::Internal(_) => "internal form error"@,
    }
}

/// The response each failure becomes.
pub open spec fn form_app_error(e: FormError) -> AppErrorView {
    match e {
        FormError::NotFound => AppErrorView::NotFound,
        FormError::Forbidden => AppErrorView::Forbidden,
        FormError::InvalidSchema(m) => AppErrorView::Validation(m@),
        FormError::InvalidSubmission(m) => AppErrorView::Validation(m@),
        FormError::Closed => AppErrorView::Gone("this form is no longer accepting submissions"@),
        FormError::FileUploadsUnavailable => AppErrorView::Validation(
            "file uploads are not configured on this instance"@,
        ),
        FormError::FileRejected(m) => AppErrorView::Validation(m@),
        FormError::FileTooLarge { limit } => AppErrorView::PayloadTooLarge(too_large_message(limit)),
        FormError::FileMissing => AppErrorView::NotFound,
        FormError::TooManySubmissions => AppErrorView::TooManyRequests,
        FormError::Internal(m) => AppErrorView::Internal(m@),
    }
}

/// What an organization failure becomes when it surfaces through a form operation. Only the
/// outcomes an access check can produce keep their meaning.
pub open spec fn form_error_of(e: OrganizationError) -> Seq<char> {
    match e {
        OrganizationError::LastOwner => "an organization must keep at least one owner"@,
        _ => "internal organization error"@,
    }
}

impl FormError {
    /// The message this failure displays.
    pub fn message(&self) -> (s: String)
        ensures
            s@ == form_message(*self),
    {
        match self {
            FormError::NotFound => owned("form not found"),
            FormError::Forbidden => owned("forbidden"),
            FormError::InvalidSchema(m) => m.clone(),
            FormError::InvalidSubmission(m) => m.clone(),
            FormError::Closed => owned("this form is no longer accepting submissions"),
            FormError::FileUploadsUnavailable => owned(
                "file uploads are not configured on this instance",
            ),
            FormError::FileRejected(m) => m.clone(),
            FormError::FileTooLarge { limit } => too_large(*limit),
            FormError::FileMissing => owned("the stored file is no longer available"),
            FormError::TooManySubmissions => owned(
                "too many submissions for this form; try again shortly",
            ),
            FormError::Internal(_) => owned("internal form error"),
        }
    }

    /// The response this failure becomes.
    pub fn into_app_error(self) -> (e: AppError)
        ensures
            e@ == form_app_error(self),
    {
        match self {
            FormError::NotFound => AppError::NotFound,
            FormError::Forbidden => AppError::Forbidden,
            FormError::InvalidSchema(m) => AppError::Validation(m),
            FormError::InvalidSubmission(m) => AppError::Validation(m),
            FormError::Closed => AppError::Gone(
                owned("this form is no longer accepting submissions"),
            ),
            FormError::FileUploadsUnavailable => AppError::Validation(
                owned("file uploads are not configured on this instance"),
            ),
            FormError::FileRejected(m) => AppError::Validation(m),
            FormError::FileTooLarge { limit } => AppError::PayloadTooLarge(too_large(limit)),
            FormError::FileMissing => AppError::NotFound,
            FormError::TooManySubmissions => AppError::TooManyRequests,
            FormError::Internal(m) => AppError::Internal(m),
        }
    }

    /// An organization failure seen through a form operation: anything missing is 404, a lack
    /// of standing is 403, and the rest cannot arise from an access check and is internal.
    pub fn from_organization(error: OrganizationError) -> (r: FormError)
        ensures
            (error is NotFound || error is AccountNotFound || error is MemberNotFound) ==> r
                is NotFound,
            (error is NotAMember || error is InsufficientRole) ==> r is Forbidden,
            (error is LastOwner || error is Internal) ==> (r matches FormError::Internal(m) && m@
                == form_error_of(error)),
    {
        match error {
            OrganizationError::NotFound
            | OrganizationError::AccountNotFound
            | OrganizationError::MemberNotFound => FormError::NotFound,
            OrganizationError::NotAMember | OrganizationError::InsufficientRole => FormError::Forbidden,
            other => FormError::Internal(other.message()),
        }
    }
}

} // verus!
