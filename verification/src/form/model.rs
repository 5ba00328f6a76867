//! Where a form is in its life, and what a submission has been filed as.

use vstd::prelude::*;
use crate::form::error::FormError;
use crate::text::{concat, owned};

verus! {

/// A form's lifecycle stage.
#[derive(Debug, Clone, Copy, PartialEq, Eq, Structural)]
pub enum FormStatus {
    /// Being written. Its public handle exists but answers 404, so an unfinished form is not
    /// discoverable even by somebody who guessed the link.
    Draft,
    Published,
    Closed,
}

impl FormStatus {
    /// Only a published form takes answers.
    pub fn accepts_submissions(self) -> (b: bool)
        ensures
            b == (self == FormStatus::Published),
    {
        match self {
            FormStatus::Published => true,
            _ => false,
        }
    }
}

/// How a submission is filed in the inbox.
#[derive(Debug, Clone, Copy, PartialEq, Eq, Structural)]
pub enum SubmissionStatus {
    Unread,
    Read,
    Spam,
    Archived,
}

/// The name a submission status is written with.
pub open spec fn submission_status_name(s: SubmissionStatus) -> Seq<char> {
    match s {
        SubmissionStatus::Unread => "unread"@,
        SubmissionStatus::Read => "read"@,
        SubmissionStatus::Spam => "spam"@,
        SubmissionStatus::Archived => "archived"@,
    }
}

impl SubmissionStatus {
    /// The name this status is written with.
    pub fn as_str(self) -> (s: &'static str)
        ensures
            s@ == submission_status_name(self),
    {
        match self {
            SubmissionStatus::Unread => "unread",
            SubmissionStatus::Read => "read",
            SubmissionStatus::Spam => "spam",
            SubmissionStatus::Archived => "archived",
        }
    }
}

/// How a public handle resolves for a form in each stage: a draft is reported as missing on
/// purpose, and only a closed form explains itself.
pub open spec fn public_resolution(status: FormStatus) -> Result<(), FormError> {
    match status {
        FormStatus::Published => Ok(()),
        FormStatus::Draft => Err(FormError::NotFound),
        FormStatus::Closed => Err(FormError::Closed),
    }
}

/// Refuses the stages that must not accept submissions.
pub fn resolve_public(status: FormStatus) -> (r: Result<(), FormError>)
    ensures
        r == public_resolution(status),
        r is Ok <==> status == FormStatus::Published,
{
    match status {
        FormStatus::Published => Ok(()),
        FormStatus::Draft => Err(FormError::NotFound),
        FormStatus::Closed => Err(FormError::Closed),
    }
}

/// Only a published form can be closed.
pub fn require_closable(status: FormStatus) -> (r: Result<(), FormError>)
    ensures
        r is Ok <==> status == FormStatus::Published,
        r matches Err(e) ==> (e matches FormError::InvalidSchema(m) && m@
            == "only a published form can be closed"@),
{
    if status.accepts_submissions() {
        Ok(())
    } else {
        Err(FormError::InvalidSchema(owned("only a published form can be closed")))
    }
}

/// The path a form is submitted at: `/f/` and its public handle.
pub fn public_path(public_id: &str) -> (r: String)
    ensures
        r@ == "/f/"@ + public_id@,
{
    concat("/f/", public_id)
}

} // verus!
