//! Verified core of the SubmitSnap form-submission backend.

pub mod text;
pub mod rbac;
pub mod error;
pub mod organization;
pub mod pagination;
pub mod json;
pub mod form;
pub mod identity;
pub mod auth;
pub mod queue;
pub mod dispatch;
pub mod email;
pub mod worker;
