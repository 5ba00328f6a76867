//! The response-level error every module's failures are mapped into.

use vstd::prelude::*;

verus! {

/// What an HTTP caller is told. Each variant stands for one status code; the text variants carry
/// the message shown to the caller.
#[derive(Debug)]
pub enum AppError {
    /// 400, with every problem listed.
    Validation(String),
    /// 401.
    Unauthorized,
    /// 403.
    Forbidden,
    /// 404.
    NotFound,
    /// 409.
    Conflict,
    /// 423.
    AccountLocked,
    /// 401, telling the client to authenticate again.
    InvalidToken,
    /// 410.
    Gone(String),
    /// 413.
    PayloadTooLarge(String),
    /// 429.
    TooManyRequests,
    /// 500. The message is logged, never shown.
    Internal(String),
}

/// An [`AppError`] with its messages as characters.
pub enum AppErrorView {
    Validation(Seq<char>),
    Unauthorized,
    Forbidden,
    NotFound,
    Conflict,
    AccountLocked,
    InvalidToken,
    Gone(Seq<char>),
    PayloadTooLarge(Seq<char>),
    TooManyRequests,
    Internal(Seq<char>),
}

impl View for AppError {
    type V = AppErrorView;

    open spec fn view(&self) -> AppErrorView {
        match self {
            AppError::Validation(m) => AppErrorView::Validation(m@),
            AppError::Unauthorized => AppErrorView::Unauthorized,
            AppError::Forbidden => AppErrorView::Forbidden,
            AppError::NotFound => AppErrorView::NotFound,
            AppError::Conflict => AppErrorView::Conflict,
            AppError::AccountLocked => AppErrorView::AccountLocked,
            AppError::InvalidToken => AppErrorView::InvalidToken,
            AppError::Gone(m) => AppErrorView::Gone(m@),
            AppError::PayloadTooLarge(m) => AppErrorView::PayloadTooLarge(m@),
            AppError::TooManyRequests => AppErrorView::TooManyRequests,
            AppError::Internal(m) => AppErrorView::Internal(m@),
        }
    }
}

/// The HTTP status each response error is sent with.
pub open spec fn status_of(e: AppErrorView) -> u16 {
    match e {
        AppErrorView::Validation(_) => 400,
        AppErrorView::Unauthorized => 401,
        AppErrorView::Forbidden => 403,
        AppErrorView::NotFound => 404,
        AppErrorView::Conflict => 409,
        AppErrorView::AccountLocked => 423,
        AppErrorView::InvalidToken => 401,
        AppErrorView::Gone(_) => 410,
        AppErrorView::PayloadTooLarge(_) => 413,
        AppErrorView::TooManyRequests => 429,
        AppErrorView::Internal(_) => 500,
    }
}

impl AppError {
    /// The HTTP status this error is sent with.
    pub fn status_code(&self) -> (code: u16)
        ensures
            code == status_of(self@),
    {
        match self {
            AppError::Validation(_) => 400,
            AppError::Unauthorized => 401,
            AppError::Forbidden => 403,
            AppError::NotFound => 404,
            AppError::Conflict => 409,
            AppError::AccountLocked => 423,
            AppError::InvalidToken => 401,
            AppError::Gone(_) => 410,
            AppError::PayloadTooLarge(_) => 413,
            AppError::TooManyRequests => 429,
            AppError::Internal(_) => 500,
        }
    }
}

/// The answer of the health check once every dependency has answered.
#[derive(Debug, Clone, Copy)]
pub struct HealthResponse {
    pub status: &'static str,
}

impl HealthResponse {
    /// The answer when the database and the queue both respond.
    pub fn ok() -> (r: Self)
        ensures
            r.status@ == "ok"@,
    {
        HealthResponse { status: "ok" }
    }
}

} // verus!
