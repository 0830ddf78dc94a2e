//! The errors of the service and how they are shown.
use vstd::prelude::*;
use crate::text::push_text;

verus! {

/// An error of the service. Errors of the store and of the repository
/// fetcher are carried by their message.
pub enum AppError {
    Database(String),
    Git(String),
    Scanner(String),
    Docker(String),
    Unauthorized,
    NotFound(String),
    Validation(String),
    Internal(String),
}

/// Mathematical value of an [`AppError`].
pub enum AppErrorView {
    Database(Seq<char>),
    Git(Seq<char>),
    Scanner(Seq<char>),
    Docker(Seq<char>),
    Unauthorized,
    NotFound(Seq<char>),
    Validation(Seq<char>),
    Internal(Seq<char>),
}

impl View for AppError {
    type V = AppErrorView;

    open spec fn view(&self) -> AppErrorView {
        match self {
            AppError::Database(m) => AppErrorView::Database(m@),
            AppError::Git(m) => AppErrorView::Git(m@),
            AppError::Scanner(m) => AppErrorView::Scanner(m@),
            AppError::Docker(m) => AppErrorView::Docker(m@),
            AppError::Unauthorized => AppErrorView::Unauthorized,
            AppError::NotFound(m) => AppErrorView::NotFound(m@),
            AppError::Validation(m) => AppErrorView::Validation(m@),
            AppError::Internal(m) => AppErrorView::Internal(m@),
        }
    }
}

impl AppErrorView {
    /// The error in full, as the `details` of a response give it.
    pub open spec fn details(self) -> Seq<char> {
        match self {
            AppErrorView::Database(m) => "Database error: "@ + m,
            AppErrorView::Git(m) => "Git error: "@ + m,
            AppErrorView::Scanner(m) => "Scanner error: "@ + m,
            AppErrorView::Docker(m) => "Docker error: "@ + m,
            AppErrorView::Unauthorized => "Authentication failed"@,
            AppErrorView::NotFound(m) => "Resource not found: "@ + m,
            AppErrorView::Validation(m) => "Invalid input: "@ + m,
            AppErrorView::Internal(m) => "Internal server error: "@ + m,
        }
    }

    /// The HTTP status with which the error is answered.
    pub open spec fn status(self) -> u16 {
        match self {
            AppErrorView::Database(_) => 500,
            AppErrorView::Git(_) => 400,
            AppErrorView::Scanner(_) => 500,
            AppErrorView::Docker(_) => 500,
            AppErrorView::Unauthorized => 401,
            AppErrorView::NotFound(_) => 404,
            AppErrorView::Validation(_) => 400,
            AppErrorView::Internal(_) => 500,
        }
    }

    /// What the `error` of a response says: the caller's own mistake in
    /// full, everything else as a general phrase.
    pub open spec fn summary(self) -> Seq<char> {
        match self {
            AppErrorView::Database(_) => "Database error"@,
            AppErrorView::Git(_) => "Git operation failed"@,
            AppErrorView::Scanner(_) => "Scanner error"@,
            AppErrorView::Docker(_) => "Docker error"@,
            AppErrorView::Unauthorized => "Unauthorized"@,
            AppErrorView::NotFound(m) => m,
            AppErrorView::Validation(m) => m,
            AppErrorView::Internal(_) => "Internal server error"@,
        }
    }
}

fn prefixed(prefix: &str, message: &String) -> (r: String)
    ensures
        r@ == prefix@ + message@,
{
    let mut r = String::from_str(prefix);
    push_text(&mut r, message.as_str());
    r
}

impl AppError {
    /// The error in full.
    pub fn to_string(&self) -> (r: String)
        ensures
            r@ == self@.details(),
    {
        match self {
            AppError::Database(m) => prefixed("Database error: ", m),
            AppError::Git(m) => prefixed("Git error: ", m),
            AppError::Scanner(m) => prefixed("Scanner error: ", m),
            AppError::Docker(m) => prefixed("Docker error: ", m),
            AppError::Unauthorized => String::from_str("Authentication failed"),
            AppError::NotFound(m) => prefixed("Resource not found: ", m),
            AppError::Validation(m) => prefixed("Invalid input: ", m),
            AppError::Internal(m) => prefixed("Internal server error: ", m),
        }
    }

    /// The HTTP status with which the error is answered.
    pub fn status_code(&self) -> (r: u16)
        ensures
            r == self@.status(),
    {
        match self {
            AppError::Database(_) => 500,
            AppError::Git(_) => 400,
            AppError::Scanner(_) => 500,
            AppError::Docker(_) => 500,
            AppError::Unauthorized => 401,
            AppError::NotFound(_) => 404,
            AppError::Validation(_) => 400,
            AppError::Internal(_) => 500,
        }
    }

    /// What the `error` of a response says.
    pub fn error_message(&self) -> (r: String)
        ensures
            r@ == self@.summary(),
    {
        match self {
            AppError::Database(_) => String::from_str("Database error"),
            AppError::Git(_) => String::from_str("Git operation failed"),
            AppError::Scanner(_) => String::from_str("Scanner error"),
            AppError::Docker(_) => String::from_str("Docker error"),
            AppError::Unauthorized => String::from_str("Unauthorized"),
            AppError::NotFound(m) => m.clone(),
            AppError::Validation(m) => m.clone(),
            AppError::Internal(_) => String::from_str("Internal server error"),
        }
    }
}

} // verus!
