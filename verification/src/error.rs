//! The error taxonomy of the service and what a caller gets to see of each error.

use vstd::prelude::*;
use vstd::string::StringExecFns;

verus! {

/// Why a request could not be answered.
#[derive(Debug)]
pub enum ApiError {
    BadRequest(String),
    Database(String),
    Cache(String),
    QueryValidation(String),
    Internal(String),
}

/// An error with its detail as a sequence of characters.
pub enum ApiErrorView {
    BadRequest(Seq<char>),
    Database(Seq<char>),
    Cache(Seq<char>),
    QueryValidation(Seq<char>),
    Internal(Seq<char>),
}

impl View for ApiError {
    type V = ApiErrorView;

    open spec fn view(&self) -> ApiErrorView {
        match self {
            ApiError::BadRequest(msg) => ApiErrorView::BadRequest(msg@),
            ApiError::Database(msg) => ApiErrorView::Database(msg@),
            ApiError::Cache(msg) => ApiErrorView::Cache(msg@),
            ApiError::QueryValidation(msg) => ApiErrorView::QueryValidation(msg@),
            ApiError::Internal(msg) => ApiErrorView::Internal(msg@),
        }
    }
}

impl DeepView for ApiError {
    type V = ApiErrorView;

    open spec fn deep_view(&self) -> ApiErrorView {
        self@
    }
}

/// What is sent to the caller for an error: a status and one line of text.
#[derive(Debug)]
pub struct ErrorResponse {
    pub status: u16,
    pub error: String,
}

impl ApiErrorView {
    /// The error written out with its category.
    pub open spec fn description(self) -> Seq<char> {
        match self {
            ApiErrorView::BadRequest(msg) => "Bad request: "@ + msg,
            ApiErrorView::Database(msg) => "Database error: "@ + msg,
            ApiErrorView::Cache(msg) => "Cache error: "@ + msg,
            ApiErrorView::QueryValidation(msg) => "Query validation error: "@ + msg,
            ApiErrorView::Internal(msg) => "Internal error: "@ + msg,
        }
    }

    /// The HTTP status: 400 where the request is at fault, 500 otherwise.
    pub open spec fn status(self) -> u16 {
        match self {
            ApiErrorView::BadRequest(_) => 400,
            ApiErrorView::QueryValidation(_) => 400,
            ApiErrorView::Database(_) => 500,
            ApiErrorView::Cache(_) => 500,
            ApiErrorView::Internal(_) => 500,
        }
    }

    /// The text shown to the caller: the detail of a request error, and only the category of
    /// a failure inside the service.
    pub open spec fn public_text(self) -> Seq<char> {
        match self {
            ApiErrorView::BadRequest(msg) => msg,
            ApiErrorView::QueryValidation(msg) => msg,
            ApiErrorView::Database(_) => "Database error"@,
            ApiErrorView::Cache(_) => "Cache error"@,
            ApiErrorView::Internal(_) => "Internal server error"@,
        }
    }
}

impl ApiError {
    pub fn to_string(&self) -> (text: String)
        ensures
            text@ == self@.description(),
    {
        let (label, msg) = match self {
            ApiError::BadRequest(msg) => ("Bad request: ", msg),
            ApiError::Database(msg) => ("Database error: ", msg),
            ApiError::Cache(msg) => ("Cache error: ", msg),
            ApiError::QueryValidation(msg) => ("Query validation error: ", msg),
            ApiError::Internal(msg) => ("Internal error: ", msg),
        };
        let mut text = label.to_owned();
        text.append(msg.as_str());
        text
    }

    pub fn status_code(&self) -> (status: u16)
        ensures
            status == self@.status(),
    {
        match self {
            ApiError::BadRequest(_) => 400,
            ApiError::QueryValidation(_) => 400,
            ApiError::Database(_) => 500,
            ApiError::Cache(_) => 500,
            ApiError::Internal(_) => 500,
        }
    }

    pub fn error_response(&self) -> (response: ErrorResponse)
        ensures
            response.status == self@.status(),
            response.error@ == self@.public_text(),
    {
        let message = match self {
            ApiError::BadRequest(msg) => msg.clone(),
            ApiError::QueryValidation(msg) => msg.clone(),
            ApiError::Database(_) => "Database error".to_owned(),
            ApiError::Cache(_) => "Cache error".to_owned(),
            ApiError::Internal(_) => "Internal server error".to_owned(),
        };
        ErrorResponse { status: self.status_code(), error: message }
    }

    /// The error for a payload that is not the JSON it should be.
    pub fn from_json_error(detail: &str) -> (error: ApiError)
        ensures
            error@ == ApiErrorView::BadRequest("JSON error: "@ + detail@),
    {
        let mut text = "JSON error: ".to_owned();
        text.append(detail);
        ApiError::BadRequest(text)
    }
}

} // verus!
