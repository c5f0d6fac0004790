//! Response envelopes and the errors the service reports.
use vstd::prelude::*;

verus! {

/// Envelope of every response body.
pub struct WebResponse<T> {
    pub success: bool,
    pub status: u16,
    pub message: String,
    pub path: String,
    pub timestamp: String,
    pub data: Option<T>,
}

impl<T> WebResponse<T> {
    /// A `200 OK` envelope around `data`.
    pub fn ok(path: String, message: String, timestamp: String, data: T) -> (r: WebResponse<T>)
        ensures
            r.success,
            r.status == 200,
            r.message == message,
            r.path == path,
            r.timestamp == timestamp,
            r.data == Some(data),
    {
        WebResponse { success: true, status: 200, message, path, timestamp, data: Some(data) }
    }

    /// A `201 Created` envelope around `data`.
    pub fn created(path: String, message: String, timestamp: String, data: T) -> (r: WebResponse<T>)
        ensures
            r.success,
            r.status == 201,
            r.message == message,
            r.path == path,
            r.timestamp == timestamp,
            r.data == Some(data),
    {
        WebResponse { success: true, status: 201, message, path, timestamp, data: Some(data) }
    }
}

/// An error reported to a client, with its message.
pub enum AppError {
    AuthError(String),
    InternalError(String),
    NotFound(String),
    BadRequest(String),
}

/// HTTP status of an error.
pub open spec fn error_status(e: AppError) -> u16 {
    match e {
        AppError::AuthError(_) => 401,
        AppError::InternalError(_) => 500,
        AppError::NotFound(_) => 404,
        AppError::BadRequest(_) => 400,
    }
}

/// Message of an error.
pub open spec fn error_message(e: AppError) -> String {
    match e {
        AppError::AuthError(m) => m,
        AppError::InternalError(m) => m,
        AppError::NotFound(m) => m,
        AppError::BadRequest(m) => m,
    }
}

impl AppError {
    /// HTTP status of the error.
    pub fn status(&self) -> (r: u16)
        ensures
            r == error_status(*self),
    {
        match self {
            AppError::AuthError(_) => 401,
            AppError::InternalError(_) => 500,
            AppError::NotFound(_) => 404,
            AppError::BadRequest(_) => 400,
        }
    }

    /// The failure envelope for the error: no path and no data.
    pub fn into_body(self, timestamp: String) -> (r: WebResponse<()>)
        ensures
            !r.success,
            r.status == error_status(self),
            r.message == error_message(self),
            r.path@ == Seq::<char>::empty(),
            r.timestamp == timestamp,
            r.data is None,
    {
        let status = self.status();
        let message = match self {
            AppError::AuthError(m) => m,
            AppError::InternalError(m) => m,
            AppError::NotFound(m) => m,
            AppError::BadRequest(m) => m,
        };
        WebResponse { success: false, status, message, path: String::new(), timestamp, data: None }
    }
}

} // verus!
