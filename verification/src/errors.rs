//! The failures of the API and how each is answered.

use vstd::prelude::*;
use vstd::string::*;
use crate::models::ErrorResponse;

verus! {

/// A failure of a request. Each kind carries the details as text.
#[derive(Debug)]
pub enum AppError {
    Database(String),
    Auth(String),
    Validation(String),
    NotFound(String),
    Jwt(String),
    Serialization(String),
    Internal(String),
}

impl AppError {
    /// The details that the failure carries.
    pub open spec fn cause(self) -> Seq<char> {
        match self {
            AppError::Database(text) => text@,
            AppError::Auth(text) => text@,
            AppError::Validation(text) => text@,
            AppError::NotFound(text) => text@,
            AppError::Jwt(text) => text@,
            AppError::Serialization(text) => text@,
            AppError::Internal(text) => text@,
        }
    }

    /// The HTTP status with which the failure is answered.
    pub open spec fn status(self) -> u16 {
        match self {
            AppError::Database(_) => 500,
            AppError::Auth(_) => 401,
            AppError::Validation(_) => 400,
            AppError::NotFound(_) => 404,
            AppError::Jwt(_) => 401,
            AppError::Serialization(_) => 400,
            AppError::Internal(_) => 500,
        }
    }

    /// What the client is told of the failure, whatever its details.
    pub open spec fn summary(self) -> Seq<char> {
        match self {
            AppError::Database(_) => "Database error occurred"@,
            AppError::Auth(_) => "Authentication failed"@,
            AppError::Validation(_) => "Validation failed"@,
            AppError::NotFound(_) => "Resource not found"@,
            AppError::Jwt(_) => "Invalid token"@,
            AppError::Serialization(_) => "Invalid data format"@,
            AppError::Internal(_) => "Internal server error"@,
        }
    }

    /// The words that stand before the details when the failure is written
    /// out.
    pub open spec fn heading(self) -> Seq<char> {
        match self {
            AppError::Database(_) => "Database error: "@,
            AppError::Auth(_) => "Authentication error: "@,
            AppError::Validation(_) => "Validation error: "@,
            AppError::NotFound(_) => "Not found: "@,
            AppError::Jwt(_) => "JWT error: "@,
            AppError::Serialization(_) => "Serialization error: "@,
            AppError::Internal(_) => "Internal server error: "@,
        }
    }

    /// The HTTP status with which the failure is answered.
    pub fn status_code(&self) -> (code: u16)
        ensures
            code == self.status(),
    {
        match self {
            AppError::Database(_) => 500,
            AppError::Auth(_) => 401,
            AppError::Validation(_) => 400,
            AppError::NotFound(_) => 404,
            AppError::Jwt(_) => 401,
            AppError::Serialization(_) => 400,
            AppError::Internal(_) => 500,
        }
    }

    /// What the client is told of the failure, whatever its details.
    pub fn public_message(&self) -> (message: &'static str)
        ensures
            message@ == self.summary(),
    {
        match self {
            AppError::Database(_) => "Database error occurred",
            AppError::Auth(_) => "Authentication failed",
            AppError::Validation(_) => "Validation failed",
            AppError::NotFound(_) => "Resource not found",
            AppError::Jwt(_) => "Invalid token",
            AppError::Serialization(_) => "Invalid data format",
            AppError::Internal(_) => "Internal server error",
        }
    }

    /// The failure written out: its heading, then its details.
    pub fn to_string(&self) -> (text: String)
        ensures
            text@ == self.heading() + self.cause(),
    {
        let (heading, cause) = match self {
            AppError::Database(cause) => ("Database error: ", cause),
            AppError::Auth(cause) => ("Authentication error: ", cause),
            AppError::Validation(cause) => ("Validation error: ", cause),
            AppError::NotFound(cause) => ("Not found: ", cause),
            AppError::Jwt(cause) => ("JWT error: ", cause),
            AppError::Serialization(cause) => ("Serialization error: ", cause),
            AppError::Internal(cause) => ("Internal server error: ", cause),
        };
        let mut text = String::from_str(heading);
        text.append(cause.as_str());
        text
    }

    /// The answer to the failure: the status, and the body that names the
    /// kind of failure and gives the failure written out as its details.
    pub fn to_response(&self) -> (answer: (u16, ErrorResponse))
        ensures
            answer.0 == self.status(),
            answer.1.error@ == self.summary(),
            answer.1.details matches Some(details) && details@ == self.heading() + self.cause(),
    {
        (
            self.status_code(),
            ErrorResponse {
                error: String::from_str(self.public_message()),
                details: Some(self.to_string()),
            },
        )
    }
}

} // verus!
