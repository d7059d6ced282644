//! The error taxonomy of the service: authorization failures, transport and
//! downstream failures, solving-service failures and exhausted retry budgets,
//! together with the status code and text each one presents to a caller.

use vstd::prelude::*;

verus! {

/// Every failure the service reports to a caller.
#[derive(Debug)]
pub enum PSNServerError {
    /// The caller lacks the administrative credential.
    Authorization,
    /// A transport-level failure talking to an external service.
    General500(String),
    /// A failure reported by the downstream account service.
    PSN(String),
    /// The solving service reported an unusable status or a browser step failed.
    Solver(String),
    /// A bounded retry loop was exhausted.
    TimeOut,
}

/// What `message` returns for each error.
pub open spec fn message_spec(e: PSNServerError) -> Seq<char> {
    match e {
        PSNServerError::Authorization => "Authentication Failed"@,
        PSNServerError::General500(m) => "Internal Server Error: "@ + m@,
        PSNServerError::PSN(m) => "PSN Error: "@ + m@,
        PSNServerError::Solver(m) => "Solver Error: "@ + m@,
        PSNServerError::TimeOut => "Request Timeout"@,
    }
}

/// The status code and text a caller sees for an error.
pub struct ErrorMessage {
    pub status: u16,
    pub error: String,
}

impl ErrorMessage {
    pub fn new(status: u16, error: String) -> (r: ErrorMessage)
        ensures
            r.status == status,
            r.error == error,
    {
        ErrorMessage { status, error }
    }
}

impl PSNServerError {
    /// The human-readable text of the error.
    pub fn message(&self) -> (r: String)
        ensures
            r@ == message_spec(*self),
    {
        match self {
            PSNServerError::Authorization => "Authentication Failed".to_owned(),
            PSNServerError::General500(m) => {
                String::from_str("Internal Server Error: ").concat(m.as_str())
            },
            PSNServerError::PSN(m) => String::from_str("PSN Error: ").concat(m.as_str()),
            PSNServerError::Solver(m) => String::from_str("Solver Error: ").concat(m.as_str()),
            PSNServerError::TimeOut => "Request Timeout".to_owned(),
        }
    }

    /// The status code presented for the error: the authorization failure is
    /// reported as 203, every other failure as 500.
    pub open spec fn status_spec(self) -> u16 {
        match self {
            PSNServerError::Authorization => 203,
            _ => 500,
        }
    }

    /// The payload a caller receives for the error: its status code, and
    /// either the inner message (for downstream, transport and solver
    /// failures) or the error's own text.
    pub fn error_response(&self) -> (r: ErrorMessage)
        ensures
            r.status == self.status_spec(),
            r.error@ == match *self {
                PSNServerError::Authorization => message_spec(*self),
                PSNServerError::General500(m) => m@,
                PSNServerError::PSN(m) => m@,
                PSNServerError::Solver(m) => m@,
                PSNServerError::TimeOut => message_spec(*self),
            },
    {
        match self {
            PSNServerError::Authorization => ErrorMessage::new(203, self.message()),
            PSNServerError::General500(m) => ErrorMessage::new(500, m.clone()),
            PSNServerError::PSN(m) => ErrorMessage::new(500, m.clone()),
            PSNServerError::TimeOut => ErrorMessage::new(500, self.message()),
            PSNServerError::Solver(m) => ErrorMessage::new(500, m.clone()),
        }
    }
}

} // verus!
