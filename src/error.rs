use vstd::prelude::*;

verus! {

/// An error that reaches the client as a JSON body `{"message": ...}`.
#[derive(Debug)]
pub struct Error {
    pub status_code: u16,
    pub message: String,
}

/// What the record store reported when a lookup or a write failed.
#[derive(Debug)]
pub enum StoreFailure {
    /// A constraint of the store was violated; carries the store's message.
    Conflict(String),
    /// No record matched.
    NotFound,
    /// Anything else; carries a description for the logs.
    Other(String),
}

/// Whether `code` is accepted as an HTTP status code (three digits).
pub open spec fn is_status_code(code: u16) -> bool {
    100 <= code <= 999
}

/// The status sent to the client for an error whose code is `code`.
pub open spec fn response_status_of(code: u16) -> u16 {
    if is_status_code(code) {
        code
    } else {
        500
    }
}

/// The message sent to the client: server-side failures never show their detail.
pub open spec fn response_message_of(code: u16, message: Seq<char>) -> Seq<char> {
    if response_status_of(code) < 500 {
        message
    } else {
        "Internal server error"@
    }
}

impl Error {
    pub fn new(status_code: u16, message: String) -> (r: Error)
        ensures
            r.status_code == status_code,
            r.message@ == message@,
    {
        Error { status_code, message }
    }

    /// The error for a failed store operation: 409 with the store's message for a
    /// conflict, 404 for a missing record, 500 otherwise.
    pub fn from_store_failure(failure: StoreFailure) -> (r: Error)
        ensures
            match failure {
                StoreFailure::Conflict(m) => r.status_code == 409 && r.message@ == m@,
                StoreFailure::NotFound => r.status_code == 404 && r.message@
                    == "Record not found"@,
                StoreFailure::Other(m) => r.status_code == 500 && r.message@ == m@,
            },
    {
        match failure {
            StoreFailure::Conflict(m) => Error::new(409, m),
            StoreFailure::NotFound => Error::new(404, "Record not found".to_owned()),
            StoreFailure::Other(m) => Error::new(500, m),
        }
    }

    /// The status code of the response: the error's own code when it is a valid
    /// HTTP status, else 500.
    pub fn response_status(&self) -> (r: u16)
        ensures
            r == response_status_of(self.status_code),
    {
        if 100 <= self.status_code && self.status_code <= 999 {
            self.status_code
        } else {
            500
        }
    }

    /// The message of the response body.
    pub fn response_message(&self) -> (r: String)
        ensures
            r@ == response_message_of(self.status_code, self.message@),
    {
        if self.response_status() < 500 {
            self.message.clone()
        } else {
            "Internal server error".to_owned()
        }
    }
}

} // verus!
