use vstd::prelude::*;

verus! {

/// Every way an operation of the client can fail.
#[derive(Debug, Clone, PartialEq, Eq)]
pub enum ClientError {
    /// A request could not be rebuilt for a retry (its body cannot be replayed).
    RequestClone,
    /// The transport failed on every attempt the retry budget allowed.
    Transport,
    /// Login or a captcha-token exchange was rejected.
    Auth,
    /// The service answered with an error code other than the captcha sentinel.
    Remote { code: i64, message: String },
    /// A component of a path does not exist.
    NotFound,
    /// The captcha sentinel came back again after a refresh.
    CallFailed,
    /// The local destination of a transfer could not be written.
    Storage,
    /// A session value cannot stand in an HTTP header.
    InvalidHeader,
}

impl ClientError {
    /// A variant-for-variant copy.
    pub fn duplicate(&self) -> (r: Self)
        ensures
            r == *self,
    {
        match self {
            ClientError::RequestClone => ClientError::RequestClone,
            ClientError::Transport => ClientError::Transport,
            ClientError::Auth => ClientError::Auth,
            ClientError::Remote { code, message } => ClientError::Remote { code: *code, message: message.clone() },
            ClientError::NotFound => ClientError::NotFound,
            ClientError::CallFailed => ClientError::CallFailed,
            ClientError::Storage => ClientError::Storage,
            ClientError::InvalidHeader => ClientError::InvalidHeader,
        }
    }
}

/// What a remote call answers: a payload, or an error code with its message.
pub enum ApiOutcome<T> {
    Success(T),
    Error { code: i64, message: String },
}

} // verus!
