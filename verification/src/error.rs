//! The failures of the client.

use vstd::prelude::*;

verus! {

/// Why an operation of the client failed.
#[derive(Debug)]
pub enum ApiError {
    /// No reply arrived, in any of the attempts.
    Transport(String),
    /// A reply arrived, with a status that is no success.
    Status(String),
    /// The body of the reply is not what the endpoint should give.
    Deserialization(String),
}

/// A failure, as a mathematical value.
pub enum ApiErrorModel {
    Transport(Seq<char>),
    Status(Seq<char>),
    Deserialization(Seq<char>),
}

impl View for ApiError {
    type V = ApiErrorModel;

    open spec fn view(&self) -> ApiErrorModel {
        match *self {
            ApiError::Transport(m) => ApiErrorModel::Transport(m@),
            ApiError::Status(m) => ApiErrorModel::Status(m@),
            ApiError::Deserialization(m) => ApiErrorModel::Deserialization(m@),
        }
    }
}

impl ApiError {
    /// The failure in words.
    pub fn message(&self) -> (r: &str)
        ensures
            r@ == match self@ {
                ApiErrorModel::Transport(m) => m,
                ApiErrorModel::Status(m) => m,
                ApiErrorModel::Deserialization(m) => m,
            },
    {
        match self {
            ApiError::Transport(m) => m.as_str(),
            ApiError::Status(m) => m.as_str(),
            ApiError::Deserialization(m) => m.as_str(),
        }
    }
}

} // verus!
