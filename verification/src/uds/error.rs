//! What can go wrong in a service call.

use vstd::prelude::*;
use vstd::std_specs::convert::FromSpecImpl;
use crate::uds::nrc::Nrc;

verus! {

/// `std::io::Error`, the failure that the transport reports. Nothing is
/// known of a value of it; it is only carried to the caller.
#[verifier::external_type_specification]
#[verifier::external_body]
pub struct ExIoError(std::io::Error);

/// The ways in which a service call fails. The kinds are disjoint.
#[derive(Debug)]
pub enum UdsError {
    /// The transport failed. The call ends; nothing is tried again.
    TransportError(std::io::Error),
    /// The server refused the request and gave this code.
    NegativeResponse(Nrc),
    /// The server sent a message that is no response to the request.
    InvalidResponse(String),
    /// The caller asked for something that is never sent.
    InvalidRequest(String),
    /// The response does not fit the request, or the caller's key
    /// algorithm failed.
    Other(String),
}

/// An error without its representation in memory: the kind, the code, and
/// the words of the message.
pub enum Failure {
    Transport,
    Negative(Nrc),
    InvalidResponse(Seq<char>),
    InvalidRequest(Seq<char>),
    Other(Seq<char>),
}

impl View for UdsError {
    type V = Failure;

    open spec fn view(&self) -> Failure {
        match self {
            UdsError::TransportError(_) => Failure::Transport,
            UdsError::NegativeResponse(nrc) => Failure::Negative(*nrc),
            UdsError::InvalidResponse(message) => Failure::InvalidResponse(message@),
            UdsError::InvalidRequest(message) => Failure::InvalidRequest(message@),
            UdsError::Other(message) => Failure::Other(message@),
        }
    }
}

impl From<std::io::Error> for UdsError {
    fn from(error: std::io::Error) -> (r: UdsError) {
        UdsError::TransportError(error)
    }
}

impl FromSpecImpl<std::io::Error> for UdsError {
    open spec fn obeys_from_spec() -> bool {
        true
    }

    open spec fn from_spec(error: std::io::Error) -> UdsError {
        UdsError::TransportError(error)
    }
}

} // verus!
