//! Negative response codes: the byte on the wire, the named code, and the
//! words in which a code is reported.

use vstd::prelude::*;
use vstd::std_specs::convert::{FromSpec, FromSpecImpl};
use crate::uds::text::{hex, push_hex_byte};

verus! {

/// The reason a server gives for refusing a request.
///
/// Every byte stands for exactly one code: the named ones below, and
/// `Unknown` with the byte itself for all the others.
#[derive(Debug, Clone, Copy, PartialEq, Eq, Structural)]
pub enum Nrc {
    /// `0x00`
    PositiveResponse,
    /// `0x10`
    GeneralReject,
    /// `0x11`
    ServiceNotSupported,
    /// `0x12`
    SubFunctionNotSupported,
    /// `0x13`
    IncorrectMessageLengthOrInvalidFormat,
    /// `0x14`
    ResponseTooLong,
    /// `0x21`
    BusyRepeatRequest,
    /// `0x22`
    ConditionsNotCorrect,
    /// `0x24`
    RequestSequenceError,
    /// `0x31`
    RequestOutOfRange,
    /// `0x33`
    SecurityAccessDenied,
    /// `0x35`
    InvalidKey,
    /// `0x36`
    ExceedNumberOfAttempts,
    /// `0x37`
    RequiredTimeDelayNotExpired,
    /// `0x70`
    UploadDownloadNotAccepted,
    /// `0x71`
    TransferDataSuspended,
    /// `0x72`
    GeneralProgrammingFailure,
    /// `0x73`
    WrongBlockSequenceCounter,
    /// `0x78`
    RequestCorrectlyReceivedResponsePending,
    /// `0x7E`
    SubFunctionNotSupportedInActiveSession,
    /// `0x7F`
    ServiceNotSupportedInActiveSession,
    /// Any byte that has no name above.
    Unknown(u8),
}

impl Nrc {
    /// Whether `byte` has a name of its own.
    pub open spec fn is_named(byte: u8) -> bool {
        byte == 0x00
        || byte == 0x10
        || byte == 0x11
        || byte == 0x12
        || byte == 0x13
        || byte == 0x14
        || byte == 0x21
        || byte == 0x22
        || byte == 0x24
        || byte == 0x31
        || byte == 0x33
        || byte == 0x35
        || byte == 0x36
        || byte == 0x37
        || byte == 0x70
        || byte == 0x71
        || byte == 0x72
        || byte == 0x73
        || byte == 0x78
        || byte == 0x7E
        || byte == 0x7F
    }

    /// Whether this value is the one that its byte decodes to: a named code,
    /// or `Unknown` with a byte that has no name.
    pub open spec fn is_canonical(self) -> bool {
        match self {
            Nrc::Unknown(byte) => !Nrc::is_named(byte),
            _ => true,
        }
    }

    /// The code that `byte` stands for.
    pub open spec fn of_byte(byte: u8) -> Nrc {
        match byte {
            0x00 => Nrc::PositiveResponse,
            0x10 => Nrc::GeneralReject,
            0x11 => Nrc::ServiceNotSupported,
            0x12 => Nrc::SubFunctionNotSupported,
            0x13 => Nrc::IncorrectMessageLengthOrInvalidFormat,
            0x14 => Nrc::ResponseTooLong,
            0x21 => Nrc::BusyRepeatRequest,
            0x22 => Nrc::ConditionsNotCorrect,
            0x24 => Nrc::RequestSequenceError,
            0x31 => Nrc::RequestOutOfRange,
            0x33 => Nrc::SecurityAccessDenied,
            0x35 => Nrc::InvalidKey,
            0x36 => Nrc::ExceedNumberOfAttempts,
            0x37 => Nrc::RequiredTimeDelayNotExpired,
            0x70 => Nrc::UploadDownloadNotAccepted,
            0x71 => Nrc::TransferDataSuspended,
            0x72 => Nrc::GeneralProgrammingFailure,
            0x73 => Nrc::WrongBlockSequenceCounter,
            0x78 => Nrc::RequestCorrectlyReceivedResponsePending,
            0x7E => Nrc::SubFunctionNotSupportedInActiveSession,
            0x7F => Nrc::ServiceNotSupportedInActiveSession,
            _ => Nrc::Unknown(byte),
        }
    }

    /// The byte that stands for this code.
    pub open spec fn byte(self) -> u8 {
        match self {
            Nrc::PositiveResponse => 0x00,
            Nrc::GeneralReject => 0x10,
            Nrc::ServiceNotSupported => 0x11,
            Nrc::SubFunctionNotSupported => 0x12,
            Nrc::IncorrectMessageLengthOrInvalidFormat => 0x13,
            Nrc::ResponseTooLong => 0x14,
            Nrc::BusyRepeatRequest => 0x21,
            Nrc::ConditionsNotCorrect => 0x22,
            Nrc::RequestSequenceError => 0x24,
            Nrc::RequestOutOfRange => 0x31,
            Nrc::SecurityAccessDenied => 0x33,
            Nrc::InvalidKey => 0x35,
            Nrc::ExceedNumberOfAttempts => 0x36,
            Nrc::RequiredTimeDelayNotExpired => 0x37,
            Nrc::UploadDownloadNotAccepted => 0x70,
            Nrc::TransferDataSuspended => 0x71,
            Nrc::GeneralProgrammingFailure => 0x72,
            Nrc::WrongBlockSequenceCounter => 0x73,
            Nrc::RequestCorrectlyReceivedResponsePending => 0x78,
            Nrc::SubFunctionNotSupportedInActiveSession => 0x7E,
            Nrc::ServiceNotSupportedInActiveSession => 0x7F,
            Nrc::Unknown(byte) => byte,
        }
    }

    /// The words in which this code is reported.
    pub open spec fn text(self) -> Seq<char> {
        match self {
            Nrc::PositiveResponse => "Positive response"@,
            Nrc::GeneralReject => "General reject"@,
            Nrc::ServiceNotSupported => "Service not supported"@,
            Nrc::SubFunctionNotSupported => "Sub-Function not supported"@,
            Nrc::IncorrectMessageLengthOrInvalidFormat =>
                "Incorrect message length or invalid format"@,
            Nrc::ResponseTooLong => "Response too long"@,
            Nrc::BusyRepeatRequest => "Busy repeat request"@,
            Nrc::ConditionsNotCorrect => "Conditions not correct"@,
            Nrc::RequestSequenceError => "Request sequence error"@,
            Nrc::RequestOutOfRange => "Request out of range"@,
            Nrc::SecurityAccessDenied => "Security access denied"@,
            Nrc::InvalidKey => "Invalid key"@,
            Nrc::ExceedNumberOfAttempts => "Exceed number of attempts"@,
            Nrc::RequiredTimeDelayNotExpired => "Required time delay not expired"@,
            Nrc::UploadDownloadNotAccepted => "Upload/Download not accepted"@,
            Nrc::TransferDataSuspended => "Transfer data suspended"@,
            Nrc::GeneralProgrammingFailure => "General programming failure"@,
            Nrc::WrongBlockSequenceCounter => "Wrong block sequence counter"@,
            Nrc::RequestCorrectlyReceivedResponsePending =>
                "Request correctly received, response pending"@,
            Nrc::SubFunctionNotSupportedInActiveSession =>
                "Sub-Function not supported in active session"@,
            Nrc::ServiceNotSupportedInActiveSession => "Service not supported in active session"@,
            Nrc::Unknown(byte) => "Unknown NRC 0x"@ + hex(byte as nat, 2),
        }
    }

    /// Writes the code out for a human reader.
    pub fn to_string(&self) -> (r: String)
        ensures
            r@ == self.text(),
    {
        match *self {
            Nrc::PositiveResponse => String::from_str("Positive response"),
            Nrc::GeneralReject => String::from_str("General reject"),
            Nrc::ServiceNotSupported => String::from_str("Service not supported"),
            Nrc::SubFunctionNotSupported => String::from_str("Sub-Function not supported"),
            Nrc::IncorrectMessageLengthOrInvalidFormat => String::from_str(
                "Incorrect message length or invalid format",
            ),
            Nrc::ResponseTooLong => String::from_str("Response too long"),
            Nrc::BusyRepeatRequest => String::from_str("Busy repeat request"),
            Nrc::ConditionsNotCorrect => String::from_str("Conditions not correct"),
            Nrc::RequestSequenceError => String::from_str("Request sequence error"),
            Nrc::RequestOutOfRange => String::from_str("Request out of range"),
            Nrc::SecurityAccessDenied => String::from_str("Security access denied"),
            Nrc::InvalidKey => String::from_str("Invalid key"),
            Nrc::ExceedNumberOfAttempts => String::from_str("Exceed number of attempts"),
            Nrc::RequiredTimeDelayNotExpired => String::from_str("Required time delay not expired"),
            Nrc::UploadDownloadNotAccepted => String::from_str("Upload/Download not accepted"),
            Nrc::TransferDataSuspended => String::from_str("Transfer data suspended"),
            Nrc::GeneralProgrammingFailure => String::from_str("General programming failure"),
            Nrc::WrongBlockSequenceCounter => String::from_str("Wrong block sequence counter"),
            Nrc::RequestCorrectlyReceivedResponsePending => String::from_str(
                "Request correctly received, response pending",
            ),
            Nrc::SubFunctionNotSupportedInActiveSession => String::from_str(
                "Sub-Function not supported in active session",
            ),
            Nrc::ServiceNotSupportedInActiveSession => String::from_str(
                "Service not supported in active session",
            ),
            Nrc::Unknown(byte) => {
                let mut words = String::from_str("Unknown NRC 0x");
                push_hex_byte(&mut words, byte);
                words
            },
        }
    }
}

impl From<u8> for Nrc {
    fn from(nrc: u8) -> (r: Nrc) {
        match nrc {
            0x00 => Nrc::PositiveResponse,
            0x10 => Nrc::GeneralReject,
            0x11 => Nrc::ServiceNotSupported,
            0x12 => Nrc::SubFunctionNotSupported,
            0x13 => Nrc::IncorrectMessageLengthOrInvalidFormat,
            0x14 => Nrc::ResponseTooLong,
            0x21 => Nrc::BusyRepeatRequest,
            0x22 => Nrc::ConditionsNotCorrect,
            0x24 => Nrc::RequestSequenceError,
            0x31 => Nrc::RequestOutOfRange,
            0x33 => Nrc::SecurityAccessDenied,
            0x35 => Nrc::InvalidKey,
            0x36 => Nrc::ExceedNumberOfAttempts,
            0x37 => Nrc::RequiredTimeDelayNotExpired,
            0x70 => Nrc::UploadDownloadNotAccepted,
            0x71 => Nrc::TransferDataSuspended,
            0x72 => Nrc::GeneralProgrammingFailure,
            0x73 => Nrc::WrongBlockSequenceCounter,
            0x78 => Nrc::RequestCorrectlyReceivedResponsePending,
            0x7E => Nrc::SubFunctionNotSupportedInActiveSession,
            0x7F => Nrc::ServiceNotSupportedInActiveSession,
            nrc => Nrc::Unknown(nrc),
        }
    }
}

impl FromSpecImpl<u8> for Nrc {
    open spec fn obeys_from_spec() -> bool {
        true
    }

    open spec fn from_spec(nrc: u8) -> Nrc {
        Nrc::of_byte(nrc)
    }
}

impl From<Nrc> for u8 {
    fn from(nrc: Nrc) -> (r: u8) {
        match nrc {
            Nrc::PositiveResponse => 0x00,
            Nrc::GeneralReject => 0x10,
            Nrc::ServiceNotSupported => 0x11,
            Nrc::SubFunctionNotSupported => 0x12,
            Nrc::IncorrectMessageLengthOrInvalidFormat => 0x13,
            Nrc::ResponseTooLong => 0x14,
            Nrc::BusyRepeatRequest => 0x21,
            Nrc::ConditionsNotCorrect => 0x22,
            Nrc::RequestSequenceError => 0x24,
            Nrc::RequestOutOfRange => 0x31,
            Nrc::SecurityAccessDenied => 0x33,
            Nrc::InvalidKey => 0x35,
            Nrc::ExceedNumberOfAttempts => 0x36,
            Nrc::RequiredTimeDelayNotExpired => 0x37,
            Nrc::UploadDownloadNotAccepted => 0x70,
            Nrc::TransferDataSuspended => 0x71,
            Nrc::GeneralProgrammingFailure => 0x72,
            Nrc::WrongBlockSequenceCounter => 0x73,
            Nrc::RequestCorrectlyReceivedResponsePending => 0x78,
            Nrc::SubFunctionNotSupportedInActiveSession => 0x7E,
            Nrc::ServiceNotSupportedInActiveSession => 0x7F,
            Nrc::Unknown(nrc) => nrc,
        }
    }
}

impl FromSpecImpl<Nrc> for u8 {
    open spec fn obeys_from_spec() -> bool {
        true
    }

    open spec fn from_spec(nrc: Nrc) -> u8 {
        nrc.byte()
    }
}

/// Decoding a byte and encoding the code again gives the byte back.
pub proof fn lemma_nrc_byte_round_trip(byte: u8)
    ensures
        Nrc::of_byte(byte).byte() == byte,
        Nrc::of_byte(byte).is_canonical(),
        <u8 as FromSpec<Nrc>>::from_spec(<Nrc as FromSpec<u8>>::from_spec(byte)) == byte,
{
}

/// Encoding a canonical code and decoding the byte again gives the code
/// back, so that bytes and canonical codes correspond one to one.
pub proof fn lemma_nrc_code_round_trip(nrc: Nrc)
    requires
        nrc.is_canonical(),
    ensures
        Nrc::of_byte(nrc.byte()) == nrc,
{
}

/// Two bytes that decode to the same code are the same byte.
pub proof fn lemma_nrc_of_byte_injective(a: u8, b: u8)
    requires
        Nrc::of_byte(a) == Nrc::of_byte(b),
    ensures
        a == b,
{
    lemma_nrc_byte_round_trip(a);
    lemma_nrc_byte_round_trip(b);
}

} // verus!
