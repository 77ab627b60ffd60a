//! The judgement of received messages.
//!
//! A request is transmitted once. Every message that arrives after it is
//! judged on its own: it tells the client to keep reading, it refuses the
//! request, it is malformed, or it is the response. The client performs no
//! input or output: the caller reads the messages and hands them over.

use core::marker::PhantomData;
use vstd::prelude::*;
use crate::uds::error::{Failure, UdsError};
use crate::uds::nrc::{lemma_nrc_byte_round_trip, lemma_nrc_of_byte_injective, Nrc};
use crate::uds::pdus::{RxPdu, TxPdu};
use crate::uds::text::{decimal, hex, push_decimal, push_hex_byte};

verus! {

/// The first byte of every negative response.
pub const RESPONSE_SID_NEGATIVE: u8 = 0x7F;

/// The code by which a server asks for more time.
pub const NRC_RESPONSE_PENDING: u8 = 0x78;

/// Why a received message is no response to the request.
#[derive(Debug, Clone, Copy, PartialEq, Eq, Structural)]
pub enum Fault {
    /// The message has no bytes.
    Empty,
    /// A negative response of this length, which is not three.
    NegativeLength(usize),
    /// A negative response to a request with another identifier.
    ForeignSid,
    /// A message that opens with `received` where `expected` is due.
    UnexpectedSid { expected: u8, received: u8 },
    /// A message of `len` bytes where `min` to `max` are due.
    Length { min: usize, max: usize, len: usize },
}

impl Fault {
    /// The words in which the fault is reported.
    pub open spec fn text(self) -> Seq<char> {
        match self {
            Fault::Empty => "Received an empty response"@,
            Fault::NegativeLength(len) => "Response is negative and has invalid length '"@
                + decimal(len as nat) + "'. Expected length of '3'"@,
            Fault::ForeignSid => "Received response for another SID"@,
            Fault::UnexpectedSid { expected, received } => "Expected the SID "@ + hex(
                expected as nat,
                2,
            ) + " but received SID "@ + hex(received as nat, 2),
            Fault::Length { min, max, len } =>
                "Expected the length of the response to be between "@ + decimal(min as nat)
                + " and "@ + decimal(max as nat) + " but got length of "@ + decimal(len as nat),
        }
    }

    /// Writes the fault out for a human reader.
    pub fn message(&self) -> (r: String)
        ensures
            r@ == self.text(),
    {
        match *self {
            Fault::Empty => String::from_str("Received an empty response"),
            Fault::NegativeLength(len) => {
                let mut words = String::from_str("Response is negative and has invalid length '");
                push_decimal(&mut words, len);
                words.append("'. Expected length of '3'");
                words
            },
            Fault::ForeignSid => String::from_str("Received response for another SID"),
            Fault::UnexpectedSid { expected, received } => {
                let mut words = String::from_str("Expected the SID ");
                push_hex_byte(&mut words, expected);
                words.append(" but received SID ");
                push_hex_byte(&mut words, received);
                words
            },
            Fault::Length { min, max, len } => {
                let mut words = String::from_str(
                    "Expected the length of the response to be between ",
                );
                push_decimal(&mut words, min);
                words.append(" and ");
                push_decimal(&mut words, max);
                words.append(" but got length of ");
                push_decimal(&mut words, len);
                words
            },
        }
    }
}

/// What a received message means for the request that is under way.
#[derive(Debug, Clone, Copy, PartialEq, Eq, Structural)]
pub enum Verdict {
    /// The server needs more time: read the next message.
    Pending,
    /// The server refused the request with this code.
    Negative(Nrc),
    /// The message is malformed.
    Invalid(Fault),
    /// The message has the identifier and a length of the response.
    Positive,
}

/// The verdict on `data`, received after a request with identifier
/// `req_sid` whose response opens with `res_sid` and has `len_min` to
/// `len_max` bytes.
pub open spec fn verdict(
    req_sid: u8,
    res_sid: u8,
    len_min: usize,
    len_max: usize,
    data: Seq<u8>,
) -> Verdict {
    if data.len() == 0 {
        Verdict::Invalid(Fault::Empty)
    } else if data[0] == RESPONSE_SID_NEGATIVE {
        if data.len() != 3 {
            Verdict::Invalid(Fault::NegativeLength(data.len() as usize))
        } else if data[1] != req_sid {
            Verdict::Invalid(Fault::ForeignSid)
        } else if data[2] == NRC_RESPONSE_PENDING {
            Verdict::Pending
        } else {
            Verdict::Negative(Nrc::of_byte(data[2]))
        }
    } else if data[0] != res_sid {
        Verdict::Invalid(Fault::UnexpectedSid { expected: res_sid, received: data[0] })
    } else if data.len() < len_min || data.len() > len_max {
        Verdict::Invalid(
            Fault::Length { min: len_min, max: len_max, len: data.len() as usize },
        )
    } else {
        Verdict::Positive
    }
}

/// The verdict on `data` as the answer to a request of type `Req` that
/// expects a response of type `Res`.
pub open spec fn verdict_for<Req: TxPdu, Res: RxPdu>(data: Seq<u8>) -> Verdict {
    verdict(Req::spec_sid(), Res::spec_sid(), Res::spec_len_min(), Res::spec_len_max(), data)
}

/// The error that ends the call on a verdict, if the verdict ends it so.
pub open spec fn failure_of(verdict: Verdict) -> Option<Failure> {
    match verdict {
        Verdict::Negative(nrc) => Some(Failure::Negative(nrc)),
        Verdict::Invalid(fault) => Some(Failure::InvalidResponse(fault.text())),
        _ => None,
    }
}

/// Judges one received message.
pub fn classify(req_sid: u8, res_sid: u8, len_min: usize, len_max: usize, data: &[u8]) -> (r:
    Verdict)
    ensures
        r == verdict(req_sid, res_sid, len_min, len_max, data@),
{
    if data.len() == 0 {
        return Verdict::Invalid(Fault::Empty);
    }
    if data[0] == RESPONSE_SID_NEGATIVE {
        if data.len() != 3 {
            return Verdict::Invalid(Fault::NegativeLength(data.len()));
        }
        // A negative response repeats the identifier of the request, not
        // that of the response.

        if data[1] != req_sid {
            return Verdict::Invalid(Fault::ForeignSid);
        }
        if data[2] == NRC_RESPONSE_PENDING {
            return Verdict::Pending;
        }
        return Verdict::Negative(Nrc::from(data[2]));
    }
    if data[0] != res_sid {
        return Verdict::Invalid(Fault::UnexpectedSid { expected: res_sid, received: data[0] });
    }
    if data.len() < len_min || data.len() > len_max {
        return Verdict::Invalid(
            Fault::Length { min: len_min, max: len_max, len: data.len() },
        );
    }
    Verdict::Positive
}

/// What the client does after a received message, where one request gets
/// one response.
pub enum Reply<T> {
    /// Read the next message: the server asked for more time.
    Pending,
    /// The call is over.
    Done(Result<T, UdsError>),
}

impl<T> Reply<T> {
    /// Whether the call is over with an error that reads `failure`.
    pub open spec fn fails_with(self, failure: Failure) -> bool {
        self matches Reply::Done(Err(error)) && error@ == failure
    }
}

/// What the client does next in an exchange of several messages. `M` is the
/// exchange and `T` what the service yields.
pub enum Step<M, T> {
    /// Read the next message and hand it to the exchange.
    Wait(M),
    /// Transmit these bytes as one message, then read the next message and
    /// hand it to the exchange.
    Send(M, Vec<u8>),
    /// The call is over.
    Done(Result<T, UdsError>),
}

impl<M, T> Step<M, T> {
    /// Whether the call is over with an error that reads `failure`.
    pub open spec fn fails_with(self, failure: Failure) -> bool {
        self matches Step::Done(Err(error)) && error@ == failure
    }

    /// Whether the next action is to transmit `bytes` and go on with an
    /// exchange in `state`.
    pub open spec fn sends(self, state: M, bytes: Seq<u8>) -> bool {
        self matches Step::Send(next, message) && next == state && message@ == bytes
    }
}

/// Whether the parser of `Res` reads `data` where `data` passes for the
/// response. Of the messages that do not pass for it, every one is read.
pub open spec fn reads<Req: TxPdu, Res: RxPdu>(data: Seq<u8>) -> bool {
    verdict_for::<Req, Res>(data) == Verdict::Positive ==> Res::supported(data)
}

/// The exchange of one request for one response: the request goes out
/// once, and messages are read until one of them ends the call.
pub struct Query<Req, Res> {
    request: PhantomData<Req>,
    response: PhantomData<Res>,
}

impl<Req: TxPdu, Res: RxPdu> Query<Req, Res> {
    /// Takes the next received message.
    ///
    /// The call goes on, with nothing transmitted, while the server asks
    /// for more time. It ends with the parsed response on a message that
    /// passes for it, and with an error on any other message.
    pub fn step(self, data: &[u8]) -> (r: Step<Query<Req, Res>, Res>)
        requires
            reads::<Req, Res>(data@),
        ensures
            match verdict_for::<Req, Res>(data@) {
                Verdict::Pending => r == Step::<Query<Req, Res>, Res>::Wait(self),
                Verdict::Positive => r matches Step::Done(Ok(response)) && response.holds(data@),
                refusal => r.fails_with(failure_of(refusal).unwrap()),
            },
            !(r is Send),
            r is Wait <==> data@ == seq![
                RESPONSE_SID_NEGATIVE,
                Req::spec_sid(),
                NRC_RESPONSE_PENDING,
            ],
            r matches Step::Done(Ok(_)) ==> data@.len() >= 1 && data@[0] == Res::spec_sid(),
            forall|n: u8|
                r.fails_with(Failure::Negative(#[trigger] Nrc::of_byte(n))) <==> data@
                    == seq![RESPONSE_SID_NEGATIVE, Req::spec_sid(), n] && n
                    != NRC_RESPONSE_PENDING,
    {
        match UdsClient::receive::<Req, Res>(data) {
            Reply::Pending => Step::Wait(self),
            Reply::Done(result) => Step::Done(result),
        }
    }
}

/// A diagnostic client without a transport of its own. The caller transmits
/// what the client writes and hands over what the server sent.
pub struct UdsClient {}

impl UdsClient {
    /// Opens the exchange of `req` for a response of type `Res`: the bytes
    /// of `req` are to be transmitted.
    pub fn query<Req: TxPdu, Res: RxPdu>(req: Req) -> (r: Step<Query<Req, Res>, Res>)
        ensures
            r matches Step::Send(_, message) && message@ == req.wire(),
    {
        Step::Send(Query { request: PhantomData, response: PhantomData }, req.serialize())
    }

    /// Tells whether `receive` reads `data`.
    pub fn readable<Req: TxPdu, Res: RxPdu>(data: &[u8]) -> (r: bool)
        ensures
            r == reads::<Req, Res>(data@),
    {
        match classify(Req::sid(), Res::sid(), Res::len_min(), Res::len_max(), data) {
            Verdict::Positive => {
                proof {
                    Res::lemma_bounds();
                }
                Res::supports(data)
            },
            _ => true,
        }
    }

    /// Judges `data`, a message received after a request of type `Req` was
    /// transmitted, and parses it where it passes for the response.
    pub fn receive<Req: TxPdu, Res: RxPdu>(data: &[u8]) -> (r: Reply<Res>)
        requires
            reads::<Req, Res>(data@),
        ensures
            match verdict_for::<Req, Res>(data@) {
                Verdict::Pending => r is Pending,
                Verdict::Positive => r matches Reply::Done(Ok(response)) && response.holds(data@),
                refusal => r.fails_with(failure_of(refusal).unwrap()),
            },
            r is Pending <==> data@ == seq![
                RESPONSE_SID_NEGATIVE,
                Req::spec_sid(),
                NRC_RESPONSE_PENDING,
            ],
            r matches Reply::Done(Ok(_)) ==> data@.len() >= 1 && data@[0] == Res::spec_sid(),
            forall|n: u8|
                r.fails_with(Failure::Negative(#[trigger] Nrc::of_byte(n))) <==> data@
                    == seq![RESPONSE_SID_NEGATIVE, Req::spec_sid(), n] && n
                    != NRC_RESPONSE_PENDING,
    {
        proof {
            lemma_pending_iff(
                Req::spec_sid(),
                Res::spec_sid(),
                Res::spec_len_min(),
                Res::spec_len_max(),
                data@,
            );
            assert forall|n: u8|
                verdict_for::<Req, Res>(data@) == Verdict::Negative(
                    #[trigger] Nrc::of_byte(n),
                ) <==> data@ == seq![RESPONSE_SID_NEGATIVE, Req::spec_sid(), n] && n
                    != NRC_RESPONSE_PENDING by {
                lemma_negative_iff(
                    Req::spec_sid(),
                    Res::spec_sid(),
                    Res::spec_len_min(),
                    Res::spec_len_max(),
                    data@,
                    n,
                );
            }
        }
        match classify(Req::sid(), Res::sid(), Res::len_min(), Res::len_max(), data) {
            Verdict::Pending => Reply::Pending,
            Verdict::Negative(nrc) => Reply::Done(Err(UdsError::NegativeResponse(nrc))),
            Verdict::Invalid(fault) => Reply::Done(Err(UdsError::InvalidResponse(fault.message()))),
            Verdict::Positive => {
                proof {
                    Res::lemma_bounds();
                }
                Reply::Done(Ok(Res::deserialize(data)))
            },
        }
    }
}

/// A message passes for the response exactly if it opens with the
/// identifier of the response, is no negative response, and has a length
/// within the bounds.
pub proof fn lemma_positive_opens_with_response_sid(
    req_sid: u8,
    res_sid: u8,
    len_min: usize,
    len_max: usize,
    data: Seq<u8>,
)
    ensures
        verdict(req_sid, res_sid, len_min, len_max, data) == Verdict::Positive <==> {
            &&& data.len() >= 1
            &&& data[0] == res_sid
            &&& data[0] != RESPONSE_SID_NEGATIVE
            &&& len_min <= data.len() <= len_max
        },
{
}

/// A message is a refusal with the code of the byte `n` exactly if it is
/// the three bytes `7F`, the identifier of the request, and `n`, and `n`
/// does not ask for more time.
pub proof fn lemma_negative_iff(
    req_sid: u8,
    res_sid: u8,
    len_min: usize,
    len_max: usize,
    data: Seq<u8>,
    n: u8,
)
    ensures
        verdict(req_sid, res_sid, len_min, len_max, data) == Verdict::Negative(Nrc::of_byte(n))
            <==> data == seq![RESPONSE_SID_NEGATIVE, req_sid, n] && n != NRC_RESPONSE_PENDING,
{
    let bytes = seq![RESPONSE_SID_NEGATIVE, req_sid, n];
    if verdict(req_sid, res_sid, len_min, len_max, data) == Verdict::Negative(Nrc::of_byte(n)) {
        lemma_nrc_of_byte_injective(data[2], n);
        assert(data =~= bytes);
    }
    if data == bytes && n != NRC_RESPONSE_PENDING {
        assert(data[2] == n);
    }
}

/// Every refusal carries the code of the third byte, and every code that a
/// refusal carries is canonical.
pub proof fn lemma_negative_code(
    req_sid: u8,
    res_sid: u8,
    len_min: usize,
    len_max: usize,
    data: Seq<u8>,
    nrc: Nrc,
)
    requires
        verdict(req_sid, res_sid, len_min, len_max, data) == Verdict::Negative(nrc),
    ensures
        data == seq![RESPONSE_SID_NEGATIVE, req_sid, nrc.byte()],
        nrc.byte() != NRC_RESPONSE_PENDING,
        nrc.is_canonical(),
{
    lemma_nrc_byte_round_trip(data[2]);
    assert(data =~= seq![RESPONSE_SID_NEGATIVE, req_sid, nrc.byte()]);
}

/// The client keeps reading exactly on the three bytes `7F`, the identifier
/// of the request, `78`.
pub proof fn lemma_pending_iff(
    req_sid: u8,
    res_sid: u8,
    len_min: usize,
    len_max: usize,
    data: Seq<u8>,
)
    ensures
        verdict(req_sid, res_sid, len_min, len_max, data) == Verdict::Pending <==> data
            == seq![RESPONSE_SID_NEGATIVE, req_sid, NRC_RESPONSE_PENDING],
{
    let bytes = seq![RESPONSE_SID_NEGATIVE, req_sid, NRC_RESPONSE_PENDING];
    if verdict(req_sid, res_sid, len_min, len_max, data) == Verdict::Pending {
        assert(data =~= bytes);
    }
    if data == bytes {
        assert(data[2] == NRC_RESPONSE_PENDING);
    }
}

} // verus!
