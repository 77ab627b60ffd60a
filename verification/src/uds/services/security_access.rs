//! Security Access: unlock a security level with a seed and a key.
//!
//! The client asks for the seed of an odd level, hands the seed to the
//! caller's key algorithm, and sends the key at the level above.

use vstd::prelude::*;
use crate::uds::client::{failure_of, verdict_for, Reply, Step, UdsClient, Verdict};
use crate::uds::error::{Failure, UdsError};
use crate::uds::pdus::security_access::{
    KeyRequest,
    KeyResponse,
    SeedRequest,
    SeedResponse,
    SID_SEC_REQ,
};
use crate::uds::pdus::{answer, RxPdu, TxPdu};
use crate::uds::text::{decimal, push_decimal};

verus! {

/// The words that refuse a security level that is not odd.
pub open spec fn level_refusal_text(sec_level: u8) -> Seq<char> {
    "The security level must be an odd number but is "@ + decimal(sec_level as nat)
}

/// The words that report a response for another security level than the
/// one asked for.
pub open spec fn level_mismatch_text(requested: u8, received: u8) -> Seq<char> {
    "Expected response for security level "@ + decimal(requested as nat) + " but got for "@
        + decimal(received as nat)
}

/// The words that report that the key algorithm failed with `reason`.
pub open spec fn key_failure_text(reason: Seq<char>) -> Seq<char> {
    "Failed to generate key: "@ + reason
}

/// How far an unlock has come.
pub enum UnlockPhase {
    /// The seed of `sec_level` was asked for.
    Seed { sec_level: u8 },
    /// The key was sent at `key_level`.
    Key { key_level: u8 },
}

/// The exchange that unlocks a security level. `F` is the key algorithm,
/// which is called once, with the seed.
pub struct Unlock<F: FnOnce(&[u8]) -> Result<Vec<u8>, String>> {
    level: u8,
    key_algo: Option<F>,
}

impl<F: FnOnce(&[u8]) -> Result<Vec<u8>, String>> Unlock<F> {
    #[verifier::type_invariant]
    spec fn inv(self) -> bool {
        self.key_algo matches Some(key_algo) ==> {
            &&& self.level % 2 == 1
            &&& self.level < 255
            &&& forall|seed: &[u8]| call_requires(key_algo, (seed,))
        }
    }

    /// How far the exchange has come.
    pub closed spec fn phase(self) -> UnlockPhase {
        if self.key_algo is Some {
            UnlockPhase::Seed { sec_level: self.level }
        } else {
            UnlockPhase::Key { key_level: self.level }
        }
    }

    /// The key algorithm, as long as the seed is awaited.
    pub closed spec fn key_algo(self) -> F {
        self.key_algo->0
    }

    /// Whether `r` is what follows the key algorithm's answer `key`: a key
    /// goes out at `key_level`, and a failure ends the call with `Other`.
    pub open spec fn follows_key(
        key_level: u8,
        key: Result<Vec<u8>, String>,
        r: Step<Unlock<F>, ()>,
    ) -> bool {
        match key {
            Ok(key) => r matches Step::Send(next, message) && next.phase() == (UnlockPhase::Key {
                key_level,
            }) && message@ == seq![SID_SEC_REQ, key_level] + key@,
            Err(reason) => r.fails_with(Failure::Other(key_failure_text(reason@))),
        }
    }

    /// Takes what the key algorithm made of the seed, and sends the key at
    /// `key_level`.
    pub fn send_key(key_level: u8, key: Result<Vec<u8>, String>) -> (r: Step<Unlock<F>, ()>)
        ensures
            Self::follows_key(key_level, key, r),
    {
        match key {
            Ok(key) => {
                let request = KeyRequest::new(key_level, key.as_slice());
                Step::Send(Unlock { level: key_level, key_algo: None }, request.serialize())
            },
            Err(reason) => {
                let mut words = String::from_str("Failed to generate key: ");
                words.append(reason.as_str());
                Step::Done(Err(UdsError::Other(words)))
            },
        }
    }

    /// Takes the next received message.
    ///
    /// While the seed is awaited: the call goes on while the server asks
    /// for more time; on the response for the level that was asked for, the
    /// key algorithm is called with the seed, the bytes after the second,
    /// and what it returns decides as `follows_key` says. While the answer
    /// to the key is awaited: the call succeeds on the response that names
    /// the level of the key.
    pub fn step(self, data: &[u8]) -> (r: Step<Unlock<F>, ()>)
        ensures
            match self.phase() {
                UnlockPhase::Seed { sec_level } => match verdict_for::<SeedRequest, SeedResponse>(
                    data@,
                ) {
                    Verdict::Pending => r == Step::<Unlock<F>, ()>::Wait(self),
                    Verdict::Positive => if data@[1] != sec_level {
                        r.fails_with(
                            Failure::InvalidResponse(level_mismatch_text(sec_level, data@[1])),
                        )
                    } else {
                        exists|seed: &[u8], key: Result<Vec<u8>, String>|
                            {
                                &&& seed@ == data@.subrange(2, data@.len() as int)
                                &&& call_ensures(self.key_algo(), (seed,), key)
                                &&& Self::follows_key((sec_level + 1) as u8, key, r)
                            }
                    },
                    refusal => r.fails_with(failure_of(refusal).unwrap()),
                },
                UnlockPhase::Key { key_level } => match verdict_for::<KeyRequest, KeyResponse>(
                    data@,
                ) {
                    Verdict::Pending => r == Step::<Unlock<F>, ()>::Wait(self),
                    Verdict::Positive => if data@[1] != key_level {
                        r.fails_with(
                            Failure::InvalidResponse(level_mismatch_text(key_level, data@[1])),
                        )
                    } else {
                        r matches Step::Done(Ok(_))
                    },
                    refusal => r.fails_with(failure_of(refusal).unwrap()),
                },
            },
    {
        proof {
            use_type_invariant(&self);
        }
        let Unlock { level, key_algo } = self;
        match key_algo {
            Some(key_algo) => match UdsClient::receive::<SeedRequest, SeedResponse>(data) {
                Reply::Pending => Step::Wait(Unlock { level, key_algo: Some(key_algo) }),
                Reply::Done(Err(error)) => Step::Done(Err(error)),
                Reply::Done(Ok(response)) => {
                    if response.sec_level != level {
                        return Step::Done(
                            Err(
                                UdsError::InvalidResponse(
                                    level_mismatch(level, response.sec_level),
                                ),
                            ),
                        );
                    }
                    let seed = response.seed.as_slice();
                    let key = key_algo(seed);
                    let r = Self::send_key(level + 1, key);
                    assert(call_ensures(self.key_algo(), (seed,), key));
                    r
                },
            },
            None => match UdsClient::receive::<KeyRequest, KeyResponse>(data) {
                Reply::Pending => Step::Wait(Unlock { level, key_algo: None }),
                Reply::Done(Err(error)) => Step::Done(Err(error)),
                Reply::Done(Ok(response)) => {
                    if response.sec_level != level {
                        return Step::Done(
                            Err(
                                UdsError::InvalidResponse(
                                    level_mismatch(level, response.sec_level),
                                ),
                            ),
                        );
                    }
                    Step::Done(Ok(()))
                },
            },
        }
    }
}

/// Writes out that a response is for another security level.
fn level_mismatch(requested: u8, received: u8) -> (r: String)
    ensures
        r@ == level_mismatch_text(requested, received),
{
    let mut words = String::from_str("Expected response for security level ");
    push_decimal(&mut words, requested as usize);
    words.append(" but got for ");
    push_decimal(&mut words, received as usize);
    words
}

impl UdsClient {
    /// Opens the exchange that unlocks `sec_level` with the key that
    /// `key_algo` makes of the seed.
    ///
    /// An odd level has the request `27 SL [seed_data…]` transmitted. Any
    /// other level is refused, and nothing is to be transmitted.
    pub fn unlock<F: FnOnce(&[u8]) -> Result<Vec<u8>, String>>(
        sec_level: u8,
        seed_data: &[u8],
        key_algo: F,
    ) -> (r: Step<Unlock<F>, ()>)
        requires
            sec_level < 255,
            forall|seed: &[u8]| call_requires(key_algo, (seed,)),
        ensures
            if sec_level % 2 == 1 {
                r matches Step::Send(next, message) && next.phase() == (UnlockPhase::Seed {
                    sec_level,
                }) && next.key_algo() == key_algo && message@ == seq![SID_SEC_REQ, sec_level]
                    + seed_data@
            } else {
                r.fails_with(Failure::InvalidRequest(level_refusal_text(sec_level)))
            },
    {
        // The key goes out at the next level, which is even.

        if sec_level % 2 != 1 {
            let mut words = String::from_str("The security level must be an odd number but is ");
            push_decimal(&mut words, sec_level as usize);
            return Step::Done(Err(UdsError::InvalidRequest(words)));
        }
        let request = SeedRequest::new(sec_level, seed_data);
        Step::Send(Unlock { level: sec_level, key_algo: Some(key_algo) }, request.serialize())
    }
}

/// A server that grants the request for a seed with the level and a seed is
/// understood: its answer passes for the response, and what is read of it
/// are that level and that seed.
pub proof fn lemma_seed_answer(
    sec_level: u8,
    seed_data: Seq<u8>,
    seed: Seq<u8>,
    response: SeedResponse,
)
    requires
        seed.len() + 2 <= usize::MAX,
        response.holds(answer(seq![SID_SEC_REQ, sec_level] + seed_data, seq![sec_level] + seed)),
    ensures
        verdict_for::<SeedRequest, SeedResponse>(
            answer(seq![SID_SEC_REQ, sec_level] + seed_data, seq![sec_level] + seed),
        ) == Verdict::Positive,
        response.sec_level == sec_level,
        response.seed@ == seed,
{
    assert(0x27u8 | 0x40u8 == 0x67u8) by (bit_vector);
    let message = answer(seq![SID_SEC_REQ, sec_level] + seed_data, seq![sec_level] + seed);
    assert(message.subrange(2, message.len() as int) =~= seed);
}

/// A server that grants a key with the level of the key is understood: its
/// answer passes for the response, and what is read of it is that level.
pub proof fn lemma_key_answer(key_level: u8, key: Seq<u8>, response: KeyResponse)
    requires
        response.holds(answer(seq![SID_SEC_REQ, key_level] + key, seq![key_level])),
    ensures
        verdict_for::<KeyRequest, KeyResponse>(
            answer(seq![SID_SEC_REQ, key_level] + key, seq![key_level]),
        ) == Verdict::Positive,
        response.sec_level == key_level,
{
    assert(0x27u8 | 0x40u8 == 0x67u8) by (bit_vector);
}

} // verus!
