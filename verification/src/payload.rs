//! Data payload generation.
//!
//! The benchmark measures transport and queueing behaviour, so a data
//! payload's content is irrelevant filler; only its byte length matters. The
//! generator still guarantees one protocol obligation: a data payload is
//! never byte-equal to a reserved sentinel, so the consumer always observes
//! it as data of the published length.

use vstd::prelude::*;

use rand::Rng;

use crate::envelope::bytes_eq;
use crate::envelope::classify_spec;
use crate::envelope::done_payload;
use crate::envelope::done_seq;
use crate::envelope::start_payload;
use crate::envelope::start_seq;
use crate::envelope::Envelope;

verus! {

/// An ASCII letter or digit.
pub open spec fn is_ascii_alphanumeric_byte(b: u8) -> bool {
    (48 <= b <= 57) || (65 <= b <= 90) || (97 <= b <= 122)
}

/// Relies on rand's `Alphanumeric` distribution: each sampled value is one
/// byte drawn from the ASCII letters and digits, so taking `len` of them
/// yields exactly `len` alphanumeric bytes. Nothing more is assumed of the
/// randomness.
#[verifier::external_body]
fn sample_alphanumeric_bytes(len: usize) -> (r: Vec<u8>)
    ensures
        r@.len() == len as int,
        forall|i: int| 0 <= i < r@.len() ==> is_ascii_alphanumeric_byte(r@[i]),
{
    rand::thread_rng().sample_iter(&rand::distributions::Alphanumeric).take(len).collect()
}

/// A fresh random data payload of exactly `len` bytes, guaranteed not to be
/// byte-equal to either sentinel, so the consumer classifies it as data of
/// length `len`. A random draw that happens to spell a sentinel would end or
/// restart the run; its first byte is replaced to keep the payload plain
/// data.
pub fn fresh_payload(len: usize) -> (r: Vec<u8>)
    ensures
        r@.len() == len as int,
        (classify_spec(r@) matches Envelope::Data { payload_len } && payload_len == len),
{
    let mut v = sample_alphanumeric_bytes(len);
    let collides = bytes_eq(&v, &start_payload()) || bytes_eq(&v, &done_payload());
    if collides {
        assert(v@.len() > 0) by {
            assert(start_seq().len() == 5);
            assert(done_seq().len() == 4);
        }
        v.set(0, 48);
        assert(v@[0] != start_seq()[0]);
        assert(v@[0] != done_seq()[0]);
    }
    assert(v@ != start_seq());
    assert(v@ != done_seq());
    v
}

} // verus!
