//! Classification of delivered payloads against the reserved sentinel strings.
//!
//! The protocol reserves two payload values: `"start"` marks the first message
//! of a timed window and `"done"` marks the authoritative end of a run. They
//! are told apart from data payloads by exact byte equality, checked before
//! any other interpretation; every other payload is data whose only meaningful
//! attribute is its byte length.

use vstd::prelude::*;

verus! {

/// What one delivered payload means to the protocol, decoded once at the
/// transport boundary so the state machines never re-parse raw bytes.
#[derive(Clone, Copy, PartialEq, Eq, Debug)]
pub enum Envelope {
    /// The `"start"` sentinel: begin (or restart) the timed window.
    Start,
    /// The `"done"` sentinel: the authoritative end of the run.
    Done,
    /// A data payload; only its byte length matters to the measurement.
    Data { payload_len: usize },
}

/// The bytes of the `"start"` sentinel.
pub open spec fn start_seq() -> Seq<u8> {
    seq![115u8, 116u8, 97u8, 114u8, 116u8]
}

/// The bytes of the `"done"` sentinel.
pub open spec fn done_seq() -> Seq<u8> {
    seq![100u8, 111u8, 110u8, 101u8]
}

/// How any payload is read: sentinels by exact byte equality first, data
/// otherwise.
pub open spec fn classify_spec(p: Seq<u8>) -> Envelope {
    if p == start_seq() {
        Envelope::Start
    } else if p == done_seq() {
        Envelope::Done
    } else {
        Envelope::Data { payload_len: p.len() as usize }
    }
}

/// Exact byte equality of two payloads.
pub fn bytes_eq(a: &Vec<u8>, b: &Vec<u8>) -> (r: bool)
    ensures
        r <==> a@ == b@,
{
    if a.len() != b.len() {
        assert(a@ != b@);
        return false;
    }
    let n = a.len();
    let mut i: usize = 0;
    while i < n
        invariant
            n == a@.len() == b@.len(),
            i <= n,
            forall|j: int| 0 <= j < i ==> a@[j] == b@[j],
        decreases n - i,
    {
        if a[i] != b[i] {
            assert(a@ != b@);
            return false;
        }
        i += 1;
    }
    proof {
        assert(a@ =~= b@);
    }
    true
}

/// The `"start"` sentinel as a concrete payload.
pub fn start_payload() -> (r: Vec<u8>)
    ensures
        r@ == start_seq(),
{
    let v: Vec<u8> = vec![115u8, 116u8, 97u8, 114u8, 116u8];
    proof {
        assert(v@ =~= start_seq());
    }
    v
}

/// The `"done"` sentinel as a concrete payload.
pub fn done_payload() -> (r: Vec<u8>)
    ensures
        r@ == done_seq(),
{
    let v: Vec<u8> = vec![100u8, 111u8, 110u8, 101u8];
    proof {
        assert(v@ =~= done_seq());
    }
    v
}

/// Decode one delivered payload, sentinels first.
pub fn classify(payload: &Vec<u8>) -> (e: Envelope)
    ensures
        e == classify_spec(payload@),
{
    if bytes_eq(payload, &start_payload()) {
        Envelope::Start
    } else if bytes_eq(payload, &done_payload()) {
        Envelope::Done
    } else {
        Envelope::Data { payload_len: payload.len() }
    }
}

/// The two sentinels are distinct values and are never read as data.
pub proof fn lemma_sentinels_distinct()
    ensures
        start_seq() != done_seq(),
        classify_spec(start_seq()) == Envelope::Start,
        classify_spec(done_seq()) == Envelope::Done,
{
    assert(start_seq().len() == 5);
    assert(done_seq().len() == 4);
}

/// Round trip of a data payload: any payload that is not byte-equal to a
/// sentinel is observed by the consumer as data whose recorded length equals
/// the published length.
pub proof fn lemma_payload_length_round_trip(p: Seq<u8>)
    requires
        p != start_seq(),
        p != done_seq(),
        p.len() <= usize::MAX,
    ensures
        (classify_spec(p) matches Envelope::Data { payload_len } && payload_len == p.len()),
{
}

} // verus!
