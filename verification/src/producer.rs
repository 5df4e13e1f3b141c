//! The producer's publishing schedule and its reaction to transport faults.
//!
//! A producer optionally broadcasts the `"start"` signal on the control
//! exchange, then publishes the configured number of data messages, closes the
//! window with the `"done"` sentinel on the data channel, and finally idles so
//! the operator can inspect the broker before the process disappears. Any
//! publish failure is fatal to the run: no further message is ever attempted
//! after one, because a failed publish means a broken connection, not a
//! transient condition worth masking.
//!
//! The schedule is pure: the surrounding process asks `next_action` what to
//! publish, performs the publish (and the configured inter-send pause), and
//! reports the transport's verdict to `advance`.

use vstd::prelude::*;

verus! {

/// Where the producer stands in its schedule.
#[derive(Clone, Copy, PartialEq, Eq, Debug)]
pub enum ProducerPhase {
    /// The `"start"` broadcast has not been published yet.
    Announcing,
    /// Publishing data messages; `sent` counts those already delivered to the
    /// transport successfully.
    Streaming { sent: u64 },
    /// The `"done"` sentinel went out; nothing further is published and the
    /// process stays alive for inspection.
    Idle,
    /// A publish failed; the run is over and exits with an error.
    Failed,
}

/// What the surrounding process must publish next, if anything.
#[derive(Clone, Copy, PartialEq, Eq, Debug)]
pub enum ProducerAction {
    /// Broadcast the `"start"` signal on the control exchange.
    BroadcastStart,
    /// Publish one fixed-length data payload on the data channel.
    PublishData,
    /// Publish the `"done"` sentinel on the data channel.
    PublishDone,
    /// Publish nothing further.
    Rest,
}

/// The phase a producer starts in, depending on whether a synchronized
/// multi-consumer start is required.
pub open spec fn initial_phase_spec(use_control_channel: bool) -> ProducerPhase {
    if use_control_channel {
        ProducerPhase::Announcing
    } else {
        ProducerPhase::Streaming { sent: 0 }
    }
}

/// What the schedule asks for in each phase: the start broadcast first (if
/// configured), then `message_count` data messages, then the `"done"`
/// sentinel, then nothing.
pub open spec fn next_action_spec(p: ProducerPhase, message_count: u64) -> ProducerAction {
    match p {
        ProducerPhase::Announcing => ProducerAction::BroadcastStart,
        ProducerPhase::Streaming { sent } => if sent < message_count {
            ProducerAction::PublishData
        } else {
            ProducerAction::PublishDone
        },
        ProducerPhase::Idle => ProducerAction::Rest,
        ProducerPhase::Failed => ProducerAction::Rest,
    }
}

/// The phase after the transport reports on the action `next_action_spec`
/// asked for. Any reported failure is terminal.
pub open spec fn advance_spec(p: ProducerPhase, message_count: u64, ok: bool) -> ProducerPhase {
    match p {
        ProducerPhase::Announcing => if ok {
            ProducerPhase::Streaming { sent: 0 }
        } else {
            ProducerPhase::Failed
        },
        ProducerPhase::Streaming { sent } => if !ok {
            ProducerPhase::Failed
        } else if sent < message_count {
            ProducerPhase::Streaming { sent: (sent + 1) as u64 }
        } else {
            ProducerPhase::Idle
        },
        ProducerPhase::Idle => ProducerPhase::Idle,
        ProducerPhase::Failed => ProducerPhase::Failed,
    }
}

impl ProducerPhase {
    /// The phase a producer starts in.
    pub fn initial(use_control_channel: bool) -> (p: ProducerPhase)
        ensures
            p == initial_phase_spec(use_control_channel),
    {
        if use_control_channel {
            ProducerPhase::Announcing
        } else {
            ProducerPhase::Streaming { sent: 0 }
        }
    }
}

/// What the producer must publish next.
pub fn next_action(p: ProducerPhase, message_count: u64) -> (a: ProducerAction)
    ensures
        a == next_action_spec(p, message_count),
{
    match p {
        ProducerPhase::Announcing => ProducerAction::BroadcastStart,
        ProducerPhase::Streaming { sent } => if sent < message_count {
            ProducerAction::PublishData
        } else {
            ProducerAction::PublishDone
        },
        ProducerPhase::Idle => ProducerAction::Rest,
        ProducerPhase::Failed => ProducerAction::Rest,
    }
}

/// Move the schedule forward after the transport's verdict on the published
/// action.
pub fn advance(p: ProducerPhase, message_count: u64, ok: bool) -> (r: ProducerPhase)
    ensures
        r == advance_spec(p, message_count, ok),
{
    match p {
        ProducerPhase::Announcing => if ok {
            ProducerPhase::Streaming { sent: 0 }
        } else {
            ProducerPhase::Failed
        },
        ProducerPhase::Streaming { sent } => if !ok {
            ProducerPhase::Failed
        } else if sent < message_count {
            ProducerPhase::Streaming { sent: sent + 1 }
        } else {
            ProducerPhase::Idle
        },
        ProducerPhase::Idle => ProducerPhase::Idle,
        ProducerPhase::Failed => ProducerPhase::Failed,
    }
}

/// The phase after a run over a sequence of transport verdicts, one verdict
/// consumed per published action, stopping as soon as the schedule rests.
pub open spec fn run_phase(p: ProducerPhase, message_count: u64, verdicts: Seq<bool>) -> ProducerPhase
    decreases verdicts.len(),
{
    if verdicts.len() == 0 || next_action_spec(p, message_count) is Rest {
        p
    } else {
        run_phase(advance_spec(p, message_count, verdicts[0]), message_count, verdicts.drop_first())
    }
}

/// How many data messages such a run hands to the transport successfully.
pub open spec fn run_data_sends(p: ProducerPhase, message_count: u64, verdicts: Seq<bool>) -> nat
    decreases verdicts.len(),
{
    if verdicts.len() == 0 || next_action_spec(p, message_count) is Rest {
        0
    } else {
        (if next_action_spec(p, message_count) is PublishData && verdicts[0] {
            1nat
        } else {
            0nat
        }) + run_data_sends(
            advance_spec(p, message_count, verdicts[0]),
            message_count,
            verdicts.drop_first(),
        )
    }
}

/// What a driven producer run did: the final phase and how many data
/// messages the transport accepted.
pub struct ProducerOutcome {
    pub phase: ProducerPhase,
    pub data_sends: usize,
}

/// Drive the schedule over a sequence of transport verdicts, one per
/// published action, stopping as soon as the schedule rests. This is the loop
/// the producing process runs, with real publishes supplying the verdicts; it
/// is also how a test drives the schedule without a broker.
pub fn run_producer(p: ProducerPhase, message_count: u64, verdicts: &Vec<bool>) -> (r:
    ProducerOutcome)
    ensures
        r.phase == run_phase(p, message_count, verdicts@),
        r.data_sends == run_data_sends(p, message_count, verdicts@),
{
    let mut cur = p;
    let mut data_sends: usize = 0;
    let mut i: usize = 0;
    proof {
        assert(verdicts@.skip(0) =~= verdicts@);
    }
    while i < verdicts.len() && !matches!(next_action(cur, message_count), ProducerAction::Rest)
        invariant
            i <= verdicts@.len(),
            data_sends <= i,
            run_phase(p, message_count, verdicts@) == run_phase(
                cur,
                message_count,
                verdicts@.skip(i as int),
            ),
            run_data_sends(p, message_count, verdicts@) == data_sends + run_data_sends(
                cur,
                message_count,
                verdicts@.skip(i as int),
            ),
        decreases verdicts@.len() - i,
    {
        let ok = verdicts[i];
        proof {
            assert(verdicts@.skip(i as int)[0] == verdicts@[i as int]);
            assert(verdicts@.skip(i as int).drop_first() =~= verdicts@.skip(i as int + 1));
        }
        let action = next_action(cur, message_count);
        if matches!(action, ProducerAction::PublishData) && ok {
            data_sends += 1;
        }
        cur = advance(cur, message_count, ok);
        i += 1;
    }
    ProducerOutcome { phase: cur, data_sends }
}

/// A fault is final: once a publish has failed, the schedule asks for nothing
/// further, whatever verdicts follow — no message is ever published after a
/// transport fault.
pub proof fn lemma_fault_is_final(message_count: u64, verdicts: Seq<bool>)
    ensures
        next_action_spec(ProducerPhase::Failed, message_count) is Rest,
        run_phase(ProducerPhase::Failed, message_count, verdicts) == ProducerPhase::Failed,
        run_data_sends(ProducerPhase::Failed, message_count, verdicts) == 0,
{
}

/// A clean run publishes exactly `message_count` data messages: if the
/// transport accepts every publish and enough verdicts arrive, a producer
/// that has `sent` data messages behind it sends exactly the remaining
/// `message_count - sent`, closes with the `"done"` sentinel, and idles.
pub proof fn lemma_clean_run_sends_all(sent: u64, message_count: u64, verdicts: Seq<bool>)
    requires
        sent <= message_count,
        forall|i: int| 0 <= i < verdicts.len() ==> #[trigger] verdicts[i],
        verdicts.len() >= message_count - sent + 1,
    ensures
        run_phase(ProducerPhase::Streaming { sent }, message_count, verdicts)
            == ProducerPhase::Idle,
        run_data_sends(ProducerPhase::Streaming { sent }, message_count, verdicts)
            == message_count - sent,
    decreases message_count - sent,
{
    let p = ProducerPhase::Streaming { sent };
    assert(verdicts[0]);
    if sent < message_count {
        lemma_clean_run_sends_all((sent + 1) as u64, message_count, verdicts.drop_first());
    } else {
        assert(next_action_spec(p, message_count) is PublishDone);
        let p1 = advance_spec(p, message_count, verdicts[0]);
        assert(p1 == ProducerPhase::Idle);
        assert(run_phase(p1, message_count, verdicts.drop_first()) == ProducerPhase::Idle);
        assert(run_data_sends(p1, message_count, verdicts.drop_first()) == 0);
    }
}

/// The same clean run seen from the start, with the optional `"start"`
/// broadcast included: every verdict positive and enough of them means the
/// producer broadcasts the start signal (if configured), publishes exactly
/// `message_count` data messages, closes with `"done"`, and idles.
pub proof fn lemma_clean_run_from_start(
    use_control_channel: bool,
    message_count: u64,
    verdicts: Seq<bool>,
)
    requires
        forall|i: int| 0 <= i < verdicts.len() ==> #[trigger] verdicts[i],
        verdicts.len() >= message_count + 2,
    ensures
        run_phase(initial_phase_spec(use_control_channel), message_count, verdicts)
            == ProducerPhase::Idle,
        run_data_sends(initial_phase_spec(use_control_channel), message_count, verdicts)
            == message_count,
{
    if use_control_channel {
        assert(verdicts[0]);
        let p1 = advance_spec(ProducerPhase::Announcing, message_count, verdicts[0]);
        assert(p1 == (ProducerPhase::Streaming { sent: 0u64 }));
        lemma_clean_run_sends_all(0, message_count, verdicts.drop_first());
    } else {
        lemma_clean_run_sends_all(0, message_count, verdicts);
    }
}

} // verus!
