//! The consumer's state machine: timing, acknowledgement and termination.
//!
//! A consumer optionally waits for a broadcast `"start"` signal on a control
//! channel, then reads the data channel one delivery at a time. Each data
//! payload costs the configured workload delay, yields exactly one sample
//! record and exactly one acknowledgement. A `"start"` sentinel arriving on
//! the data channel restarts the window: sample numbering and the run clock
//! both reset to zero. The `"done"` sentinel ends the run: it is never
//! recorded as a sample and never acknowledged — the terminal transition
//! preempts both — and the recorded `processed` count is the number of data
//! messages sampled before it. A delivery stream that ends without `"done"`
//! is an abnormal termination, kept distinct from a normal one.
//!
//! The machine is pure: the surrounding process decodes each delivery, feeds
//! it in as an event, and performs whatever the returned effects ask of it
//! (sleep for the workload, emit the sample, acknowledge, reset the clock).

use vstd::prelude::*;

use crate::envelope::Envelope;

verus! {

/// One record per processed data message: its position in the window, the
/// elapsed time on the run clock when it was handled, and its payload length.
#[derive(Clone, Copy, PartialEq, Eq, Debug)]
pub struct Sample {
    pub index: u64,
    pub elapsed_micros: u64,
    pub payload_len: usize,
}

/// The consumer's protocol state.
#[derive(Clone, Copy, PartialEq, Eq, Debug)]
pub enum ConsumerState {
    /// Waiting for the broadcast `"start"` signal on the control channel.
    AwaitingStart,
    /// Reading the data channel; `next_index` numbers the next sample.
    Consuming { next_index: u64 },
    /// The run is over. `normal` tells a `"done"` sentinel from an abnormal
    /// end of the stream; `processed` counts the samples of the last window.
    Terminated { normal: bool, processed: u64 },
}

/// One observation fed to the state machine by the surrounding process.
#[derive(Clone, Copy, PartialEq, Eq, Debug)]
pub enum ConsumerEvent {
    /// The `"start"` signal arrived on the control channel.
    ControlStart,
    /// A payload arrived on the data channel, already decoded, together with
    /// the elapsed time on the run clock at the moment of delivery.
    Delivery { envelope: Envelope, elapsed_micros: u64 },
    /// The stream ended without a delivery (cancellation or connection loss).
    StreamClosed,
}

/// Everything the surrounding process must do after one step, in this order:
/// sleep for the configured workload delay (if `apply_workload`), emit the
/// sample (if any), acknowledge the delivery (if `ack`), restart the run
/// clock (if `reset_clock`), then continue from `state`.
#[derive(Clone, Copy, PartialEq, Eq, Debug)]
pub struct StepEffects {
    pub state: ConsumerState,
    pub sample: Option<Sample>,
    pub ack: bool,
    pub apply_workload: bool,
    pub reset_clock: bool,
}

/// Which events can reach the machine in each state: control signals only
/// while awaiting the start, deliveries only while consuming, and nothing
/// once terminated. The index bound keeps sample numbering exact.
pub open spec fn event_allowed(s: ConsumerState, e: ConsumerEvent) -> bool {
    match s {
        ConsumerState::AwaitingStart => e is ControlStart || e is StreamClosed,
        ConsumerState::Consuming { next_index } => next_index < u64::MAX && (e is Delivery
            || e is StreamClosed),
        ConsumerState::Terminated { .. } => false,
    }
}

/// The transition function of the consumer.
pub open spec fn step_spec(s: ConsumerState, e: ConsumerEvent) -> StepEffects {
    match (s, e) {
        (ConsumerState::AwaitingStart, ConsumerEvent::ControlStart) => StepEffects {
            state: ConsumerState::Consuming { next_index: 0 },
            sample: None,
            ack: false,
            apply_workload: false,
            reset_clock: true,
        },
        (ConsumerState::AwaitingStart, _) => StepEffects {
            state: ConsumerState::Terminated { normal: false, processed: 0 },
            sample: None,
            ack: false,
            apply_workload: false,
            reset_clock: false,
        },
        (
            ConsumerState::Consuming { next_index },
            ConsumerEvent::Delivery { envelope, elapsed_micros },
        ) => match envelope {
            Envelope::Data { payload_len } => StepEffects {
                state: ConsumerState::Consuming { next_index: (next_index + 1) as u64 },
                sample: Some(Sample { index: next_index, elapsed_micros, payload_len }),
                ack: true,
                apply_workload: true,
                reset_clock: false,
            },
            Envelope::Start => StepEffects {
                state: ConsumerState::Consuming { next_index: 0 },
                sample: None,
                ack: true,
                apply_workload: false,
                reset_clock: true,
            },
            Envelope::Done => StepEffects {
                state: ConsumerState::Terminated { normal: true, processed: next_index },
                sample: None,
                ack: false,
                apply_workload: false,
                reset_clock: false,
            },
        },
        (ConsumerState::Consuming { next_index }, _) => StepEffects {
            state: ConsumerState::Terminated { normal: false, processed: next_index },
            sample: None,
            ack: false,
            apply_workload: false,
            reset_clock: false,
        },
        (ConsumerState::Terminated { .. }, _) => StepEffects {
            state: s,
            sample: None,
            ack: false,
            apply_workload: false,
            reset_clock: false,
        },
    }
}

impl ConsumerState {
    /// The state a consumer starts in, given whether a broadcast start signal
    /// must be awaited first.
    pub fn initial(use_control_channel: bool) -> (s: ConsumerState)
        ensures
            s == if use_control_channel {
                ConsumerState::AwaitingStart
            } else {
                ConsumerState::Consuming { next_index: 0u64 }
            },
    {
        if use_control_channel {
            ConsumerState::AwaitingStart
        } else {
            ConsumerState::Consuming { next_index: 0 }
        }
    }

    /// Whether the run is over.
    pub fn is_terminated(self) -> (b: bool)
        ensures
            b == (self is Terminated),
    {
        match self {
            ConsumerState::Terminated { .. } => true,
            _ => false,
        }
    }
}

/// One step of the consumer.
pub fn step(s: ConsumerState, e: ConsumerEvent) -> (r: StepEffects)
    requires
        event_allowed(s, e),
    ensures
        r == step_spec(s, e),
{
    match (s, e) {
        (ConsumerState::AwaitingStart, ConsumerEvent::ControlStart) => StepEffects {
            state: ConsumerState::Consuming { next_index: 0 },
            sample: None,
            ack: false,
            apply_workload: false,
            reset_clock: true,
        },
        (ConsumerState::AwaitingStart, _) => StepEffects {
            state: ConsumerState::Terminated { normal: false, processed: 0 },
            sample: None,
            ack: false,
            apply_workload: false,
            reset_clock: false,
        },
        (
            ConsumerState::Consuming { next_index },
            ConsumerEvent::Delivery { envelope, elapsed_micros },
        ) => match envelope {
            Envelope::Data { payload_len } => StepEffects {
                state: ConsumerState::Consuming { next_index: next_index + 1 },
                sample: Some(Sample { index: next_index, elapsed_micros, payload_len }),
                ack: true,
                apply_workload: true,
                reset_clock: false,
            },
            Envelope::Start => StepEffects {
                state: ConsumerState::Consuming { next_index: 0 },
                sample: None,
                ack: true,
                apply_workload: false,
                reset_clock: true,
            },
            Envelope::Done => StepEffects {
                state: ConsumerState::Terminated { normal: true, processed: next_index },
                sample: None,
                ack: false,
                apply_workload: false,
                reset_clock: false,
            },
        },
        (ConsumerState::Consuming { next_index }, _) => StepEffects {
            state: ConsumerState::Terminated { normal: false, processed: next_index },
            sample: None,
            ack: false,
            apply_workload: false,
            reset_clock: false,
        },
        (ConsumerState::Terminated { .. }, _) => StepEffects {
            state: s,
            sample: None,
            ack: false,
            apply_workload: false,
            reset_clock: false,
        },
    }
}

/// Whether a whole event sequence respects `event_allowed` step by step, from
/// the given state. Once the machine terminates, later events are ignored and
/// need not be constrained.
pub open spec fn events_wf(s: ConsumerState, events: Seq<ConsumerEvent>) -> bool
    decreases events.len(),
{
    events.len() == 0 || s is Terminated || {
        &&& event_allowed(s, events[0])
        &&& events_wf(step_spec(s, events[0]).state, events.drop_first())
    }
}

/// The state after feeding the machine a whole event sequence, stopping at
/// termination.
pub open spec fn run_state(s: ConsumerState, events: Seq<ConsumerEvent>) -> ConsumerState
    decreases events.len(),
{
    if events.len() == 0 || s is Terminated {
        s
    } else {
        run_state(step_spec(s, events[0]).state, events.drop_first())
    }
}

/// The samples a run emits, in order.
pub open spec fn run_samples(s: ConsumerState, events: Seq<ConsumerEvent>) -> Seq<Sample>
    decreases events.len(),
{
    if events.len() == 0 || s is Terminated {
        Seq::empty()
    } else {
        let eff = step_spec(s, events[0]);
        match eff.sample {
            Some(smp) => seq![smp] + run_samples(eff.state, events.drop_first()),
            None => run_samples(eff.state, events.drop_first()),
        }
    }
}

/// How many acknowledgements a run issues.
pub open spec fn run_acks(s: ConsumerState, events: Seq<ConsumerEvent>) -> nat
    decreases events.len(),
{
    if events.len() == 0 || s is Terminated {
        0
    } else {
        let eff = step_spec(s, events[0]);
        (if eff.ack {
            1nat
        } else {
            0nat
        }) + run_acks(eff.state, events.drop_first())
    }
}

/// What a driven run produced: the final state, the emitted samples in order,
/// and how many acknowledgements were issued.
pub struct RunOutcome {
    pub state: ConsumerState,
    pub samples: Vec<Sample>,
    pub acks: usize,
}

/// Feed a sequence of events to the machine, stopping at termination. This is
/// the loop the consuming process runs, with the broker's deliveries in place
/// of the event vector; it is also how a test drives the machine without a
/// broker.
pub fn run_consumer(s: ConsumerState, events: &Vec<ConsumerEvent>) -> (r: RunOutcome)
    requires
        events_wf(s, events@),
    ensures
        r.state == run_state(s, events@),
        r.samples@ == run_samples(s, events@),
        r.acks == run_acks(s, events@),
{
    let mut cur = s;
    let mut samples: Vec<Sample> = Vec::new();
    let mut acks: usize = 0;
    let mut i: usize = 0;
    proof {
        assert(events@.skip(0) =~= events@);
    }
    while i < events.len() && !cur.is_terminated()
        invariant
            i <= events@.len(),
            acks <= i,
            events_wf(cur, events@.skip(i as int)),
            run_state(s, events@) == run_state(cur, events@.skip(i as int)),
            run_samples(s, events@) == samples@ + run_samples(cur, events@.skip(i as int)),
            run_acks(s, events@) == acks + run_acks(cur, events@.skip(i as int)),
        decreases events@.len() - i,
    {
        let e = events[i];
        proof {
            assert(events@.skip(i as int)[0] == events@[i as int]);
            assert(events@.skip(i as int).drop_first() =~= events@.skip(i as int + 1));
        }
        let eff = step(cur, e);
        if eff.ack {
            acks += 1;
        }
        match eff.sample {
            Some(smp) => {
                samples.push(smp);
            },
            None => {},
        }
        cur = eff.state;
        i += 1;
    }
    proof {
        assert(run_samples(cur, events@.skip(i as int)) =~= Seq::<Sample>::empty());
        assert(run_samples(s, events@) =~= samples@);
    }
    RunOutcome { state: cur, samples, acks }
}

/// Every event is a delivery of a data payload.
pub open spec fn all_data_deliveries(events: Seq<ConsumerEvent>) -> bool {
    forall|i: int|
        0 <= i < events.len() ==> (#[trigger] events[i]) matches ConsumerEvent::Delivery {
            envelope: Envelope::Data { .. },
            ..
        }
}

/// An acknowledgement is issued on a step exactly when the event is a data or
/// `"start"` delivery, and then exactly one: the machine never acknowledges
/// the same delivery twice, and neither the `"done"` sentinel nor a stream
/// closure is ever acknowledged.
pub proof fn lemma_one_ack_per_delivery(s: ConsumerState, e: ConsumerEvent)
    requires
        event_allowed(s, e),
    ensures
        step_spec(s, e).ack <==> ({
            &&& s is Consuming
            &&& e matches ConsumerEvent::Delivery { envelope, .. } && !(envelope is Done)
        }),
{
}

/// The `"done"` sentinel is never processed as a data sample: it moves the
/// machine to a normal termination before any sample, acknowledgement or
/// workload for itself, and the recorded count is the number of data messages
/// sampled before it.
pub proof fn lemma_done_preempts_processing(next_index: u64, elapsed_micros: u64)
    requires
        next_index < u64::MAX,
    ensures
        ({
            let eff = step_spec(
                ConsumerState::Consuming { next_index },
                ConsumerEvent::Delivery { envelope: Envelope::Done, elapsed_micros },
            );
            &&& eff.state == (ConsumerState::Terminated { normal: true, processed: next_index })
            &&& eff.sample is None
            &&& !eff.ack
            &&& !eff.apply_workload
        }),
{
}

/// A `"start"` sentinel on the data channel restarts the window: sample
/// numbering returns to zero and the run clock is reset, with no sample for
/// the sentinel itself.
pub proof fn lemma_start_resets_window(next_index: u64, elapsed_micros: u64)
    requires
        next_index < u64::MAX,
    ensures
        ({
            let eff = step_spec(
                ConsumerState::Consuming { next_index },
                ConsumerEvent::Delivery { envelope: Envelope::Start, elapsed_micros },
            );
            &&& eff.state == (ConsumerState::Consuming { next_index: 0u64 })
            &&& eff.reset_clock
            &&& eff.sample is None
            &&& eff.ack
        }),
{
}

/// A consumer at index `k` that sees only data deliveries, closed by the
/// `"done"` sentinel, records exactly one sample per data message — indices
/// increasing by exactly one from `k`, each carrying the delivery's elapsed
/// time and payload length — acknowledges each data message exactly once, and
/// terminates normally having processed exactly `k + data.len()` messages,
/// with nothing recorded or acknowledged for the sentinel.
pub proof fn lemma_batch_consumption(k: u64, data: Seq<ConsumerEvent>, done_elapsed: u64)
    requires
        all_data_deliveries(data),
        k + data.len() < u64::MAX,
    ensures
        ({
            let events = data + seq![
                ConsumerEvent::Delivery { envelope: Envelope::Done, elapsed_micros: done_elapsed },
            ];
            let s0 = ConsumerState::Consuming { next_index: k };
            &&& events_wf(s0, events)
            &&& run_state(s0, events) == (ConsumerState::Terminated {
                normal: true,
                processed: (k + data.len()) as u64,
            })
            &&& run_samples(s0, events).len() == data.len()
            &&& (forall|i: int|
                0 <= i < data.len() ==> (#[trigger] run_samples(s0, events)[i]) == (Sample {
                    index: (k + i) as u64,
                    elapsed_micros: data[i]->elapsed_micros,
                    payload_len: data[i]->envelope->payload_len,
                }))
            &&& run_acks(s0, events) == data.len()
        }),
    decreases data.len(),
{
    let done_ev = ConsumerEvent::Delivery { envelope: Envelope::Done, elapsed_micros: done_elapsed };
    let events = data + seq![done_ev];
    let s0 = ConsumerState::Consuming { next_index: k };
    assert(events.len() == data.len() + 1);
    if data.len() == 0 {
        assert(events[0] == done_ev);
        let eff = step_spec(s0, events[0]);
        assert(eff.state == (ConsumerState::Terminated { normal: true, processed: k }));
        let tail = events.drop_first();
        assert(tail.len() == 0);
        assert(events_wf(eff.state, tail));
        assert(run_state(eff.state, tail) == eff.state);
        assert(run_samples(eff.state, tail) =~= Seq::<Sample>::empty());
        assert(run_acks(eff.state, tail) == 0);
        assert(run_state(s0, events) == eff.state);
        assert(run_samples(s0, events) =~= Seq::<Sample>::empty());
        assert(run_acks(s0, events) == 0);
    } else {
        assert(events[0] == data[0]);
        assert(data[0] matches ConsumerEvent::Delivery { envelope: Envelope::Data { .. }, .. });
        let eff = step_spec(s0, events[0]);
        let k1 = (k + 1) as u64;
        let rest = data.drop_first();
        assert(forall|i: int|
            0 <= i < rest.len() ==> (#[trigger] rest[i]) == data[i + 1]);
        lemma_batch_consumption(k1, rest, done_elapsed);
        let events1 = rest + seq![done_ev];
        assert(events.drop_first() =~= events1);
        let s1 = ConsumerState::Consuming { next_index: k1 };
        assert(eff.state == s1);
        assert(eff.ack);
        let smp0 = Sample {
            index: k,
            elapsed_micros: data[0]->elapsed_micros,
            payload_len: data[0]->envelope->payload_len,
        };
        assert(eff.sample == Some(smp0));
        assert(run_samples(s0, events) == seq![smp0] + run_samples(s1, events1));
        assert(run_samples(s0, events).len() == data.len());
        assert forall|i: int| 0 <= i < data.len() implies (#[trigger] run_samples(s0, events)[i])
            == (Sample {
            index: (k + i) as u64,
            elapsed_micros: data[i]->elapsed_micros,
            payload_len: data[i]->envelope->payload_len,
        }) by {
            if i == 0 {
                assert(run_samples(s0, events)[0] == smp0);
            } else {
                assert(run_samples(s0, events)[i] == run_samples(s1, events1)[i - 1]);
                assert(rest[i - 1] == data[i]);
            }
        }
        assert(run_acks(s0, events) == 1 + run_acks(s1, events1));
    }
}

} // verus!
