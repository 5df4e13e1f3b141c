use prefetch_bench::consumer::ConsumerEvent;
use prefetch_bench::consumer::ConsumerState;
use prefetch_bench::consumer::Sample;
use prefetch_bench::consumer::run_consumer;
use prefetch_bench::consumer::step;
use prefetch_bench::envelope::Envelope;
use prefetch_bench::producer::ProducerAction;
use prefetch_bench::producer::ProducerPhase;
use prefetch_bench::producer::next_action;
use prefetch_bench::producer::run_producer;
use prefetch_bench::retry::RetryDecision;
use prefetch_bench::retry::connect_decision;
use prefetch_bench::retry::total_backoff_millis;

fn data(payload_len: usize, elapsed_micros: u64) -> ConsumerEvent {
    ConsumerEvent::Delivery {
        envelope: Envelope::Data { payload_len },
        elapsed_micros,
    }
}

fn done(elapsed_micros: u64) -> ConsumerEvent {
    ConsumerEvent::Delivery {
        envelope: Envelope::Done,
        elapsed_micros,
    }
}

fn start(elapsed_micros: u64) -> ConsumerEvent {
    ConsumerEvent::Delivery {
        envelope: Envelope::Start,
        elapsed_micros,
    }
}

#[test]
fn five_messages_prefetch_one_no_workload() {
    // message_count = 5, prefetch_limit = 1, workload_delay = 0: exactly five
    // samples with strictly increasing elapsed times, then a clean end.
    let events = vec![
        data(64, 10),
        data(64, 25),
        data(64, 40),
        data(64, 55),
        data(64, 70),
        done(80),
    ];
    let outcome = run_consumer(ConsumerState::Consuming { next_index: 0 }, &events);
    assert_eq!(outcome.samples.len(), 5);
    for (i, s) in outcome.samples.iter().enumerate() {
        assert_eq!(s.index, i as u64);
        assert_eq!(s.payload_len, 64);
        if i > 0 {
            assert!(outcome.samples[i - 1].elapsed_micros < s.elapsed_micros);
        }
    }
    assert_eq!(
        outcome.state,
        ConsumerState::Terminated {
            normal: true,
            processed: 5
        }
    );
    assert_eq!(outcome.acks, 5);
}

#[test]
fn done_is_never_a_sample() {
    // The sentinel alone: no sample, no ack, a normal end with zero processed.
    let events = vec![done(5)];
    let outcome = run_consumer(ConsumerState::Consuming { next_index: 0 }, &events);
    assert_eq!(outcome.samples.len(), 0);
    assert_eq!(outcome.acks, 0);
    assert_eq!(
        outcome.state,
        ConsumerState::Terminated {
            normal: true,
            processed: 0
        }
    );
}

#[test]
fn done_preempts_its_own_ack_and_sample() {
    let eff = step(ConsumerState::Consuming { next_index: 3 }, done(99));
    assert_eq!(eff.sample, None);
    assert!(!eff.ack);
    assert!(!eff.apply_workload);
    assert_eq!(
        eff.state,
        ConsumerState::Terminated {
            normal: true,
            processed: 3
        }
    );
}

#[test]
fn events_after_done_are_ignored() {
    // The machine stops at the sentinel: a late delivery changes nothing.
    let events = vec![data(8, 1), done(2), data(8, 3)];
    let outcome = run_consumer(ConsumerState::Consuming { next_index: 0 }, &events);
    assert_eq!(outcome.samples.len(), 1);
    assert_eq!(outcome.acks, 1);
    assert_eq!(
        outcome.state,
        ConsumerState::Terminated {
            normal: true,
            processed: 1
        }
    );
}

#[test]
fn start_on_data_channel_resets_numbering() {
    // Two samples, a window restart, one more sample: indices 0, 1, then 0
    // again, and the restart itself is acknowledged but never sampled.
    let events = vec![data(16, 100), data(16, 200), start(300), data(16, 50), done(60)];
    let outcome = run_consumer(ConsumerState::Consuming { next_index: 0 }, &events);
    assert_eq!(outcome.samples.len(), 3);
    assert_eq!(outcome.samples[0].index, 0);
    assert_eq!(outcome.samples[1].index, 1);
    assert_eq!(outcome.samples[2].index, 0);
    assert_eq!(outcome.acks, 4);
    assert_eq!(
        outcome.state,
        ConsumerState::Terminated {
            normal: true,
            processed: 1
        }
    );
}

#[test]
fn start_step_resets_clock() {
    let eff = step(ConsumerState::Consuming { next_index: 7 }, start(123));
    assert!(eff.reset_clock);
    assert!(eff.ack);
    assert_eq!(eff.sample, None);
    assert_eq!(eff.state, ConsumerState::Consuming { next_index: 0 });
}

#[test]
fn stream_closure_is_abnormal_termination() {
    let events = vec![data(8, 1), data(8, 2), ConsumerEvent::StreamClosed];
    let outcome = run_consumer(ConsumerState::Consuming { next_index: 0 }, &events);
    assert_eq!(outcome.samples.len(), 2);
    assert_eq!(
        outcome.state,
        ConsumerState::Terminated {
            normal: false,
            processed: 2
        }
    );
}

#[test]
fn each_data_delivery_acked_exactly_once() {
    let eff = step(ConsumerState::Consuming { next_index: 7 }, data(32, 1234));
    assert!(eff.ack);
    assert!(eff.apply_workload);
    assert_eq!(
        eff.sample,
        Some(Sample {
            index: 7,
            elapsed_micros: 1234,
            payload_len: 32
        })
    );
    assert_eq!(eff.state, ConsumerState::Consuming { next_index: 8 });
}

#[test]
fn two_consumers_begin_only_on_start_broadcast() {
    // Both wait on the control channel; both begin at index zero only once
    // the broadcast arrives, however far apart they subscribed.
    let early = ConsumerState::initial(true);
    let late = ConsumerState::initial(true);
    assert_eq!(early, ConsumerState::AwaitingStart);
    assert_eq!(late, ConsumerState::AwaitingStart);
    let eff_early = step(early, ConsumerEvent::ControlStart);
    let eff_late = step(late, ConsumerEvent::ControlStart);
    for eff in [eff_early, eff_late] {
        assert_eq!(eff.state, ConsumerState::Consuming { next_index: 0 });
        assert!(eff.reset_clock);
        assert_eq!(eff.sample, None);
    }
    let first_early = step(eff_early.state, data(8, 3));
    let first_late = step(eff_late.state, data(8, 4));
    assert_eq!(first_early.sample.unwrap().index, 0);
    assert_eq!(first_late.sample.unwrap().index, 0);
}

#[test]
fn consumer_without_control_channel_starts_consuming() {
    assert_eq!(
        ConsumerState::initial(false),
        ConsumerState::Consuming { next_index: 0 }
    );
}

#[test]
fn producer_clean_run_sends_all_messages() {
    // Five data messages and the sentinel, every publish accepted.
    let verdicts = vec![true; 6];
    let outcome = run_producer(ProducerPhase::initial(false), 5, &verdicts);
    assert_eq!(outcome.phase, ProducerPhase::Idle);
    assert_eq!(outcome.data_sends, 5);
}

#[test]
fn producer_with_control_channel_broadcasts_first() {
    assert_eq!(ProducerPhase::initial(true), ProducerPhase::Announcing);
    assert_eq!(
        next_action(ProducerPhase::Announcing, 5),
        ProducerAction::BroadcastStart
    );
    let verdicts = vec![true; 7];
    let outcome = run_producer(ProducerPhase::initial(true), 5, &verdicts);
    assert_eq!(outcome.phase, ProducerPhase::Idle);
    assert_eq!(outcome.data_sends, 5);
}

#[test]
fn publish_fault_stops_the_producer() {
    // The third publish fails mid-run: the schedule fails, nothing further is
    // published, whatever verdicts follow.
    let verdicts = vec![true, true, false, true, true, true];
    let outcome = run_producer(ProducerPhase::initial(false), 5, &verdicts);
    assert_eq!(outcome.phase, ProducerPhase::Failed);
    assert_eq!(outcome.data_sends, 2);
    assert_eq!(next_action(ProducerPhase::Failed, 5), ProducerAction::Rest);
}

#[test]
fn producer_schedule_in_order() {
    assert_eq!(
        next_action(ProducerPhase::Streaming { sent: 0 }, 2),
        ProducerAction::PublishData
    );
    assert_eq!(
        next_action(ProducerPhase::Streaming { sent: 2 }, 2),
        ProducerAction::PublishDone
    );
    assert_eq!(next_action(ProducerPhase::Idle, 2), ProducerAction::Rest);
}

#[test]
fn refused_connection_backs_off_fixed_pause() {
    assert_eq!(
        connect_decision(false),
        RetryDecision::Backoff { millis: 250 }
    );
    assert_eq!(connect_decision(true), RetryDecision::Proceed);
}

#[test]
fn three_refusals_cost_three_backoffs() {
    // Refused three times, connected on the fourth: 750 ms of startup delay.
    assert_eq!(total_backoff_millis(3), Some(750));
    assert_eq!(total_backoff_millis(0), Some(0));
    assert_eq!(total_backoff_millis(u64::MAX), None);
}
