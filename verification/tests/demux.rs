use std::cell::Cell;
use std::rc::Rc;

use demux::batch::{fan_out, pair_results, send_all, split_batch, Call};
use demux::dispatcher::{Dispatcher, Event};
use demux::rate_limit::{ConfigError, RateLimit};

fn limit(burst: u64, interval_ns: u64) -> RateLimit {
    RateLimit::new(burst, interval_ns).unwrap()
}

#[test]
fn config_rejects_zero_interval() {
    assert_eq!(RateLimit::new(3, 0).unwrap_err(), ConfigError::ZeroRefillInterval);
    let rl = limit(3, 1_000_000);
    assert_eq!(rl.burst, 3);
    assert_eq!(rl.refill_interval_ns, 1_000_000);
}

#[test]
fn fresh_dispatcher_starts_full_and_idle() {
    let d: Dispatcher<u32> = Dispatcher::new(limit(4, 50));
    assert_eq!(d.tokens, 4);
    assert_eq!(d.next_refill_ns, None);
    assert!(d.pending.is_empty());
    assert!(!d.closed);
    assert!(!d.is_done());
}

#[test]
fn burst_absorption_then_waiting() {
    // burst = 2: the first two batches are released immediately, the third
    // call has to wait for a refill.
    let mut d: Dispatcher<u32> = Dispatcher::new(limit(2, 50));
    let b1 = d.step(Event::Arrival(10)).expect("first burst batch");
    assert_eq!(b1, vec![10]);
    assert_eq!(d.tokens, 1);
    let b2 = d.step(Event::Arrival(11)).expect("second burst batch");
    assert_eq!(b2, vec![11]);
    assert_eq!(d.tokens, 0);
    assert_eq!(d.step(Event::Arrival(12)), None);
    assert_eq!(d.pending, vec![12]);
    // the refill both restores the token and releases the waiting call
    let b3 = d.step(Event::Refill).expect("batch after refill");
    assert_eq!(b3, vec![12]);
    assert_eq!(d.tokens, 0);
}

#[test]
fn refill_deadline_is_fixed_until_it_fires() {
    let mut d: Dispatcher<u32> = Dispatcher::new(limit(1, 1_000));
    // full bucket: nothing to schedule
    assert_eq!(d.schedule_refill(500), None);
    d.step(Event::Arrival(1)).expect("burst batch");
    assert_eq!(d.tokens, 0);
    // one refill interval from now
    assert_eq!(d.schedule_refill(700), Some(1_700));
    // later arrivals never push the deadline back
    assert_eq!(d.step(Event::Arrival(2)), None);
    assert_eq!(d.schedule_refill(1_400), Some(1_700));
    // once it fires the deadline is cleared, and the next one starts anew
    let b = d.step(Event::Refill).expect("batch after refill");
    assert_eq!(b, vec![2]);
    assert_eq!(d.next_refill_ns, None);
    assert_eq!(d.schedule_refill(1_700), Some(2_700));
}

#[test]
fn batch_coalescing_under_empty_bucket() {
    // Exhaust the single token, then enqueue K = 4 calls while no token is
    // available: they must come out as one batch of 4, in arrival order.
    let mut d: Dispatcher<u32> = Dispatcher::new(limit(1, 50));
    d.step(Event::Arrival(0)).expect("burst batch");
    assert_eq!(d.tokens, 0);
    for a in [1, 2, 3, 4] {
        assert_eq!(d.step(Event::Arrival(a)), None);
    }
    assert_eq!(d.pending, vec![1, 2, 3, 4]);
    let batch = d.step(Event::Refill).expect("coalesced batch");
    assert_eq!(batch, vec![1, 2, 3, 4]);
    assert!(d.pending.is_empty());
}

#[test]
fn dispatcher_drains_after_close() {
    let mut d: Dispatcher<u32> = Dispatcher::new(limit(1, 50));
    d.step(Event::Arrival(7)).expect("burst batch");
    assert_eq!(d.step(Event::Arrival(8)), None);
    assert_eq!(d.step(Event::Closed), None);
    assert!(d.closed);
    // closed but not drained: the loop must keep going
    assert!(!d.is_done());
    let b = d.step(Event::Refill).expect("batch drained after close");
    assert_eq!(b, vec![8]);
    assert!(d.is_done());
}

#[test]
fn zero_burst_never_releases() {
    let mut d: Dispatcher<u32> = Dispatcher::new(limit(0, 50));
    assert_eq!(d.step(Event::Arrival(1)), None);
    // with burst = 0 even a refill is capped at zero tokens
    assert_eq!(d.step(Event::Refill), None);
    assert_eq!(d.pending, vec![1]);
}

#[test]
fn split_batch_takes_first_handler_only() {
    let calls = vec![
        Call { arg: 1u32, out: "a", handler: 100i64 },
        Call { arg: 2, out: "b", handler: 200 },
        Call { arg: 3, out: "c", handler: 300 },
    ];
    let (args, outs, handler) = split_batch(calls);
    assert_eq!(args, vec![1, 2, 3]);
    assert_eq!(outs, vec!["a", "b", "c"]);
    assert_eq!(handler, 100);
}

#[test]
fn split_batch_of_one() {
    let calls = vec![Call { arg: 9u32, out: "z", handler: 5i64 }];
    let (args, outs, handler) = split_batch(calls);
    assert_eq!(args, vec![9]);
    assert_eq!(outs, vec!["z"]);
    assert_eq!(handler, 5);
}

#[test]
fn handler_exclusivity_counters_sum_to_one() {
    // M = 3 concurrent calls supply distinct handlers; exactly one of them
    // runs, and it is the first enqueued.
    let counters: Vec<Rc<Cell<u32>>> = (0..3).map(|_| Rc::new(Cell::new(0))).collect();
    let mk = |c: Rc<Cell<u32>>| {
        Box::new(move |args: Vec<u32>| -> Vec<u32> {
            c.set(c.get() + 1);
            args
        }) as Box<dyn FnOnce(Vec<u32>) -> Vec<u32>>
    };
    let calls: Vec<Call<u32, (), _>> = counters
        .iter()
        .enumerate()
        .map(|(i, c)| Call { arg: i as u32, out: (), handler: mk(c.clone()) })
        .collect();
    let (args, _outs, handler) = split_batch(calls);
    let _ = handler(args);
    let total: u32 = counters.iter().map(|c| c.get()).sum();
    assert_eq!(total, 1);
    assert_eq!(counters[0].get(), 1);
}

#[test]
fn pair_results_pairs_by_index() {
    let pairs = pair_results(vec![10u32, 20, 30], vec!["x", "y", "z"]).unwrap();
    assert_eq!(pairs, vec![(10, "x"), (20, "y"), (30, "z")]);
    // N = 0 is a batch too
    let empty = pair_results(Vec::<u32>::new(), Vec::<&str>::new()).unwrap();
    assert!(empty.is_empty());
}

#[test]
fn length_mismatch_is_reported_exactly() {
    let err = pair_results(vec![1u32, 2], vec!["only"]).unwrap_err();
    assert_eq!(err.expected, 1);
    assert_eq!(err.actual, 2);
}

#[test]
fn fan_out_delivers_each_result_to_its_caller() {
    let mut senders = Vec::new();
    let mut receivers = Vec::new();
    for _ in 0..3 {
        let (tx, rx) = tokio::sync::oneshot::channel::<u32>();
        senders.push(tx);
        receivers.push(rx);
    }
    let n = fan_out(vec![5u32, 6, 7], senders).unwrap();
    assert_eq!(n, 3);
    let got: Vec<u32> = receivers.into_iter().map(|mut rx| rx.try_recv().unwrap()).collect();
    assert_eq!(got, vec![5, 6, 7]);
}

#[test]
fn fan_out_mismatch_delivers_nothing() {
    let (tx1, mut rx1) = tokio::sync::oneshot::channel::<u32>();
    let (tx2, mut rx2) = tokio::sync::oneshot::channel::<u32>();
    let err = fan_out(vec![5u32], vec![tx1, tx2]).unwrap_err();
    assert_eq!(err.expected, 2);
    assert_eq!(err.actual, 1);
    assert!(rx1.try_recv().is_err());
    assert!(rx2.try_recv().is_err());
}

#[test]
fn abandoned_caller_does_not_disturb_the_rest() {
    let (tx1, mut rx1) = tokio::sync::oneshot::channel::<u32>();
    let (tx2, rx2) = tokio::sync::oneshot::channel::<u32>();
    let (tx3, mut rx3) = tokio::sync::oneshot::channel::<u32>();
    // the middle caller abandons its wait before the batch completes
    drop(rx2);
    let n = fan_out(vec![1u32, 2, 3], vec![tx1, tx2, tx3]).unwrap();
    assert_eq!(n, 3);
    assert_eq!(rx1.try_recv().unwrap(), 1);
    assert_eq!(rx3.try_recv().unwrap(), 3);
}

#[test]
fn send_all_attempts_every_delivery() {
    let (tx1, rx1) = tokio::sync::oneshot::channel::<u32>();
    let (tx2, _rx2) = tokio::sync::oneshot::channel::<u32>();
    drop(rx1);
    assert_eq!(send_all(vec![(1, tx1), (2, tx2)]), 2);
}

#[test]
fn end_to_end_single_batch_doubles() {
    // rate limit {burst = 1, qps = 1000}, i.e. a refill every ~1 ms: five
    // calls with arguments 0..4 pending while no token is available drain as
    // a single batch once the token arrives; the doubling handler runs once
    // and caller i receives 2 * i.
    let mut d = Dispatcher::new(limit(1, 1_000_000));
    let mut receivers = Vec::new();
    // exhaust the startup token so that all five calls coalesce
    let (tx0, _rx0) = tokio::sync::oneshot::channel::<u64>();
    d.step(Event::Arrival(Call { arg: 0u64, out: tx0, handler: 0u8 }))
        .expect("startup token releases a batch");
    let mut pending_batch = None;
    for i in 0..5u64 {
        let (tx, rx) = tokio::sync::oneshot::channel::<u64>();
        receivers.push(rx);
        pending_batch = d.step(Event::Arrival(Call { arg: i, out: tx, handler: 0u8 }));
        assert!(pending_batch.is_none(), "no token, so nothing may release yet");
    }
    drop(pending_batch);
    let batch = d.step(Event::Refill).expect("the refill releases everything");
    assert_eq!(batch.len(), 5);
    let (args, outs, _handler) = split_batch(batch);
    assert_eq!(args, vec![0, 1, 2, 3, 4]);
    // one handler invocation over the whole batch
    let results: Vec<u64> = args.iter().map(|a| a * 2).collect();
    let n = fan_out(results, outs).unwrap();
    assert_eq!(n, 5);
    for (i, mut rx) in receivers.into_iter().enumerate() {
        assert_eq!(rx.try_recv().unwrap(), 2 * i as u64);
    }
}
