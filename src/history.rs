use vstd::prelude::*;

use crate::counter::{
    allocates, initialize_outcome, start_count, Counter, CounterEvent, Signer,
};

verus! {

/// One call as the record sees it: its signer and its two clock readings.
pub type Call = (Signer, Option<i64>, Option<i64>);

/// The record and all events after `calls` are made in order on `record`;
/// `None` where one of them fails.
pub open spec fn run(record: Option<Counter>, calls: Seq<Call>) -> Option<
    (Option<Counter>, Seq<CounterEvent>),
>
    decreases calls.len(),
{
    if calls.len() == 0 {
        Some((record, Seq::empty()))
    } else {
        let (signer, t1, t2) = calls[0];
        match initialize_outcome(signer, record, t1, t2) {
            Ok((count, events)) => match run(Some(Counter { count }), calls.skip(1)) {
                Some((last, rest)) => Some((last, events + rest)),
                None => None,
            },
            Err(_) => None,
        }
    }
}

/// How many of `calls`, made in order on `record`, create it. A failed call
/// leaves the record as it was and the next call sees it unchanged.
pub open spec fn allocation_count(record: Option<Counter>, calls: Seq<Call>) -> nat
    decreases calls.len(),
{
    if calls.len() == 0 {
        0
    } else {
        let (signer, t1, t2) = calls[0];
        let here: nat = if allocates(signer, record, t1, t2) {
            1
        } else {
            0
        };
        match initialize_outcome(signer, record, t1, t2) {
            Ok((count, _)) => here + allocation_count(Some(Counter { count }), calls.skip(1)),
            Err(_) => here + allocation_count(record, calls.skip(1)),
        }
    }
}

/// A run of successful calls advances the count by two per call and emits
/// the values that follow the starting count, one by one.
pub proof fn lemma_run_counts(record: Option<Counter>, calls: Seq<Call>)
    requires
        run(record, calls) is Some,
    ensures
        start_count(run(record, calls)->Some_0.0) == start_count(record) + 2 * calls.len(),
        run(record, calls)->Some_0.1.len() == 2 * calls.len(),
        forall|i: int|
            0 <= i < run(record, calls)->Some_0.1.len() ==> (#[trigger] run(
                record,
                calls,
            )->Some_0.1[i]).counter == start_count(record) + i + 1,
    decreases calls.len(),
{
    if calls.len() > 0 {
        let (signer, t1, t2) = calls[0];
        let count = initialize_outcome(signer, record, t1, t2)->Ok_0.0;
        let events = initialize_outcome(signer, record, t1, t2)->Ok_0.1;
        lemma_run_counts(Some(Counter { count }), calls.skip(1));
        let rest = run(Some(Counter { count }), calls.skip(1))->Some_0.1;
        assert(run(record, calls)->Some_0.1 == events + rest);
    }
}

/// After N successful calls on a fresh identifier the count is 2N.
pub proof fn lemma_fresh_count(calls: Seq<Call>)
    requires
        run(None, calls) is Some,
    ensures
        start_count(run(None, calls)->Some_0.0) == 2 * calls.len(),
        calls.len() > 0 ==> run(None, calls)->Some_0.0 == Some(
            Counter { count: (2 * calls.len()) as u64 },
        ),
{
    lemma_run_counts(None, calls);
}

/// Over the life of a record the emitted counter values strictly increase,
/// so none is ever emitted twice.
pub proof fn lemma_events_strictly_increase(record: Option<Counter>, calls: Seq<Call>)
    requires
        run(record, calls) is Some,
    ensures
        forall|i: int, j: int|
            0 <= i < j < run(record, calls)->Some_0.1.len() ==> (#[trigger] run(
                record,
                calls,
            )->Some_0.1[i]).counter < (#[trigger] run(record, calls)->Some_0.1[j]).counter,
{
    lemma_run_counts(record, calls);
}

/// Once the record exists no call creates it again, whether calls succeed
/// or fail.
pub proof fn lemma_existing_never_allocated(record: Option<Counter>, calls: Seq<Call>)
    requires
        record is Some,
    ensures
        allocation_count(record, calls) == 0,
    decreases calls.len(),
{
    if calls.len() > 0 {
        let (signer, t1, t2) = calls[0];
        match initialize_outcome(signer, record, t1, t2) {
            Ok((count, _)) => lemma_existing_never_allocated(Some(Counter { count }), calls.skip(1)),
            Err(_) => lemma_existing_never_allocated(record, calls.skip(1)),
        }
    }
}

/// Calls made in order on an absent record create it exactly once: the
/// first successful one does, and none after it.
pub proof fn lemma_allocated_once(calls: Seq<Call>)
    requires
        exists|k: int|
            0 <= k < calls.len() && initialize_outcome(
                (#[trigger] calls[k]).0,
                None,
                calls[k].1,
                calls[k].2,
            ) is Ok,
    ensures
        allocation_count(None, calls) == 1,
    decreases calls.len(),
{
    let (signer, t1, t2) = calls[0];
    match initialize_outcome(signer, None, t1, t2) {
        Ok((count, _)) => {
            lemma_existing_never_allocated(Some(Counter { count }), calls.skip(1));
        },
        Err(_) => {
            let k = choose|k: int|
                0 <= k < calls.len() && initialize_outcome(
                    (#[trigger] calls[k]).0,
                    None,
                    calls[k].1,
                    calls[k].2,
                ) is Ok;
            assert(calls.skip(1)[k - 1] == calls[k]);
            lemma_allocated_once(calls.skip(1));
        },
    }
}

} // verus!
