use vstd::prelude::*;

use crate::clock::read_clock;

verus! {

/// The persisted record: one unsigned 64-bit count.
#[derive(Clone, Copy, Debug, PartialEq, Eq, Structural)]
pub struct Counter {
    pub count: u64,
}

/// What one increment reports: the new count and the clock reading taken
/// when it was emitted.
#[derive(Clone, Copy, Debug, PartialEq, Eq, Structural)]
pub struct CounterEvent {
    pub counter: u64,
    pub timestamp: i64,
}

/// Why an `initialize` call failed. A failed call changes nothing.
#[derive(Clone, Copy, Debug, PartialEq, Eq, Structural)]
pub enum CounterError {
    AuthorizationError,
    AllocationError,
    ArithmeticOverflowError,
    ClockUnavailableError,
}

/// Adds one to a count, failing instead of wrapping at `u64::MAX`.
pub fn increment(count: u64) -> (r: Result<u64, CounterError>)
    ensures
        count < u64::MAX ==> r == Ok::<u64, CounterError>((count + 1) as u64),
        count == u64::MAX ==> r == Err::<u64, CounterError>(CounterError::ArithmeticOverflowError),
{
    match count.checked_add(1) {
        Some(n) => Ok(n),
        None => Err(CounterError::ArithmeticOverflowError),
    }
}

/// The caller of an `initialize` call, as the runtime reports it.
#[derive(Clone, Copy, Debug, PartialEq, Eq, Structural)]
pub struct Signer {
    /// The caller signed the request.
    pub authorized: bool,
    /// Creating the record, were it absent, would succeed: the caller can
    /// pay for it and its identifier is free.
    pub funds_allocation: bool,
}

/// The accounts of one `initialize` call: its caller, and the counter record
/// at the identifier derived from the label `"counter"`, `None` while that
/// record does not exist.
#[derive(Clone, Copy, Debug, PartialEq, Eq, Structural)]
pub struct Initialize {
    pub signer: Signer,
    pub counter: Option<Counter>,
}

/// The count that a call starts from: that of the record, or zero for a
/// record that the call creates.
pub open spec fn start_count(record: Option<Counter>) -> int {
    match record {
        Some(c) => c.count as int,
        None => 0,
    }
}

/// The outcome of one call made by `signer` on `record`, given the two clock
/// readings (`None`: the clock could not be read). On success: the final
/// count and the two events, in the order they are emitted.
///
/// The checks come in the order the call makes them: the signature, the
/// creation of an absent record, then for each increment the overflow check
/// before the clock reading that its event carries.
pub open spec fn initialize_outcome(
    signer: Signer,
    record: Option<Counter>,
    first_timestamp: Option<i64>,
    second_timestamp: Option<i64>,
) -> Result<(u64, Seq<CounterEvent>), CounterError> {
    let c = start_count(record);
    if !signer.authorized {
        Err(CounterError::AuthorizationError)
    } else if record is None && !signer.funds_allocation {
        Err(CounterError::AllocationError)
    } else if c + 1 > u64::MAX {
        Err(CounterError::ArithmeticOverflowError)
    } else if first_timestamp is None {
        Err(CounterError::ClockUnavailableError)
    } else if c + 2 > u64::MAX {
        Err(CounterError::ArithmeticOverflowError)
    } else if second_timestamp is None {
        Err(CounterError::ClockUnavailableError)
    } else {
        Ok(
            (
                (c + 2) as u64,
                seq![
                    CounterEvent { counter: (c + 1) as u64, timestamp: first_timestamp->Some_0 },
                    CounterEvent { counter: (c + 2) as u64, timestamp: second_timestamp->Some_0 },
                ],
            ),
        )
    }
}

/// Whether the call creates the record: it was absent and the call succeeds.
pub open spec fn allocates(
    signer: Signer,
    record: Option<Counter>,
    first_timestamp: Option<i64>,
    second_timestamp: Option<i64>,
) -> bool {
    record is None && initialize_outcome(signer, record, first_timestamp, second_timestamp) is Ok
}

/// Runs one call with the given clock readings: checks the signer, creates
/// the record if it is absent, then increments the count twice, producing an
/// event after each increment. On success `ctx.counter` holds the new count
/// and the events are returned in order; on failure `ctx` is left as it was.
pub fn initialize_at(
    ctx: &mut Initialize,
    first_timestamp: Option<i64>,
    second_timestamp: Option<i64>,
) -> (r: Result<Vec<CounterEvent>, CounterError>)
    ensures
        final(ctx).signer == old(ctx).signer,
        match initialize_outcome(old(ctx).signer, old(ctx).counter, first_timestamp, second_timestamp) {
            Ok((count, events)) => r is Ok && r->Ok_0@ == events
                && final(ctx).counter == Some(Counter { count }),
            Err(e) => r == Err::<Vec<CounterEvent>, CounterError>(e) && *final(ctx) == *old(ctx),
        },
        r is Ok ==> r->Ok_0@.len() == 2 && r->Ok_0@[1].counter == r->Ok_0@[0].counter + 1,
{
    if !ctx.signer.authorized {
        return Err(CounterError::AuthorizationError);
    }
    let record = match ctx.counter {
        Some(c) => c,
        None => {
            if !ctx.signer.funds_allocation {
                return Err(CounterError::AllocationError);
            }
            Counter { count: 0 }
        },
    };
    let first = increment(record.count)?;
    let first_event = match first_timestamp {
        Some(t) => CounterEvent { counter: first, timestamp: t },
        None => return Err(CounterError::ClockUnavailableError),
    };
    let second = increment(first)?;
    let second_event = match second_timestamp {
        Some(t) => CounterEvent { counter: second, timestamp: t },
        None => return Err(CounterError::ClockUnavailableError),
    };
    ctx.counter = Some(Counter { count: second });
    let mut events: Vec<CounterEvent> = Vec::new();
    events.push(first_event);
    events.push(second_event);
    proof {
        assert(events@ =~= seq![first_event, second_event]);
    }
    Ok(events)
}

/// Runs one call against the runtime's clock, which is read once for each
/// event. Whatever the readings, the result and the new accounts are those
/// of `initialize_at` on some pair of readings; where the signer, the
/// record and the count allow the call, the clock alone decides between
/// success and `ClockUnavailableError`.
pub fn initialize(ctx: &mut Initialize) -> (r: Result<Vec<CounterEvent>, CounterError>)
    ensures
        final(ctx).signer == old(ctx).signer,
        exists|t1: Option<i64>, t2: Option<i64>|
            match #[trigger] initialize_outcome(old(ctx).signer, old(ctx).counter, t1, t2) {
                Ok((count, events)) => r is Ok && r->Ok_0@ == events
                    && final(ctx).counter == Some(Counter { count }),
                Err(e) => r == Err::<Vec<CounterEvent>, CounterError>(e) && *final(ctx) == *old(ctx),
            },
        r is Ok ==> r->Ok_0@.len() == 2 && r->Ok_0@[1].counter == r->Ok_0@[0].counter + 1,
        !old(ctx).signer.authorized ==> r == Err::<Vec<CounterEvent>, CounterError>(
            CounterError::AuthorizationError,
        ),
        old(ctx).signer.authorized && old(ctx).counter is None && !old(ctx).signer.funds_allocation
            ==> r == Err::<Vec<CounterEvent>, CounterError>(CounterError::AllocationError),
        start_count(old(ctx).counter) == u64::MAX && old(ctx).signer.authorized
            && old(ctx).counter is Some ==> r == Err::<Vec<CounterEvent>, CounterError>(
            CounterError::ArithmeticOverflowError,
        ),
        old(ctx).signer.authorized && (old(ctx).counter is Some || old(ctx).signer.funds_allocation)
            && start_count(old(ctx).counter) + 2 <= u64::MAX ==> r is Ok || r == Err::<
            Vec<CounterEvent>,
            CounterError,
        >(CounterError::ClockUnavailableError),
{
    let first_timestamp = read_clock();
    let second_timestamp = read_clock();
    initialize_at(ctx, first_timestamp, second_timestamp)
}

} // verus!
