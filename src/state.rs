//! Counters of received and sent letters, shared between requests.

use vstd::prelude::*;
use std::sync::atomic::{AtomicU64, Ordering};

verus! {

/// Why a counter could not be advanced.
#[derive(Debug, Clone, Copy, PartialEq, Eq, Structural)]
pub enum CounterError {
    /// The counter already holds the largest value it can.
    Exhausted,
}

impl CounterError {
    /// The message that describes the error.
    pub open spec fn message_spec(&self) -> Seq<char> {
        match self {
            CounterError::Exhausted => COUNTER_EXHAUSTED@,
        }
    }

    /// A message that describes the error.
    pub fn message(&self) -> (r: String)
        ensures
            r@ == self.message_spec(),
    {
        match self {
            CounterError::Exhausted => String::from_str(COUNTER_EXHAUSTED),
        }
    }
}

/// The message of an exhausted counter.
pub const COUNTER_EXHAUSTED: &'static str = "The letter counter is exhausted";

/// The value that follows `current`, unless `current` is the largest.
pub fn next_count(current: u64) -> (r: Option<u64>)
    ensures
        current < u64::MAX ==> r == Some((current + 1) as u64),
        current == u64::MAX ==> r is None,
{
    if current < u64::MAX {
        Some(current + 1)
    } else {
        None
    }
}

/// Relies on `AtomicU64::fetch_update`, which applies `next_count` to the
/// stored value as one atomic step and returns the value it read: `Ok` when
/// `next_count` gave a successor, which was stored, `Err` when it gave none.
#[verifier::external_body]
fn advance(counter: &AtomicU64) -> (r: Result<u64, u64>)
    ensures
        r matches Ok(previous) ==> previous < u64::MAX,
        r matches Err(previous) ==> previous == u64::MAX,
{
    counter.fetch_update(Ordering::SeqCst, Ordering::SeqCst, next_count)
}

/// The value a counter holds after an increment that read `previous`:
/// `Ok` with the value read and stored, `Err` when nothing could be stored.
pub fn settle(previous: Result<u64, u64>) -> (r: Result<u64, CounterError>)
    ensures
        previous matches Ok(p) ==> (p < u64::MAX ==> r == Ok::<u64, CounterError>((p + 1) as u64)),
        previous matches Ok(p) ==> (p == u64::MAX ==> r == Err::<u64, CounterError>(
            CounterError::Exhausted,
        )),
        previous is Err ==> r == Err::<u64, CounterError>(CounterError::Exhausted),
{
    match previous {
        Ok(p) => match next_count(p) {
            Some(n) => Ok(n),
            None => Err(CounterError::Exhausted),
        },
        Err(_) => Err(CounterError::Exhausted),
    }
}

/// Adds one to `counter` as a single atomic step and returns the new value.
pub fn increment(counter: &AtomicU64) -> (r: Result<u64, CounterError>)
    ensures
        r matches Ok(n) ==> n >= 1,
        r matches Err(e) ==> e == CounterError::Exhausted,
{
    settle(advance(counter))
}

/// The counters of the mail service.
#[derive(Debug)]
pub struct MailState {
    /// How many letters this host has received.
    pub total_received_letters: AtomicU64,
    /// How many letters this host has sent.
    pub total_sent_letters: AtomicU64,
}

impl MailState {
    /// Both counters at zero.
    pub fn new() -> (r: MailState) {
        MailState { total_received_letters: AtomicU64::new(0), total_sent_letters: AtomicU64::new(0) }
    }

    /// Counts one more received letter; the count after it.
    pub fn increment_received(&self) -> (r: Result<u64, CounterError>)
        ensures
            r matches Ok(n) ==> n >= 1,
            r matches Err(e) ==> e == CounterError::Exhausted,
    {
        increment(&self.total_received_letters)
    }

    /// Counts one more sent letter; the count after it.
    pub fn increment_sent(&self) -> (r: Result<u64, CounterError>)
        ensures
            r matches Ok(n) ==> n >= 1,
            r matches Err(e) ==> e == CounterError::Exhausted,
    {
        increment(&self.total_sent_letters)
    }

    /// The number of received letters counted so far.
    pub fn received(&self) -> u64 {
        self.total_received_letters.load(Ordering::SeqCst)
    }

    /// The number of sent letters counted so far.
    pub fn sent(&self) -> u64 {
        self.total_sent_letters.load(Ordering::SeqCst)
    }
}

/// State common to all services.
#[derive(Debug)]
pub struct CommonState {
    /// The number of seconds that this instance has been online.
    pub uptime: AtomicU64,
}

impl CommonState {
    /// An instance that has just come online.
    pub fn new() -> (r: CommonState) {
        CommonState { uptime: AtomicU64::new(0) }
    }
}

} // verus!
