//! The cell that holds the latest reading of the remote metric, and what each
//! cycle of fetching does to it.

use vstd::prelude::*;
use crate::metric::{cgm_block, reading_view, Entry, EntryView};

verus! {

/// Seconds to wait after a cycle before the next one, whatever its outcome.
pub const REFRESH_SECONDS: u64 = 60;

/// How one cycle of fetching the remote metric ended.
#[derive(Debug, PartialEq, Eq)]
pub enum FetchOutcome {
    /// The request did not complete.
    TransportError,
    /// The service answered with a status other than success.
    ErrorStatus,
    /// The body was not a reading.
    MalformedBody,
    /// The body was this reading.
    Reading(Entry),
}

/// Whether the cycle brought no reading.
pub open spec fn is_failure(outcome: FetchOutcome) -> bool {
    !(outcome is Reading)
}

/// What the cell holds after a cycle: the new reading, or what it held before
/// where the cycle brought none.
pub open spec fn after_cycle(held: Option<EntryView>, outcome: FetchOutcome) -> Option<EntryView> {
    match outcome {
        FetchOutcome::Reading(entry) => Some(entry@),
        _ => held,
    }
}

/// Whether an HTTP status reports success.
pub open spec fn is_success(status: u32) -> bool {
    200 <= status < 300
}

/// How a cycle ended, from what the request gave: the status of the answer,
/// or `None` where the request did not complete, and the reading that the
/// body was understood as, or `None` where it was not understood. A request
/// that did not complete is a transport error whatever else is given; an
/// answer without success is an error status whatever its body holds.
pub open spec fn outcome_of(status: Option<u32>, reading: Option<Entry>) -> FetchOutcome {
    match status {
        None => FetchOutcome::TransportError,
        Some(code) => if !is_success(code) {
            FetchOutcome::ErrorStatus
        } else {
            match reading {
                Some(entry) => FetchOutcome::Reading(entry),
                None => FetchOutcome::MalformedBody,
            }
        },
    }
}

/// Says how a cycle ended, from what the request gave.
pub fn judge_fetch(status: Option<u32>, reading: Option<Entry>) -> (r: FetchOutcome)
    ensures
        r == outcome_of(status, reading),
{
    match status {
        None => FetchOutcome::TransportError,
        Some(code) => if code < 200 || code >= 300 {
            FetchOutcome::ErrorStatus
        } else {
            match reading {
                Some(entry) => FetchOutcome::Reading(entry),
                None => FetchOutcome::MalformedBody,
            }
        },
    }
}

/// The header line that carries the shared secret to the metric service.
pub fn api_secret_header(secret: &str) -> (r: String)
    ensures
        r@ == "API-Secret: "@ + secret@,
{
    let mut header = String::from_str("API-Secret: ");
    header.append(secret);
    header
}

/// Holds the most recent reading that was fetched and understood, or nothing
/// as long as none has arrived.
#[derive(Debug)]
pub struct MetricCell {
    latest: Option<Entry>,
}

impl View for MetricCell {
    type V = Option<EntryView>;

    closed spec fn view(&self) -> Option<EntryView> {
        reading_view(self.latest)
    }
}

impl MetricCell {
    /// A cell that holds nothing.
    pub fn new() -> (r: Self)
        ensures
            r@ is None,
    {
        MetricCell { latest: None }
    }

    /// Takes in the outcome of one cycle: a reading replaces what the cell
    /// held, a failure leaves it as it was. Returns the seconds to wait before
    /// the next cycle.
    pub fn publish(&mut self, outcome: FetchOutcome) -> (wait: u64)
        ensures
            final(self)@ == after_cycle(old(self)@, outcome),
            wait == REFRESH_SECONDS,
    {
        match outcome {
            FetchOutcome::Reading(entry) => {
                self.latest = Some(entry);
            },
            _ => {},
        }
        REFRESH_SECONDS
    }

    /// A copy of the reading held, if any.
    pub fn latest(&self) -> (r: Option<Entry>)
        ensures
            reading_view(r) == self@,
    {
        match &self.latest {
            Some(entry) => Some(entry.clone()),
            None => None,
        }
    }
}

/// Two cycles that both fail leave the cell as it was, so that the block for
/// it at any instant is the one it had before them at that instant.
pub proof fn lemma_failed_cycles_keep_reading(
    held: Option<EntryView>,
    first: FetchOutcome,
    second: FetchOutcome,
    now: int,
)
    requires
        is_failure(first),
        is_failure(second),
    ensures
        after_cycle(after_cycle(held, first), second) == held,
        cgm_block(after_cycle(after_cycle(held, first), second), now) == cgm_block(held, now),
{
}

/// A cycle changes what the cell holds only where the request completed, was
/// answered with success, and its body was understood.
pub proof fn lemma_only_understood_success_publishes(
    held: Option<EntryView>,
    status: Option<u32>,
    reading: Option<Entry>,
)
    ensures
        after_cycle(held, outcome_of(status, reading)) == if status matches Some(code)
            && is_success(code) && reading is Some {
            Some(reading->0@)
        } else {
            held
        },
{
}

/// A cycle that brings a reading leaves exactly that reading, whatever was held.
pub proof fn lemma_reading_replaces(held: Option<EntryView>, entry: Entry)
    ensures
        after_cycle(held, FetchOutcome::Reading(entry)) == Some(entry@),
{
}

} // verus!
