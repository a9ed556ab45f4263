//! The reconciliation loop as a state machine. The loop owns one value —
//! the baseline, its belief of what the record publishes — and suspends at
//! every network call and every sleep. Each suspension is a state here; the
//! host performs the commanded work, reports its completion as an event,
//! and the `step` function decides everything in between.

use vstd::prelude::*;

use crate::record::encode_write_body;
use crate::record::write_body_of;

verus! {

/// Where the loop stands between two suspension points. `last` is the
/// baseline: the address the loop believes the record publishes.
#[derive(Debug, Clone, PartialEq, Eq)]
pub enum LoopState {
    /// Before the baseline has been read from the provider. Start here.
    Initializing,
    /// A poll has begun: the current public address is being resolved.
    Resolving { last: String },
    /// Drift was seen: a record write is in flight under bounded retry.
    Writing { last: String, resolved: String },
    /// The cycle is over: the polling interval is being slept out.
    Sleeping { last: String },
}

/// The completion the host reports back: the result of the work the last
/// command asked for.
#[derive(Debug, Clone, PartialEq, Eq)]
pub enum LoopEvent {
    /// The baseline read, run under indefinite retry, produced the record's
    /// current target.
    BaselineRead { target: String },
    /// The address resolution, run under indefinite retry, produced the
    /// caller's current public address.
    AddressResolved { address: String },
    /// The record write, run under bounded retry, ended — in success, or in
    /// exhaustion of its budget.
    WriteFinished { success: bool },
    /// The polling interval has elapsed.
    SleepElapsed,
}

/// What the loop asks the host to do next.
#[derive(Debug, Clone, PartialEq, Eq)]
pub enum LoopCommand {
    /// Read the record's current target, retrying indefinitely.
    ReadRecord,
    /// Resolve the current public address, retrying indefinitely.
    ResolveAddress,
    /// Write `address` as the record's new target, sending `body`, under
    /// bounded retry.
    WriteRecord { address: String, body: String },
    /// Sleep out the polling interval.
    Sleep,
}

/// What a transition makes observable: the loop's report on the cycle.
#[derive(Debug, Clone, PartialEq, Eq)]
pub enum Observation {
    /// The resolved address equals the baseline: nothing to do.
    Unchanged { address: String },
    /// The resolved address differs from the baseline: an update begins.
    Changed { from: String, to: String },
    /// The record write succeeded.
    Updated,
    /// The record write exhausted its retry budget.
    UpdateFailed,
}

/// The events a state can consume: each suspension point awaits the
/// completion of exactly the work it commanded.
pub open spec fn accepts(state: LoopState, event: LoopEvent) -> bool {
    match (state, event) {
        (LoopState::Initializing, LoopEvent::BaselineRead { .. }) => true,
        (LoopState::Resolving { .. }, LoopEvent::AddressResolved { .. }) => true,
        (LoopState::Writing { .. }, LoopEvent::WriteFinished { .. }) => true,
        (LoopState::Sleeping { .. }, LoopEvent::SleepElapsed) => true,
        _ => false,
    }
}

/// The state after `state` consumes `event`. The baseline is set by the
/// baseline read, and moved to the freshly resolved address when a write
/// finishes — whether or not the write succeeded.
pub open spec fn next_state(state: LoopState, event: LoopEvent) -> LoopState {
    match (state, event) {
        (LoopState::Initializing, LoopEvent::BaselineRead { target }) => LoopState::Resolving {
            last: target,
        },
        (LoopState::Resolving { last }, LoopEvent::AddressResolved { address }) => {
            if address@ == last@ {
                LoopState::Sleeping { last }
            } else {
                LoopState::Writing { last, resolved: address }
            }
        },
        (LoopState::Writing { last: _, resolved }, LoopEvent::WriteFinished { .. }) => {
            LoopState::Sleeping { last: resolved }
        },
        (LoopState::Sleeping { last }, LoopEvent::SleepElapsed) => LoopState::Resolving { last },
        _ => state,
    }
}

/// A poll that resolves the baseline's own address leaves the baseline
/// where it was, and the loop goes straight to its sleep: the cycle writes
/// nothing.
pub proof fn lemma_unchanged_keeps_baseline(last: String, address: String)
    requires
        address@ == last@,
    ensures
        next_state(LoopState::Resolving { last }, LoopEvent::AddressResolved { address }) == (
        LoopState::Sleeping { last }),
{
}

/// A poll that resolves a different address ends its cycle — the write
/// successful or exhausted alike — with the baseline moved to the resolved
/// address: the next poll compares against the new baseline, and a
/// persistently failing write is not fought over again on the same value.
pub proof fn lemma_baseline_advances(last: String, address: String, success: bool)
    requires
        address@ != last@,
    ensures
        ({
            let writing = next_state(
                LoopState::Resolving { last },
                LoopEvent::AddressResolved { address },
            );
            let slept = next_state(writing, LoopEvent::WriteFinished { success });
            &&& writing == (LoopState::Writing { last, resolved: address })
            &&& slept == (LoopState::Sleeping { last: address })
            &&& next_state(slept, LoopEvent::SleepElapsed) == (LoopState::Resolving {
                last: address,
            })
        }),
{
}

/// One transition of the loop: consumes the event the host reported,
/// returns the next state, the next command, and what the cycle made
/// observable.
///
/// The last three clauses state the loop's laws. A write is commanded
/// exactly when the resolved address differs from the baseline — never when
/// the two are equal, and exactly once when they are not. And once a write
/// attempt finishes, successful or exhausted alike, the baseline is the
/// address that was resolved, not the value it replaced: the next cycle
/// compares against the new baseline rather than re-fighting this one.
pub fn step(state: LoopState, event: LoopEvent) -> (r: (LoopState, LoopCommand, Option<
    Observation,
>))
    requires
        accepts(state, event),
    ensures
        r.0 == next_state(state, event),
        state is Initializing ==> r.1 == LoopCommand::ResolveAddress && r.2 is None,
        state is Sleeping ==> r.1 == LoopCommand::ResolveAddress && r.2 is None,
        (match (state, event) {
            (LoopState::Resolving { last }, LoopEvent::AddressResolved { address }) => {
                if address@ == last@ {
                    r.1 == LoopCommand::Sleep && r.2 == Some(Observation::Unchanged { address })
                } else {
                    (r.1 matches LoopCommand::WriteRecord { address: a, body } && a == address
                        && body@ == write_body_of(address@)) && r.2 == Some(
                        Observation::Changed { from: last, to: address },
                    )
                }
            },
            (LoopState::Writing { .. }, LoopEvent::WriteFinished { success }) => r.1
                == LoopCommand::Sleep && r.2 == Some(
                if success {
                    Observation::Updated
                } else {
                    Observation::UpdateFailed
                },
            ),
            _ => true,
        }),
        (match (state, event) {
            (LoopState::Resolving { last }, LoopEvent::AddressResolved { address }) => {
                (address@ == last@ ==> !(r.1 is WriteRecord)) && (address@ != last@ ==> r.1
                    is WriteRecord)
            },
            _ => true,
        }),
        state matches LoopState::Writing { last: _, resolved } ==> r.0 == (LoopState::Sleeping {
            last: resolved,
        }),
{
    match (state, event) {
        (LoopState::Initializing, LoopEvent::BaselineRead { target }) => {
            (LoopState::Resolving { last: target }, LoopCommand::ResolveAddress, None)
        },
        (LoopState::Resolving { last }, LoopEvent::AddressResolved { address }) => {
            if address == last {
                (
                    LoopState::Sleeping { last },
                    LoopCommand::Sleep,
                    Some(Observation::Unchanged { address }),
                )
            } else {
                let body = encode_write_body(address.as_str());
                let command = LoopCommand::WriteRecord { address: address.clone(), body };
                let observed = Observation::Changed { from: last.clone(), to: address.clone() };
                (LoopState::Writing { last, resolved: address }, command, Some(observed))
            }
        },
        (LoopState::Writing { last: _, resolved }, LoopEvent::WriteFinished { success }) => {
            let observed = if success {
                Observation::Updated
            } else {
                Observation::UpdateFailed
            };
            (LoopState::Sleeping { last: resolved }, LoopCommand::Sleep, Some(observed))
        },
        (LoopState::Sleeping { last }, LoopEvent::SleepElapsed) => {
            (LoopState::Resolving { last }, LoopCommand::ResolveAddress, None)
        },
        _ => vstd::pervasive::unreached(),
    }
}

} // verus!
