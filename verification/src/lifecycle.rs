//! The sample lifecycle as a state machine, with its release laws.
//!
//! The state machine mirrors the handle types one-to-one: a sample starts
//! Uninitialized when the loan path constructs it, `write_payload` moves it
//! to Initialized, and `send` or abandoning it moves it to one of the two
//! terminal states. The laws proved here are what the consuming operations
//! enforce for the handles: a lifecycle releases its region exactly once,
//! exactly when it completes, a reclaimed lifecycle never delivered, a
//! delivered one never reclaimed, and nothing steps out of a terminal
//! state.

use vstd::prelude::*;

verus! {

/// Where one sample stands in its lifecycle.
#[derive(Clone, Copy, PartialEq, Eq, Structural, Debug)]
pub enum LifecycleState {
    /// Loaned, payload storage not yet written: the initial state.
    Uninitialized,
    /// Payload written over the same region, ready to send or edit.
    Initialized,
    /// Region handed to the publish side for delivery: terminal.
    Delivered,
    /// Region returned unsent to the free list: terminal.
    Reclaimed,
}

/// One operation the owner of a sample can perform on it.
#[derive(Clone, Copy, PartialEq, Eq, Structural, Debug)]
pub enum LifecycleOp {
    /// Write the payload: `write_payload` on the uninitialized handle.
    WritePayload,
    /// Hand the region over for delivery: `send` on the initialized
    /// handle.
    Send,
    /// Give the sample up unsent: `reclaim` on either handle.
    Abandon,
}

/// Whether `s` is an end of the lifecycle: the region has been released
/// and the handle no longer exists.
pub open spec fn is_terminal(s: LifecycleState) -> bool {
    s == LifecycleState::Delivered || s == LifecycleState::Reclaimed
}

/// Whether `op` releases the loaned region, by delivery or by reclaim.
pub open spec fn releases(op: LifecycleOp) -> bool {
    op == LifecycleOp::Send || op == LifecycleOp::Abandon
}

/// The lifecycle's transition relation: the state after performing `op` in
/// state `s`, or `None` where the handle types make `op` unrepresentable.
pub open spec fn lifecycle_step(s: LifecycleState, op: LifecycleOp) -> Option<LifecycleState> {
    match (s, op) {
        (LifecycleState::Uninitialized, LifecycleOp::WritePayload) => Some(
            LifecycleState::Initialized,
        ),
        (LifecycleState::Uninitialized, LifecycleOp::Abandon) => Some(LifecycleState::Reclaimed),
        (LifecycleState::Initialized, LifecycleOp::Send) => Some(LifecycleState::Delivered),
        (LifecycleState::Initialized, LifecycleOp::Abandon) => Some(LifecycleState::Reclaimed),
        _ => None,
    }
}

/// The state after performing `ops` in order from `s`, or `None` as soon
/// as one operation is unrepresentable in the state it meets.
pub open spec fn run_from(s: LifecycleState, ops: Seq<LifecycleOp>) -> Option<LifecycleState>
    decreases ops.len(),
{
    if ops.len() == 0 {
        Some(s)
    } else {
        match lifecycle_step(s, ops[0]) {
            Some(t) => run_from(t, ops.drop_first()),
            None => None,
        }
    }
}

/// How many operations in `ops` release the region.
pub open spec fn release_count(ops: Seq<LifecycleOp>) -> int
    decreases ops.len(),
{
    if ops.len() == 0 {
        0
    } else {
        (if releases(ops[0]) {
            1int
        } else {
            0int
        }) + release_count(ops.drop_first())
    }
}

/// How many operations in `ops` hand the region over for delivery.
pub open spec fn send_count(ops: Seq<LifecycleOp>) -> int
    decreases ops.len(),
{
    if ops.len() == 0 {
        0
    } else {
        (if ops[0] == LifecycleOp::Send {
            1int
        } else {
            0int
        }) + send_count(ops.drop_first())
    }
}

/// How many operations in `ops` give the sample up unsent.
pub open spec fn abandon_count(ops: Seq<LifecycleOp>) -> int
    decreases ops.len(),
{
    if ops.len() == 0 {
        0
    } else {
        (if ops[0] == LifecycleOp::Abandon {
            1int
        } else {
            0int
        }) + abandon_count(ops.drop_first())
    }
}

/// No operation is observable on a consumed handle: a terminal state
/// admits no transition at all.
pub proof fn lemma_terminal_no_step(s: LifecycleState, op: LifecycleOp)
    requires
        is_terminal(s),
    ensures
        lifecycle_step(s, op) is None,
{
}

/// A run from a terminal state goes nowhere: it is valid only if it is
/// empty.
pub proof fn lemma_terminal_stops_run(s: LifecycleState, ops: Seq<LifecycleOp>)
    requires
        is_terminal(s),
        run_from(s, ops) is Some,
    ensures
        ops.len() == 0,
        run_from(s, ops) == Some(s),
{
}

/// Exactly-once release: over a valid run from any live state, the region
/// is released exactly once if the run completes the lifecycle, and not at
/// all if it stops short — never zero times for a completed lifecycle,
/// never twice for any.
pub proof fn lemma_release_exactly_once_from(
    s: LifecycleState,
    ops: Seq<LifecycleOp>,
    t: LifecycleState,
)
    requires
        !is_terminal(s),
        run_from(s, ops) == Some(t),
    ensures
        release_count(ops) == if is_terminal(t) {
            1int
        } else {
            0int
        },
    decreases ops.len(),
{
    if ops.len() == 0 {
    } else {
        let s1 = lifecycle_step(s, ops[0])->Some_0;
        assert(release_count(ops) == (if releases(ops[0]) {
            1int
        } else {
            0int
        }) + release_count(ops.drop_first()));
        if is_terminal(s1) {
            lemma_terminal_stops_run(s1, ops.drop_first());
        } else {
            lemma_release_exactly_once_from(s1, ops.drop_first(), t);
        }
    }
}

/// For every handle created, exactly one release is invoked over a
/// completed lifecycle: a full run from the initial state to a terminal
/// state contains exactly one releasing operation.
pub proof fn lemma_exactly_once_release(ops: Seq<LifecycleOp>, t: LifecycleState)
    requires
        run_from(LifecycleState::Uninitialized, ops) == Some(t),
        is_terminal(t),
    ensures
        release_count(ops) == 1,
{
    lemma_release_exactly_once_from(LifecycleState::Uninitialized, ops, t);
}

/// Abandoning without sending reclaims: a valid run that ends reclaimed
/// contains exactly one abandon and no delivery at all.
pub proof fn lemma_reclaimed_never_delivered(s: LifecycleState, ops: Seq<LifecycleOp>)
    requires
        !is_terminal(s),
        run_from(s, ops) == Some(LifecycleState::Reclaimed),
    ensures
        abandon_count(ops) == 1,
        send_count(ops) == 0,
    decreases ops.len(),
{
    let s1 = lifecycle_step(s, ops[0])->Some_0;
    assert(abandon_count(ops) == (if ops[0] == LifecycleOp::Abandon {
        1int
    } else {
        0int
    }) + abandon_count(ops.drop_first()));
    assert(send_count(ops) == (if ops[0] == LifecycleOp::Send {
        1int
    } else {
        0int
    }) + send_count(ops.drop_first()));
    if is_terminal(s1) {
        lemma_terminal_stops_run(s1, ops.drop_first());
    } else {
        lemma_reclaimed_never_delivered(s1, ops.drop_first());
    }
}

/// Sending consumes ownership for good: a valid run that ends delivered
/// contains exactly one send and no reclaim at all.
pub proof fn lemma_delivered_never_reclaimed(s: LifecycleState, ops: Seq<LifecycleOp>)
    requires
        !is_terminal(s),
        run_from(s, ops) == Some(LifecycleState::Delivered),
    ensures
        send_count(ops) == 1,
        abandon_count(ops) == 0,
    decreases ops.len(),
{
    let s1 = lifecycle_step(s, ops[0])->Some_0;
    assert(send_count(ops) == (if ops[0] == LifecycleOp::Send {
        1int
    } else {
        0int
    }) + send_count(ops.drop_first()));
    assert(abandon_count(ops) == (if ops[0] == LifecycleOp::Abandon {
        1int
    } else {
        0int
    }) + abandon_count(ops.drop_first()));
    if is_terminal(s1) {
        lemma_terminal_stops_run(s1, ops.drop_first());
    } else {
        lemma_delivered_never_reclaimed(s1, ops.drop_first());
    }
}

} // verus!
