//! The accounting law of a member's session history.
//!
//! [`Ledger`] replays a sequence of open/close observations on one key. Its
//! `session` component steps exactly as the presence store's contracts step
//! a member's session — [`crate::presence::VoiceStates::open`] keeps an open
//! session's start and otherwise opens at the observed instant, and
//! [`crate::presence::VoiceStates::close_and_take`] clears the session and
//! reports [`crate::presence::session_duration`] of it, or reports nothing
//! when no session was open. Alongside, the ledger accumulates `credited`
//! (the sum of the reported durations) and `gaps` (the absent time between a
//! close and the next open).

use vstd::prelude::*;

use crate::presence::session_duration;

verus! {

/// One observed boundary event on a single member's session.
#[derive(Clone, Copy, Debug, PartialEq, Eq, Structural)]
pub enum SessionOp {
    /// The member was observed entering a tracked channel at this instant.
    Open { at: u64 },
    /// The member was observed leaving at this instant.
    Close { at: u64 },
}

/// The instant an observation was made.
pub open spec fn op_at(op: SessionOp) -> u64 {
    match op {
        SessionOp::Open { at } => at,
        SessionOp::Close { at } => at,
    }
}

/// The running account of one member's session history: the session exactly
/// as the presence store holds it, the total duration its closes reported,
/// the total absent time between sessions, and the instant of the last
/// boundary (the running session's start, or the last effective close).
pub struct Ledger {
    pub session: Option<u64>,
    pub credited: int,
    pub gaps: int,
    pub anchor: u64,
}

/// Replays one observation: an open is idempotent — it never resets a
/// running session's clock — and otherwise starts a session, closing the gap
/// since the last close; a close credits the session's duration, and a close
/// with no session open reports nothing and changes nothing.
pub open spec fn ledger_step(l: Ledger, op: SessionOp) -> Ledger {
    match op {
        SessionOp::Open { at } => match l.session {
            Some(_) => l,
            None => Ledger {
                session: Some(at),
                credited: l.credited,
                gaps: l.gaps + (at - l.anchor),
                anchor: at,
            },
        },
        SessionOp::Close { at } => match l.session {
            Some(start) => Ledger {
                session: None,
                credited: l.credited + session_duration(start, at),
                gaps: l.gaps,
                anchor: at,
            },
            None => l,
        },
    }
}

/// The account after opening for the first time at `t0`.
pub open spec fn ledger_init(t0: u64) -> Ledger {
    Ledger { session: Some(t0), credited: 0, gaps: 0, anchor: t0 }
}

/// Replays a whole sequence of observations.
pub open spec fn run_ledger(l: Ledger, ops: Seq<SessionOp>) -> Ledger
    decreases ops.len(),
{
    if ops.len() == 0 {
        l
    } else {
        run_ledger(ledger_step(l, ops[0]), ops.drop_first())
    }
}

/// A sound account relative to the first open at `t0`: everything since
/// `t0` up to the last boundary is either credited or a gap, and a running
/// session started at the last boundary.
pub open spec fn ledger_wf(t0: u64, l: Ledger) -> bool {
    &&& l.anchor >= t0
    &&& l.credited >= 0
    &&& l.gaps >= 0
    &&& l.credited + l.gaps == l.anchor - t0
    &&& match l.session {
        Some(start) => start == l.anchor,
        None => true,
    }
}

/// Observations made at nondecreasing instants, none earlier than `from`.
pub open spec fn ops_monotone(from: u64, ops: Seq<SessionOp>) -> bool {
    &&& (forall|i: int| 0 <= i < ops.len() ==> op_at(ops[i]) >= from)
    &&& (forall|i: int, j: int| 0 <= i < j < ops.len() ==> op_at(ops[i]) <= op_at(ops[j]))
}

/// Replaying monotone observations preserves a sound account.
pub proof fn lemma_ledger_invariant(t0: u64, l: Ledger, ops: Seq<SessionOp>)
    requires
        ledger_wf(t0, l),
        ops_monotone(l.anchor, ops),
    ensures
        ledger_wf(t0, run_ledger(l, ops)),
        run_ledger(l, ops).anchor >= l.anchor,
    decreases ops.len(),
{
    if ops.len() > 0 {
        let l1 = ledger_step(l, ops[0]);
        assert(op_at(ops[0]) >= l.anchor);
        assert(ledger_wf(t0, l1));
        assert(l1.anchor >= l.anchor);
        assert forall|i: int| 0 <= i < ops.drop_first().len() implies op_at(
            ops.drop_first()[i],
        ) >= l1.anchor by {
            assert(ops.drop_first()[i] == ops[i + 1]);
            assert(op_at(ops[i + 1]) >= op_at(ops[0]));
        }
        assert forall|i: int, j: int| 0 <= i < j < ops.drop_first().len() implies op_at(
            ops.drop_first()[i],
        ) <= op_at(ops.drop_first()[j]) by {
            assert(ops.drop_first()[i] == ops[i + 1]);
            assert(ops.drop_first()[j] == ops[j + 1]);
        }
        lemma_ledger_invariant(t0, l1, ops.drop_first());
    }
}

/// The accounting law: over any monotone sequence of open/close
/// observations on one key, replayed from a first open at `t0`, the sum of
/// the durations reported by the closes equals the span from the first open
/// to the last boundary, minus the gaps in which the key was absent. In
/// particular, when the history ends closed, the boundary is the last
/// effective close: credited time is (last close − first open) − gaps —
/// duplicate opens while a session runs never reset the clock, so no time
/// is double-counted or lost.
pub proof fn lemma_session_accounting(t0: u64, ops: Seq<SessionOp>)
    requires
        ops_monotone(t0, ops),
    ensures
        ({
            let l = run_ledger(ledger_init(t0), ops);
            &&& l.credited + l.gaps == l.anchor - t0
            &&& (l.session is None ==> l.credited == l.anchor - t0 - l.gaps)
        }),
{
    lemma_ledger_invariant(t0, ledger_init(t0), ops);
}

} // verus!
