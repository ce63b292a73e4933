//! What holds of every history of one cell.
//!
//! The lock admits one operation at a time, so whatever the threads do, the
//! operations on one cell form a sequence. A history is such a sequence; the
//! cell starts `Uninitialized`, and each operation moves the status as the
//! transitions in [`crate::status`] say.

use crate::status::ThreadStatus;
use vstd::prelude::*;

verus! {

/// One operation on a cell, as the lock admits it.
#[derive(Clone, Copy, Debug, PartialEq, Eq, Structural)]
pub enum Operation {
    /// A claim of the initialization.
    Claim,
    /// An announcement that the initialization is complete.
    Announce,
    /// A look at the status by a waiter.
    Wait,
}

/// The status that `op` leaves behind when it finds `status`.
pub open spec fn step(status: ThreadStatus, op: Operation) -> ThreadStatus {
    match op {
        Operation::Claim => status.after_claim(),
        Operation::Announce => status.after_announce(),
        Operation::Wait => status,
    }
}

/// The status of a new cell after the first `n` operations of `ops`.
pub open spec fn status_at(ops: Seq<Operation>, n: int) -> ThreadStatus
    decreases n,
{
    if n <= 0 || n > ops.len() {
        ThreadStatus::Uninitialized
    } else {
        step(status_at(ops, n - 1), ops[n - 1])
    }
}

/// Operation `i` of `ops` is a claim, and it returns `true`.
pub open spec fn claim_wins(ops: Seq<Operation>, i: int) -> bool {
    &&& 0 <= i < ops.len()
    &&& ops[i] is Claim
    &&& status_at(ops, i).claimable()
}

/// Operation `i` of `ops` is a look by a waiter that lets the waiter return.
pub open spec fn wait_returns(ops: Seq<Operation>, i: int) -> bool {
    &&& 0 <= i < ops.len()
    &&& ops[i] is Wait
    &&& status_at(ops, i) == ThreadStatus::Up
}

/// No operation sets the status back.
pub proof fn lemma_step_never_regresses(status: ThreadStatus, op: Operation)
    ensures
        step(status, op).rank() >= status.rank(),
        status == ThreadStatus::Up ==> step(status, op) == ThreadStatus::Up,
{
}

/// The status never moves backwards in a history: at a later point its rank
/// is at least what it was at an earlier one. In particular, once the status
/// is `Up`, it is `Up` at every later point.
pub proof fn lemma_status_never_regresses(ops: Seq<Operation>, i: int, j: int)
    requires
        0 <= i <= j <= ops.len(),
    ensures
        status_at(ops, i).rank() <= status_at(ops, j).rank(),
        status_at(ops, i) == ThreadStatus::Up ==> status_at(ops, j) == ThreadStatus::Up,
    decreases j - i,
{
    if i < j {
        lemma_status_never_regresses(ops, i, j - 1);
        lemma_step_never_regresses(status_at(ops, j - 1), ops[j - 1]);
    }
}

/// The status is `Up` after `n` operations if and only if one of them was an
/// announcement. So a waiter never returns before some announcement has been
/// made, and a waiter that looks after one returns.
pub proof fn lemma_up_iff_announced(ops: Seq<Operation>, n: int)
    requires
        0 <= n <= ops.len(),
    ensures
        status_at(ops, n) == ThreadStatus::Up <==> exists|k: int|
            0 <= k < n && ops[k] is Announce,
    decreases n,
{
    if n > 0 {
        lemma_up_iff_announced(ops, n - 1);
        if ops[n - 1] is Announce {
            assert(0 <= n - 1 < n && ops[n - 1] is Announce);
        } else if status_at(ops, n - 1) == ThreadStatus::Up {
            let k = choose|k: int| 0 <= k < n - 1 && ops[k] is Announce;
            assert(0 <= k < n && ops[k] is Announce);
        }
    }
}

/// A look by a waiter lets the waiter return if and only if an announcement
/// came before it.
pub proof fn lemma_wait_returns_iff_announced(ops: Seq<Operation>, i: int)
    requires
        0 <= i < ops.len(),
        ops[i] is Wait,
    ensures
        wait_returns(ops, i) <==> exists|k: int| 0 <= k < i && ops[k] is Announce,
{
    lemma_up_iff_announced(ops, i);
}

/// The status is still `Uninitialized` after `n` operations if and only if
/// all of them were looks by waiters.
pub proof fn lemma_uninitialized_iff_untouched(ops: Seq<Operation>, n: int)
    requires
        0 <= n <= ops.len(),
    ensures
        status_at(ops, n) == ThreadStatus::Uninitialized <==> forall|k: int|
            0 <= k < n ==> ops[k] is Wait,
    decreases n,
{
    if n > 0 {
        lemma_uninitialized_iff_untouched(ops, n - 1);
        if status_at(ops, n) != ThreadStatus::Uninitialized {
            if status_at(ops, n - 1) == ThreadStatus::Uninitialized {
                assert(!(ops[n - 1] is Wait));
            } else {
                let k = choose|k: int| 0 <= k < n - 1 && !(ops[k] is Wait);
                assert(0 <= k < n && !(ops[k] is Wait));
            }
        }
    }
}

/// A claim returns `true` if and only if neither a claim nor an announcement
/// came before it.
pub proof fn lemma_claim_wins_iff_first(ops: Seq<Operation>, i: int)
    requires
        0 <= i < ops.len(),
        ops[i] is Claim,
    ensures
        claim_wins(ops, i) <==> forall|k: int| 0 <= k < i ==> ops[k] is Wait,
{
    lemma_uninitialized_iff_untouched(ops, i);
}

/// No two claims in one history both return `true`.
pub proof fn lemma_at_most_one_winner(ops: Seq<Operation>, a: int, b: int)
    requires
        claim_wins(ops, a),
        claim_wins(ops, b),
    ensures
        a == b,
{
    if a < b {
        lemma_status_never_regresses(ops, a + 1, b);
    } else if b < a {
        lemma_status_never_regresses(ops, b + 1, a);
    }
}

/// In a history that holds a claim which no announcement precedes, exactly
/// one claim returns `true`: the first one. Every other claim, however many
/// there are and wherever they stand, returns `false`.
pub proof fn lemma_single_winner(ops: Seq<Operation>, i: int) -> (winner: int)
    requires
        0 <= i < ops.len(),
        ops[i] is Claim,
        forall|k: int| 0 <= k < i ==> !(ops[k] is Announce),
    ensures
        0 <= winner <= i,
        claim_wins(ops, winner),
        forall|k: int| claim_wins(ops, k) ==> k == winner,
    decreases i,
{
    let winner = if exists|k: int| 0 <= k < i && ops[k] is Claim {
        let k = choose|k: int| 0 <= k < i && ops[k] is Claim;
        lemma_single_winner(ops, k)
    } else {
        lemma_claim_wins_iff_first(ops, i);
        i
    };
    assert forall|k: int| claim_wins(ops, k) implies k == winner by {
        lemma_at_most_one_winner(ops, k, winner);
    }
    winner
}

/// Where an announcement precedes a claim, the claim returns `false`.
pub proof fn lemma_no_winner_after_announce(ops: Seq<Operation>, k: int, i: int)
    requires
        0 <= k < i < ops.len(),
        ops[k] is Announce,
    ensures
        !claim_wins(ops, i),
{
    lemma_up_iff_announced(ops, i);
}

/// A second announcement changes nothing: after the first the status is
/// `Up`, and so it is after the second.
pub proof fn lemma_announce_is_idempotent(status: ThreadStatus)
    ensures
        step(status, Operation::Announce) == ThreadStatus::Up,
        step(step(status, Operation::Announce), Operation::Announce) == step(
            status,
            Operation::Announce,
        ),
{
}

/// From the moment an announcement has been made, the status is `Up` at
/// every point of the history, whatever follows: more announcements, claims
/// or looks.
pub proof fn lemma_up_after_announce(ops: Seq<Operation>, i: int, j: int)
    requires
        0 <= i < j <= ops.len(),
        ops[i] is Announce,
    ensures
        status_at(ops, j) == ThreadStatus::Up,
{
    lemma_up_iff_announced(ops, j);
}

} // verus!
