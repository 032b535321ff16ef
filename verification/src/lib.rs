//! A cooperative-yield primitive for poll-based schedulers.
//!
//! [`PendingOnce`] is an awaitable unit that reports "not yet ready" the first
//! time it is polled and "done" on every poll after that.  It is the building
//! block a suspendable routine uses to hand control back to its scheduler for
//! exactly one scheduling round, without waiting on any external event.

use vstd::prelude::*;

verus! {

/// The outcome of polling a [`PendingOnce`].
///
/// There is no failure variant: polling cannot fail.
#[derive(Clone, Copy, Debug, PartialEq, Eq)]
pub enum PollResult {
    /// The task should suspend.  The caller that observes this value must
    /// arrange, through its scheduling context, that the task is re-queued
    /// promptly: the awaitable itself registers for no wake-up, because the
    /// very next poll is guaranteed to complete.
    Pending,
    /// The awaitable has completed, yielding the unit value.
    Ready(()),
}

/// An awaitable that suspends on its first poll and completes on every later
/// one.
///
/// The single flag records whether the instance has been polled.  It moves
/// from `false` to `true` exactly once and never resets.  The type exposes no
/// copy or clone capability, so each instance is exclusively owned by the one
/// routine that created it.
pub struct PendingOnce {
    is_ready: bool,
}

impl View for PendingOnce {
    type V = bool;

    /// The abstract state: whether this awaitable has already been polled.
    closed spec fn view(&self) -> bool {
        self.is_ready
    }
}

/// One step of the poll protocol on the abstract state: the flag after the
/// call, and the result the call returns.
pub open spec fn poll_step(polled: bool) -> (bool, PollResult) {
    if polled {
        (true, PollResult::Ready(()))
    } else {
        (true, PollResult::Pending)
    }
}

/// The abstract state after `n` further polls, starting from `polled`.
pub open spec fn state_after(polled: bool, n: nat) -> bool
    decreases n,
{
    if n == 0 {
        polled
    } else {
        poll_step(state_after(polled, (n - 1) as nat)).0
    }
}

/// The result of the `n`-th poll (counting from 1), starting from `polled`.
pub open spec fn result_of_poll(polled: bool, n: nat) -> PollResult
    recommends
        1 <= n,
{
    poll_step(state_after(polled, (n - 1) as nat)).1
}

/// Creates a fresh awaitable that has not yet been polled.
///
/// Construction is pure: it cannot fail and has no side effect.
pub fn pending_once() -> (r: PendingOnce)
    ensures
        !r@,
{
    PendingOnce { is_ready: false }
}

impl PendingOnce {
    /// Polls the awaitable: [`PollResult::Pending`] on the first call, with
    /// the flag set before returning, and [`PollResult::Ready`] on every call
    /// after that.
    ///
    /// Whenever this returns [`PollResult::Pending`], the caller embedding
    /// this awaitable must itself arrange, via the external scheduling
    /// context, that the task is woken and re-queued promptly: this primitive
    /// performs no wake registration, since its next poll needs no external
    /// event to succeed.
    pub fn poll(&mut self) -> (r: PollResult)
        ensures
            final(self)@ == poll_step(old(self)@).0,
            r == poll_step(old(self)@).1,
    {
        if self.is_ready {
            PollResult::Ready(())
        } else {
            self.is_ready = true;
            PollResult::Pending
        }
    }
}

/// The flag never resets: after at least one poll, or starting already
/// polled, the abstract state is "polled", no matter how many further polls
/// follow.
pub proof fn lemma_flag_never_resets(polled: bool, n: nat)
    requires
        polled || 1 <= n,
    ensures
        state_after(polled, n),
{
}

/// The first poll of a fresh awaitable suspends.
pub proof fn lemma_first_poll_suspends(s: PendingOnce)
    requires
        !s@,
    ensures
        result_of_poll(s@, 1) == PollResult::Pending,
{
}

/// Every poll of an already-polled awaitable completes with the unit value.
pub proof fn lemma_subsequent_polls_complete(s: PendingOnce, n: nat)
    requires
        s@,
        1 <= n,
    ensures
        result_of_poll(s@, n) == PollResult::Ready(()),
{
    lemma_flag_never_resets(s@, (n - 1) as nat);
}

/// A fresh awaitable never suspends twice: from the second poll on, every
/// poll completes.
pub proof fn lemma_no_second_suspend(s: PendingOnce, n: nat)
    requires
        !s@,
        2 <= n,
    ensures
        result_of_poll(s@, n) == PollResult::Ready(()),
{
    lemma_flag_never_resets(s@, (n - 1) as nat);
}

/// Exactly one state transition happens over an instance's lifetime: the
/// first poll changes the state, and every later poll leaves it where the
/// first poll put it.
pub proof fn lemma_single_transition(s: PendingOnce, n: nat)
    requires
        !s@,
        1 <= n,
    ensures
        state_after(s@, n) == state_after(s@, 1),
        state_after(s@, 1) != s@,
{
    lemma_flag_never_resets(s@, n);
    lemma_flag_never_resets(s@, 1);
}

/// Polling never signals failure: the result type has no error variant, so
/// every poll result is either a suspension or a completion.
pub proof fn lemma_poll_never_fails(s: PendingOnce, n: nat)
    requires
        1 <= n,
    ensures
        result_of_poll(s@, n) is Pending || result_of_poll(s@, n) is Ready,
{
}

/// Construction is deterministic and instances are independent: any two
/// fresh awaitables have the same abstract state, and the whole poll
/// protocol is a function of an instance's own state alone, so the two
/// behave identically.  (That polling one cannot affect the other is
/// enforced by ownership: `poll` takes its instance by exclusive
/// reference.)
pub proof fn lemma_fresh_instances_alike(a: PendingOnce, b: PendingOnce)
    requires
        !a@,
        !b@,
    ensures
        a@ == b@,
        forall|n: nat| 1 <= n ==> result_of_poll(a@, n) == result_of_poll(b@, n),
{
}

} // verus!
