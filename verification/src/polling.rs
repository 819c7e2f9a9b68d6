//! When to poll all containers: after each poll interval, on request, and at once
//! when polling resumes; never while polling is suspended.

use vstd::prelude::*;

use crate::events::Event;

verus! {

/// Why the poll loop woke up.
#[derive(Debug, Clone, Copy, PartialEq, Eq, Structural)]
pub enum PollWake {
    /// The poll interval elapsed.
    TimerElapsed,
    /// A container changed its run state.
    ForcePoll,
    /// A container is being recreated.
    SuspendPolling,
    /// Recreation is over.
    ResumePolling,
    /// Any other event, or an error reading the channel.
    Other,
}

impl PollWake {
    /// The wake-up an event on the channel causes.
    pub fn from_event(event: &Event) -> (r: Self)
        ensures
            r == (match event {
                Event::ForcePoll => PollWake::ForcePoll,
                Event::SuspendPolling => PollWake::SuspendPolling,
                Event::ResumePolling => PollWake::ResumePolling,
                _ => PollWake::Other,
            }),
    {
        match event {
            Event::ForcePoll => PollWake::ForcePoll,
            Event::SuspendPolling => PollWake::SuspendPolling,
            Event::ResumePolling => PollWake::ResumePolling,
            _ => PollWake::Other,
        }
    }
}

/// Whether polling is active, and whether to poll after a wake-up.
pub open spec fn poll_step(active: bool, wake: PollWake) -> (bool, bool) {
    match wake {
        PollWake::TimerElapsed => (active, active),
        PollWake::ForcePoll => (active, active),
        PollWake::SuspendPolling => (false, false),
        PollWake::ResumePolling => (true, true),
        PollWake::Other => (active, false),
    }
}

/// The state of the poll loop.
pub struct PollState {
    pub polling_active: bool,
}

impl PollState {
    /// Polling starts active.
    pub fn new() -> (r: Self)
        ensures
            r.polling_active,
    {
        PollState { polling_active: true }
    }

    /// Handles a wake-up and says whether to poll now: on the timer or on request
    /// only while active; at once when resuming; never when suspending or on other
    /// events.
    pub fn on_wake(&mut self, wake: PollWake) -> (poll_now: bool)
        ensures
            (final(self).polling_active, poll_now) == poll_step(old(self).polling_active, wake),
    {
        match wake {
            PollWake::TimerElapsed | PollWake::ForcePoll => self.polling_active,
            PollWake::SuspendPolling => {
                self.polling_active = false;
                false
            },
            PollWake::ResumePolling => {
                self.polling_active = true;
                true
            },
            PollWake::Other => false,
        }
    }
}

/// The poll decisions for a sequence of wake-ups, from the given state.
pub open spec fn poll_decisions(active: bool, wakes: Seq<PollWake>) -> Seq<bool>
    decreases wakes.len(),
{
    if wakes.len() == 0 {
        Seq::empty()
    } else {
        let (a, p) = poll_step(active, wakes[0]);
        seq![p] + poll_decisions(a, wakes.drop_first())
    }
}

/// The polling state after a sequence of wake-ups.
pub open spec fn poll_state_after(active: bool, wakes: Seq<PollWake>) -> bool
    decreases wakes.len(),
{
    if wakes.len() == 0 {
        active
    } else {
        poll_state_after(poll_step(active, wakes[0]).0, wakes.drop_first())
    }
}

/// Once polling is suspended, nothing is polled until it is resumed: whatever timer
/// expiries, poll requests, further suspensions and other events follow.
pub proof fn no_poll_while_suspended(wakes: Seq<PollWake>)
    requires
        forall|i: int| 0 <= i < wakes.len() ==> #[trigger] wakes[i] != PollWake::ResumePolling,
    ensures
        poll_decisions(false, wakes).len() == wakes.len(),
        forall|i: int| 0 <= i < wakes.len() ==> !#[trigger] poll_decisions(false, wakes)[i],
        !poll_state_after(false, wakes),
    decreases wakes.len(),
{
    if wakes.len() > 0 {
        let rest = wakes.drop_first();
        assert(wakes[0] != PollWake::ResumePolling);
        assert forall|i: int| 0 <= i < rest.len() implies #[trigger] rest[i] != PollWake::ResumePolling by {
            assert(rest[i] == wakes[i + 1]);
        }
        no_poll_while_suspended(rest);
        let d = poll_decisions(false, wakes);
        assert(d =~= seq![false] + poll_decisions(false, rest));
        assert forall|i: int| 0 <= i < wakes.len() implies !#[trigger] d[i] by {
            if i > 0 {
                assert(d[i] == poll_decisions(false, rest)[i - 1]);
            }
        }
    }
}

/// Suspending and then resuming polling, with anything but resumptions in between,
/// polls exactly once: at the resumption, after which polling is active again.
pub proof fn suspend_then_resume_polls_once(active: bool, between: Seq<PollWake>)
    requires
        forall|i: int| 0 <= i < between.len() ==> #[trigger] between[i] != PollWake::ResumePolling,
    ensures
        ({
            let wakes = seq![PollWake::SuspendPolling] + between + seq![PollWake::ResumePolling];
            let d = poll_decisions(active, wakes);
            &&& d.len() == wakes.len()
            &&& forall|i: int| 0 <= i < d.len() - 1 ==> !#[trigger] d[i]
            &&& d.last()
            &&& poll_state_after(active, wakes)
        }),
{
    let wakes = seq![PollWake::SuspendPolling] + between + seq![PollWake::ResumePolling];
    lemma_decisions_append(false, between, seq![PollWake::ResumePolling]);
    no_poll_while_suspended(between);
    let tail = between + seq![PollWake::ResumePolling];
    assert(wakes.drop_first() =~= tail);
    let d = poll_decisions(active, wakes);
    assert(d =~= seq![false] + poll_decisions(false, tail));
    let dt = poll_decisions(false, tail);
    assert(dt =~= poll_decisions(false, between) + poll_decisions(poll_state_after(false, between), seq![PollWake::ResumePolling]));
    let r = seq![PollWake::ResumePolling];
    assert(r.drop_first() =~= Seq::<PollWake>::empty());
    assert(poll_decisions(true, Seq::<PollWake>::empty()) =~= Seq::<bool>::empty());
    assert(poll_decisions(false, r) =~= seq![true]);
    assert(poll_state_after(false, r) == poll_state_after(true, Seq::<PollWake>::empty()));
    lemma_decisions_len(active, wakes);
    assert forall|i: int| 0 <= i < d.len() - 1 implies !#[trigger] d[i] by {
        if i > 0 {
            assert(d[i] == dt[i - 1]);
            assert(dt[i - 1] == poll_decisions(false, between)[i - 1]);
        }
    }
    lemma_state_append(false, between, seq![PollWake::ResumePolling]);
    lemma_state_append(active, seq![PollWake::SuspendPolling], tail);
    assert(seq![PollWake::SuspendPolling] + tail =~= wakes);
}

/// One decision per wake-up.
proof fn lemma_decisions_len(active: bool, wakes: Seq<PollWake>)
    ensures
        poll_decisions(active, wakes).len() == wakes.len(),
    decreases wakes.len(),
{
    if wakes.len() > 0 {
        lemma_decisions_len(poll_step(active, wakes[0]).0, wakes.drop_first());
    }
}

/// Decisions for two sequences in a row.
proof fn lemma_decisions_append(active: bool, a: Seq<PollWake>, b: Seq<PollWake>)
    ensures
        poll_decisions(active, a + b) == poll_decisions(active, a) + poll_decisions(poll_state_after(active, a), b),
    decreases a.len(),
{
    if a.len() == 0 {
        assert(a + b =~= b);
        assert(poll_decisions(active, a) =~= Seq::<bool>::empty());
        assert(Seq::<bool>::empty() + poll_decisions(active, b) =~= poll_decisions(active, b));
    } else {
        let s = poll_step(active, a[0]);
        assert((a + b).drop_first() =~= a.drop_first() + b);
        assert((a + b)[0] == a[0]);
        lemma_decisions_append(s.0, a.drop_first(), b);
        assert(poll_decisions(active, a + b) =~= seq![s.1] + poll_decisions(s.0, a.drop_first() + b));
        assert(poll_decisions(active, a) =~= seq![s.1] + poll_decisions(s.0, a.drop_first()));
    }
}

/// The state after two sequences in a row.
proof fn lemma_state_append(active: bool, a: Seq<PollWake>, b: Seq<PollWake>)
    ensures
        poll_state_after(active, a + b) == poll_state_after(poll_state_after(active, a), b),
    decreases a.len(),
{
    if a.len() == 0 {
        assert(a + b =~= b);
    } else {
        assert((a + b).drop_first() =~= a.drop_first() + b);
        assert((a + b)[0] == a[0]);
        lemma_state_append(poll_step(active, a[0]).0, a.drop_first(), b);
    }
}

} // verus!
