//! Recreating a container: the new configuration is derived from the old container's
//! configuration, and the Docker operations run as a state machine that always
//! gives the old container back when the new one cannot be created or started, and
//! always resumes polling in the end.

use vstd::prelude::*;

use crate::gantry_crane::label_value;
use crate::text::{contains_seq, contains_str, has_prefix, is_ascii_char, starts_with, str_eq, to_owned_string, views};

verus! {

/// The Docker operation the state machine issued last.
#[derive(Debug, Clone, Copy, PartialEq, Eq, Structural)]
pub enum RecreateStep {
    /// Nothing issued yet.
    Begin,
    /// New image pulled.
    PullIssued,
    /// Polling suspended.
    SuspendIssued,
    /// Old container renamed to its temporary name.
    RenameAwayIssued,
    /// Old container stopped.
    StopOldIssued,
    /// Waited for the old container to stop.
    WaitOldIssued,
    /// New container created under the container's name.
    CreateIssued,
    /// New container attached to the old container's networks.
    ConnectIssued,
    /// New container started.
    StartNewIssued,
    /// New container removed after it failed to start.
    RemoveNewIssued,
    /// Old container renamed back to the container's name.
    RenameBackIssued,
    /// Old container started again.
    StartOldIssued,
    /// Old container removed.
    RemoveOldIssued,
    /// Waited for the old container to be removed.
    WaitRemovedIssued,
    /// Superseded image removed.
    RemoveImageIssued,
    /// Polling resumed.
    ResumeIssued,
    /// Nothing left to do.
    Done,
}

/// What decides the course of a recreation besides the outcomes of the operations.
#[derive(Debug, Clone, Copy, PartialEq, Eq, Structural)]
pub struct RecreateFlags {
    /// Host networking: no networks to attach.
    pub host_networking: bool,
    /// Docker removes the old container itself when it stops.
    pub auto_remove: bool,
    /// A new image is pulled before anything else.
    pub pull: bool,
    /// The superseded image is removed at the end (only after a pull).
    pub remove_old_image: bool,
}

/// The step after `s`, given whether the operation issued at `s` succeeded. Outcomes
/// of suspending and resuming polling, of waiting, of attaching networks, of renaming
/// back, of starting the old container again and of removing the image do not matter.
pub open spec fn next_step(f: RecreateFlags, s: RecreateStep, ok: bool) -> RecreateStep {
    match s {
        RecreateStep::Begin => if f.pull { RecreateStep::PullIssued } else { RecreateStep::SuspendIssued },
        RecreateStep::PullIssued => if ok { RecreateStep::SuspendIssued } else { RecreateStep::Done },
        RecreateStep::SuspendIssued => RecreateStep::RenameAwayIssued,
        RecreateStep::RenameAwayIssued => if ok { RecreateStep::StopOldIssued } else { RecreateStep::ResumeIssued },
        RecreateStep::StopOldIssued => if ok { RecreateStep::WaitOldIssued } else { RecreateStep::ResumeIssued },
        RecreateStep::WaitOldIssued => RecreateStep::CreateIssued,
        RecreateStep::CreateIssued => if !ok {
            RecreateStep::RenameBackIssued
        } else if f.host_networking {
            RecreateStep::StartNewIssued
        } else {
            RecreateStep::ConnectIssued
        },
        RecreateStep::ConnectIssued => RecreateStep::StartNewIssued,
        RecreateStep::StartNewIssued => if !ok {
            RecreateStep::RemoveNewIssued
        } else if f.auto_remove {
            RecreateStep::WaitRemovedIssued
        } else {
            RecreateStep::RemoveOldIssued
        },
        RecreateStep::RemoveNewIssued => if ok { RecreateStep::RenameBackIssued } else { RecreateStep::ResumeIssued },
        RecreateStep::RenameBackIssued => RecreateStep::StartOldIssued,
        RecreateStep::StartOldIssued => RecreateStep::ResumeIssued,
        RecreateStep::RemoveOldIssued => if ok { RecreateStep::WaitRemovedIssued } else { RecreateStep::ResumeIssued },
        RecreateStep::WaitRemovedIssued => if f.remove_old_image {
            RecreateStep::RemoveImageIssued
        } else {
            RecreateStep::ResumeIssued
        },
        RecreateStep::RemoveImageIssued => RecreateStep::ResumeIssued,
        RecreateStep::ResumeIssued => RecreateStep::Done,
        RecreateStep::Done => RecreateStep::Done,
    }
}

/// The Docker operation or channel event to perform.
#[derive(Debug, PartialEq, Eq)]
pub enum RecreateAction {
    /// Pull this image reference.
    Pull(String),
    SuspendPolling,
    Rename { from: String, to: String },
    Stop(String),
    WaitStopped(String),
    Create(String),
    ConnectNetworks(String),
    Start(String),
    Remove(String),
    WaitRemoved(String),
    RemoveOldImage,
    ResumePolling,
    Done,
}

/// A planned recreation of a container.
pub struct RecreatePlan {
    /// The container's name, without leading slash.
    pub name: String,
    /// The name the old container carries meanwhile: the name and `_old`.
    pub name_temp: String,
    /// The image reference pulled first, if `flags.pull`.
    pub image: String,
    pub flags: RecreateFlags,
}

impl RecreatePlan {
    /// The action issued on entering step `s`.
    pub open spec fn action_matches(self, s: RecreateStep, a: RecreateAction) -> bool {
        let name = self.name@;
        let temp = self.name_temp@;
        match s {
            RecreateStep::Begin => a is Done,
            RecreateStep::PullIssued => a matches RecreateAction::Pull(i) && i@ == self.image@,
            RecreateStep::SuspendIssued => a is SuspendPolling,
            RecreateStep::RenameAwayIssued => a matches RecreateAction::Rename { from, to } && from@ == name && to@ == temp,
            RecreateStep::StopOldIssued => a matches RecreateAction::Stop(n) && n@ == temp,
            RecreateStep::WaitOldIssued => a matches RecreateAction::WaitStopped(n) && n@ == temp,
            RecreateStep::CreateIssued => a matches RecreateAction::Create(n) && n@ == name,
            RecreateStep::ConnectIssued => a matches RecreateAction::ConnectNetworks(n) && n@ == name,
            RecreateStep::StartNewIssued => a matches RecreateAction::Start(n) && n@ == name,
            RecreateStep::RemoveNewIssued => a matches RecreateAction::Remove(n) && n@ == name,
            RecreateStep::RenameBackIssued => a matches RecreateAction::Rename { from, to } && from@ == temp && to@ == name,
            RecreateStep::StartOldIssued => a matches RecreateAction::Start(n) && n@ == name,
            RecreateStep::RemoveOldIssued => a matches RecreateAction::Remove(n) && n@ == temp,
            RecreateStep::WaitRemovedIssued => a matches RecreateAction::WaitRemoved(n) && n@ == temp,
            RecreateStep::RemoveImageIssued => a is RemoveOldImage,
            RecreateStep::ResumeIssued => a is ResumePolling,
            RecreateStep::Done => a is Done,
        }
    }

    /// Plans the recreation of the container named `name` (without leading slash). With
    /// `pull_image`, that image is pulled first (tagged `:latest` when it names no tag),
    /// and, if the old image is known, the image it supersedes is removed at the end.
    pub fn new(
        name: &str,
        host_networking: bool,
        auto_remove: Option<bool>,
        pull_image: Option<&str>,
        old_image_known: bool,
    ) -> (r: Self)
        ensures
            r.name@ == name@,
            r.name_temp@ == name@ + "_old"@,
            match pull_image {
                Some(i) => r.image@ == pulled_ref(i@),
                None => r.image@ == Seq::<char>::empty(),
            },
            r.flags == (RecreateFlags {
                host_networking,
                auto_remove: auto_remove == Some(true),
                pull: pull_image is Some,
                remove_old_image: pull_image is Some && old_image_known,
            }),
    {
        proof {
            reveal_strlit("");
        }
        let auto_remove = match auto_remove {
            Some(b) => b,
            None => false,
        };
        let (image, pull) = match pull_image {
            Some(i) => (image_to_pull(i), true),
            None => (String::new(), false),
        };
        RecreatePlan {
            name: to_owned_string(name),
            name_temp: to_owned_string(name).concat("_old"),
            image,
            flags: RecreateFlags { host_networking, auto_remove, pull, remove_old_image: pull && old_image_known },
        }
    }

    /// The next step and the action to perform for it, after the operation of step
    /// `s` succeeded (`ok`) or failed.
    pub fn next(&self, s: RecreateStep, ok: bool) -> (r: (RecreateStep, RecreateAction))
        ensures
            r.0 == next_step(self.flags, s, ok),
            self.action_matches(r.0, r.1),
    {
        let n = match s {
            RecreateStep::Begin => if self.flags.pull {
                RecreateStep::PullIssued
            } else {
                RecreateStep::SuspendIssued
            },
            RecreateStep::PullIssued => if ok { RecreateStep::SuspendIssued } else { RecreateStep::Done },
            RecreateStep::SuspendIssued => RecreateStep::RenameAwayIssued,
            RecreateStep::RenameAwayIssued => if ok { RecreateStep::StopOldIssued } else { RecreateStep::ResumeIssued },
            RecreateStep::StopOldIssued => if ok { RecreateStep::WaitOldIssued } else { RecreateStep::ResumeIssued },
            RecreateStep::WaitOldIssued => RecreateStep::CreateIssued,
            RecreateStep::CreateIssued => if !ok {
                RecreateStep::RenameBackIssued
            } else if self.flags.host_networking {
                RecreateStep::StartNewIssued
            } else {
                RecreateStep::ConnectIssued
            },
            RecreateStep::ConnectIssued => RecreateStep::StartNewIssued,
            RecreateStep::StartNewIssued => if !ok {
                RecreateStep::RemoveNewIssued
            } else if self.flags.auto_remove {
                RecreateStep::WaitRemovedIssued
            } else {
                RecreateStep::RemoveOldIssued
            },
            RecreateStep::RemoveNewIssued => if ok { RecreateStep::RenameBackIssued } else { RecreateStep::ResumeIssued },
            RecreateStep::RenameBackIssued => RecreateStep::StartOldIssued,
            RecreateStep::StartOldIssued => RecreateStep::ResumeIssued,
            RecreateStep::RemoveOldIssued => if ok { RecreateStep::WaitRemovedIssued } else { RecreateStep::ResumeIssued },
            RecreateStep::WaitRemovedIssued => if self.flags.remove_old_image {
                RecreateStep::RemoveImageIssued
            } else {
                RecreateStep::ResumeIssued
            },
            RecreateStep::RemoveImageIssued => RecreateStep::ResumeIssued,
            RecreateStep::ResumeIssued => RecreateStep::Done,
            RecreateStep::Done => RecreateStep::Done,
        };
        let a = match n {
            RecreateStep::Begin => RecreateAction::Done,
            RecreateStep::PullIssued => RecreateAction::Pull(self.image.clone()),
            RecreateStep::SuspendIssued => RecreateAction::SuspendPolling,
            RecreateStep::RenameAwayIssued => RecreateAction::Rename { from: self.name.clone(), to: self.name_temp.clone() },
            RecreateStep::StopOldIssued => RecreateAction::Stop(self.name_temp.clone()),
            RecreateStep::WaitOldIssued => RecreateAction::WaitStopped(self.name_temp.clone()),
            RecreateStep::CreateIssued => RecreateAction::Create(self.name.clone()),
            RecreateStep::ConnectIssued => RecreateAction::ConnectNetworks(self.name.clone()),
            RecreateStep::StartNewIssued => RecreateAction::Start(self.name.clone()),
            RecreateStep::RemoveNewIssued => RecreateAction::Remove(self.name.clone()),
            RecreateStep::RenameBackIssued => RecreateAction::Rename { from: self.name_temp.clone(), to: self.name.clone() },
            RecreateStep::StartOldIssued => RecreateAction::Start(self.name.clone()),
            RecreateStep::RemoveOldIssued => RecreateAction::Remove(self.name_temp.clone()),
            RecreateStep::WaitRemovedIssued => RecreateAction::WaitRemoved(self.name_temp.clone()),
            RecreateStep::RemoveImageIssued => RecreateAction::RemoveOldImage,
            RecreateStep::ResumeIssued => RecreateAction::ResumePolling,
            RecreateStep::Done => RecreateAction::Done,
        };
        (n, a)
    }
}

/// The steps visited, one per outcome, starting after step `s`; `outcomes[i]` is the
/// outcome of the operation issued at the step before the `i`-th visited one.
pub open spec fn run_steps(f: RecreateFlags, s: RecreateStep, outcomes: Seq<bool>) -> Seq<RecreateStep>
    decreases outcomes.len(),
{
    if outcomes.len() == 0 {
        Seq::empty()
    } else {
        let n = next_step(f, s, outcomes[0]);
        seq![n] + run_steps(f, n, outcomes.drop_first())
    }
}

/// An upper bound on the number of steps left before `Done`.
pub open spec fn steps_left(s: RecreateStep) -> nat {
    match s {
        RecreateStep::Begin => 16,
        RecreateStep::PullIssued => 15,
        RecreateStep::SuspendIssued => 14,
        RecreateStep::RenameAwayIssued => 13,
        RecreateStep::StopOldIssued => 12,
        RecreateStep::WaitOldIssued => 11,
        RecreateStep::CreateIssued => 10,
        RecreateStep::ConnectIssued => 9,
        RecreateStep::StartNewIssued => 8,
        RecreateStep::RemoveNewIssued => 7,
        RecreateStep::RenameBackIssued => 6,
        RecreateStep::StartOldIssued => 5,
        RecreateStep::RemoveOldIssued => 4,
        RecreateStep::WaitRemovedIssued => 3,
        RecreateStep::RemoveImageIssued => 2,
        RecreateStep::ResumeIssued => 1,
        RecreateStep::Done => 0,
    }
}


/// Steps between suspending and resuming polling.
pub open spec fn is_middle(s: RecreateStep) -> bool {
    s != RecreateStep::Begin && s != RecreateStep::PullIssued && s != RecreateStep::SuspendIssued && s
        != RecreateStep::ResumeIssued && s != RecreateStep::Done
}

/// Polling is resumed exactly once: every step before is one between suspending and
/// resuming, every step after is `Done`.
pub open spec fn resumes_once(trace: Seq<RecreateStep>) -> bool {
    exists|j: int|
        0 <= j < trace.len() && trace[j] == RecreateStep::ResumeIssued && (forall|i: int|
            0 <= i < j ==> is_middle(#[trigger] trace[i])) && (forall|i: int|
            j < i < trace.len() ==> #[trigger] trace[i] == RecreateStep::Done)
}

/// One step is visited per outcome.
pub proof fn lemma_run_steps_len(f: RecreateFlags, s: RecreateStep, outcomes: Seq<bool>)
    ensures
        run_steps(f, s, outcomes).len() == outcomes.len(),
    decreases outcomes.len(),
{
    if outcomes.len() > 0 {
        lemma_run_steps_len(f, next_step(f, s, outcomes[0]), outcomes.drop_first());
    }
}

/// The first visited step follows from the starting step.
pub proof fn lemma_run_steps_first(f: RecreateFlags, s: RecreateStep, outcomes: Seq<bool>)
    requires
        outcomes.len() > 0,
    ensures
        run_steps(f, s, outcomes)[0] == next_step(f, s, outcomes[0]),
{
}

/// Each visited step follows from the one before by `next_step`.
pub proof fn lemma_run_steps_at(f: RecreateFlags, s: RecreateStep, outcomes: Seq<bool>, i: int)
    requires
        1 <= i < outcomes.len(),
    ensures
        run_steps(f, s, outcomes)[i] == next_step(f, run_steps(f, s, outcomes)[i - 1], outcomes[i]),
    decreases outcomes.len(),
{
    let n = next_step(f, s, outcomes[0]);
    let rest = outcomes.drop_first();
    let t = run_steps(f, s, outcomes);
    let tr = run_steps(f, n, rest);
    lemma_run_steps_len(f, n, rest);
    assert(t =~= seq![n] + tr);
    if i > 1 {
        lemma_run_steps_at(f, n, rest, i - 1);
    } else {
        lemma_run_steps_first(f, n, rest);
    }
}

/// Once polling is resumed, or all is done, only `Done` follows.
proof fn lemma_done_after_resume(f: RecreateFlags, s: RecreateStep, outcomes: Seq<bool>)
    requires
        s == RecreateStep::ResumeIssued || s == RecreateStep::Done,
    ensures
        forall|i: int| 0 <= i < outcomes.len() ==> #[trigger] run_steps(f, s, outcomes)[i] == RecreateStep::Done,
    decreases outcomes.len(),
{
    if outcomes.len() > 0 {
        let rest = outcomes.drop_first();
        lemma_done_after_resume(f, RecreateStep::Done, rest);
        let t = run_steps(f, s, outcomes);
        let tr = run_steps(f, RecreateStep::Done, rest);
        lemma_run_steps_len(f, RecreateStep::Done, rest);
        assert(t =~= seq![RecreateStep::Done] + tr);
        assert forall|i: int| 0 <= i < outcomes.len() implies #[trigger] t[i] == RecreateStep::Done by {
            if i > 0 {
                assert(t[i] == tr[i - 1]);
                assert(tr[i - 1] == RecreateStep::Done);
            }
        }
    }
}

/// From suspended polling, or a step after it, enough outcomes lead to resuming
/// polling exactly once, within the steps left.
proof fn lemma_resumes_once(f: RecreateFlags, s: RecreateStep, outcomes: Seq<bool>)
    requires
        is_middle(s) || s == RecreateStep::SuspendIssued,
        outcomes.len() >= steps_left(s),
    ensures
        resumes_once(run_steps(f, s, outcomes)),
        forall|i: int| steps_left(s) - 1 <= i < outcomes.len() ==> #[trigger] run_steps(f, s, outcomes)[i]
            == RecreateStep::Done,
    decreases outcomes.len(),
{
    let n = next_step(f, s, outcomes[0]);
    let rest = outcomes.drop_first();
    let t = run_steps(f, s, outcomes);
    let tr = run_steps(f, n, rest);
    lemma_run_steps_len(f, n, rest);
    assert(t =~= seq![n] + tr);
    assert(steps_left(n) < steps_left(s));
    if n == RecreateStep::ResumeIssued {
        lemma_done_after_resume(f, n, rest);
        assert(t[0] == RecreateStep::ResumeIssued);
        assert forall|i: int| 0 < i < t.len() implies #[trigger] t[i] == RecreateStep::Done by {
            assert(t[i] == tr[i - 1]);
            assert(tr[i - 1] == RecreateStep::Done);
        }
        assert(resumes_once(t));
    } else {
        assert(is_middle(n));
        lemma_resumes_once(f, n, rest);
        let j = choose|j: int|
            0 <= j < tr.len() && tr[j] == RecreateStep::ResumeIssued && (forall|i: int|
                0 <= i < j ==> is_middle(#[trigger] tr[i])) && (forall|i: int|
                j < i < tr.len() ==> #[trigger] tr[i] == RecreateStep::Done);
        assert(t[j + 1] == RecreateStep::ResumeIssued);
        assert forall|i: int| 0 <= i < j + 1 implies is_middle(#[trigger] t[i]) by {
            if i > 0 {
                assert(t[i] == tr[i - 1]);
            }
        }
        assert forall|i: int| j + 1 < i < t.len() implies #[trigger] t[i] == RecreateStep::Done by {
            assert(t[i] == tr[i - 1]);
        }
        assert(resumes_once(t));
        assert forall|i: int| steps_left(s) - 1 <= i < outcomes.len() implies #[trigger] t[i] == RecreateStep::Done by {
            assert(t[i] == tr[i - 1]);
        }
    }
}

/// A recreation first pulls the image, if it is to, and gives up at once when the pull
/// fails, before polling was suspended. Otherwise it suspends polling and, whatever the
/// outcomes of the Docker operations, resumes it exactly once, after which nothing
/// more happens; polling is suspended only that once. After at most 16 steps it is
/// done.
pub proof fn recreation_resumes_polling_once(f: RecreateFlags, outcomes: Seq<bool>)
    requires
        outcomes.len() >= 16,
    ensures
        ({
            let t = run_steps(f, RecreateStep::Begin, outcomes);
            let s = if f.pull { 1int } else { 0int };
            &&& f.pull ==> t[0] == RecreateStep::PullIssued
            &&& (f.pull && !outcomes[1]) ==> forall|i: int| 1 <= i < t.len() ==> #[trigger] t[i] == RecreateStep::Done
            &&& (!f.pull || outcomes[1]) ==> {
                &&& t[s] == RecreateStep::SuspendIssued
                &&& resumes_once(t.skip(s + 1))
                &&& forall|i: int| 0 <= i < t.len() && #[trigger] t[i] == RecreateStep::SuspendIssued ==> i == s
            }
            &&& t.last() == RecreateStep::Done
        }),
{
    let t = run_steps(f, RecreateStep::Begin, outcomes);
    lemma_run_steps_len(f, RecreateStep::Begin, outcomes);
    let s: int = if f.pull { 1 } else { 0 };
    // the steps from the first one on
    let r1 = outcomes.drop_first();
    let first = next_step(f, RecreateStep::Begin, outcomes[0]);
    let t1 = run_steps(f, first, r1);
    lemma_run_steps_len(f, first, r1);
    assert(t =~= seq![first] + t1);
    if f.pull {
        assert(first == RecreateStep::PullIssued);
        let r2 = r1.drop_first();
        let second = next_step(f, RecreateStep::PullIssued, r1[0]);
        let t2 = run_steps(f, second, r2);
        lemma_run_steps_len(f, second, r2);
        assert(t1 =~= seq![second] + t2);
        assert(r1[0] == outcomes[1]);
        if !outcomes[1] {
            lemma_done_after_resume(f, RecreateStep::Done, r2);
            assert forall|i: int| 1 <= i < t.len() implies #[trigger] t[i] == RecreateStep::Done by {
                if i >= 2 {
                    assert(t[i] == t2[i - 2]);
                }
            }
        } else {
            assert(second == RecreateStep::SuspendIssued);
            lemma_resumes_once(f, RecreateStep::SuspendIssued, r2);
            assert(t.skip(2) =~= t2);
            lemma_middle_never_suspends(f, RecreateStep::SuspendIssued, r2);
            assert forall|i: int| 0 <= i < t.len() && #[trigger] t[i] == RecreateStep::SuspendIssued implies i == s by {
                if i >= 2 {
                    assert(t[i] == t2[i - 2]);
                }
            }
            assert(t2[t2.len() - 1] == RecreateStep::Done);
        }
    } else {
        assert(first == RecreateStep::SuspendIssued);
        lemma_resumes_once(f, RecreateStep::SuspendIssued, r1);
        assert(t.skip(1) =~= t1);
        lemma_middle_never_suspends(f, RecreateStep::SuspendIssued, r1);
        assert forall|i: int| 0 <= i < t.len() && #[trigger] t[i] == RecreateStep::SuspendIssued implies i == s by {
            if i >= 1 {
                assert(t[i] == t1[i - 1]);
            }
        }
        assert(t1[t1.len() - 1] == RecreateStep::Done);
    }
}

/// After polling is suspended, it is never suspended again.
proof fn lemma_middle_never_suspends(f: RecreateFlags, s: RecreateStep, outcomes: Seq<bool>)
    requires
        is_middle(s) || s == RecreateStep::SuspendIssued || s == RecreateStep::ResumeIssued || s
            == RecreateStep::Done,
    ensures
        forall|i: int| 0 <= i < outcomes.len() ==> #[trigger] run_steps(f, s, outcomes)[i]
            != RecreateStep::SuspendIssued,
    decreases outcomes.len(),
{
    if outcomes.len() > 0 {
        let n = next_step(f, s, outcomes[0]);
        let rest = outcomes.drop_first();
        let t = run_steps(f, s, outcomes);
        let tr = run_steps(f, n, rest);
        lemma_run_steps_len(f, n, rest);
        assert(t =~= seq![n] + tr);
        lemma_middle_never_suspends(f, n, rest);
        assert forall|i: int| 0 <= i < outcomes.len() implies #[trigger] t[i] != RecreateStep::SuspendIssued by {
            if i > 0 {
                assert(t[i] == tr[i - 1]);
            }
        }
    }
}

/// The old container is removed only after the new one was created and started
/// successfully.
pub proof fn old_container_removed_only_after_new_started(f: RecreateFlags, outcomes: Seq<bool>, i: int)
    requires
        0 <= i < outcomes.len(),
        run_steps(f, RecreateStep::Begin, outcomes)[i] == RecreateStep::RemoveOldIssued,
    ensures
        i >= 2,
        run_steps(f, RecreateStep::Begin, outcomes)[i - 1] == RecreateStep::StartNewIssued,
        outcomes[i],
        exists|k: int|
            0 <= k < i - 1 && #[trigger] run_steps(f, RecreateStep::Begin, outcomes)[k] == RecreateStep::CreateIssued
                && outcomes[k + 1],
{
    let t = run_steps(f, RecreateStep::Begin, outcomes);
    lemma_run_steps_len(f, RecreateStep::Begin, outcomes);
    lemma_run_steps_first(f, RecreateStep::Begin, outcomes);
    assert(i >= 1);
    lemma_run_steps_at(f, RecreateStep::Begin, outcomes, i);
    assert(t[i - 1] == RecreateStep::StartNewIssued);
    assert(i - 1 >= 1);
    lemma_run_steps_at(f, RecreateStep::Begin, outcomes, i - 1);
    if t[i - 2] == RecreateStep::CreateIssued {
        assert(outcomes[i - 1]);
        assert(outcomes[(i - 2) + 1]);
    } else {
        assert(t[i - 2] == RecreateStep::ConnectIssued);
        assert(i - 2 >= 1);
        lemma_run_steps_at(f, RecreateStep::Begin, outcomes, i - 2);
        assert(t[i - 3] == RecreateStep::CreateIssued && outcomes[i - 2]);
        assert(outcomes[(i - 3) + 1]);
    }
}

/// When the new container cannot be created, or cannot be started and is removed,
/// the old container gets its name back and is started again, and then polling is
/// resumed.
pub proof fn failed_recreation_restores_old_container(f: RecreateFlags, outcomes: Seq<bool>, k: int)
    requires
        0 <= k,
        k + 3 < outcomes.len(),
        ({
            let t = run_steps(f, RecreateStep::Begin, outcomes);
            (t[k] == RecreateStep::CreateIssued && !outcomes[k + 1]) || (t[k] == RecreateStep::RemoveNewIssued
                && outcomes[k + 1])
        }),
    ensures
        run_steps(f, RecreateStep::Begin, outcomes)[k + 1] == RecreateStep::RenameBackIssued,
        run_steps(f, RecreateStep::Begin, outcomes)[k + 2] == RecreateStep::StartOldIssued,
        run_steps(f, RecreateStep::Begin, outcomes)[k + 3] == RecreateStep::ResumeIssued,
{
    lemma_run_steps_at(f, RecreateStep::Begin, outcomes, k + 1);
    lemma_run_steps_at(f, RecreateStep::Begin, outcomes, k + 2);
    lemma_run_steps_at(f, RecreateStep::Begin, outcomes, k + 3);
}


/// The image reference to pull: a reference without a tag gets `:latest`, so that
/// not every tag of the image is pulled.
pub open spec fn pulled_ref(image: Seq<char>) -> Seq<char> {
    if contains_seq(image, ":"@) {
        image
    } else {
        image + ":latest"@
    }
}

/// The image reference to pull for `image`.
pub fn image_to_pull(image: &str) -> (r: String)
    ensures
        r@ == pulled_ref(image@),
{
    if contains_str(image, ":") {
        to_owned_string(image)
    } else {
        to_owned_string(image).concat(":latest")
    }
}

/// The fields of a container configuration that are compared with the image's.
pub struct ConfigFields {
    pub cmd: Option<Vec<String>>,
    pub entrypoint: Option<Vec<String>>,
    pub user: Option<String>,
    pub working_dir: Option<String>,
    pub env: Option<Vec<String>>,
    pub labels: Option<Vec<(String, String)>>,
    /// The keys of the volumes map.
    pub volumes: Option<Vec<String>>,
    /// The keys of the exposed ports map.
    pub exposed_ports: Option<Vec<String>>,
}

/// The views of an optional list of strings.
pub open spec fn opt_views(o: Option<Vec<String>>) -> Option<Seq<Seq<char>>> {
    match o {
        Some(v) => Some(views(v@)),
        None => None,
    }
}

/// The views of an optional string.
pub open spec fn opt_str(o: Option<String>) -> Option<Seq<char>> {
    match o {
        Some(v) => Some(v@),
        None => None,
    }
}

/// The views of a list of labels.
pub open spec fn label_views(v: Seq<(String, String)>) -> Seq<(Seq<char>, Seq<char>)> {
    v.map_values(|p: (String, String)| (p.0@, p.1@))
}

/// The elements of `xs` that do not occur in `ys`, in order.
pub open spec fn keep_not_in(xs: Seq<Seq<char>>, ys: Seq<Seq<char>>) -> Seq<Seq<char>>
    decreases xs.len(),
{
    if xs.len() == 0 {
        Seq::empty()
    } else if ys.contains(xs.last()) {
        keep_not_in(xs.drop_last(), ys)
    } else {
        keep_not_in(xs.drop_last(), ys).push(xs.last())
    }
}

/// The labels of `xs` whose value differs from the image's value of the same key (or
/// that the image lacks), in order.
pub open spec fn keep_changed_labels(xs: Seq<(String, String)>, image: Seq<(String, String)>) -> Seq<
    (Seq<char>, Seq<char>),
>
    decreases xs.len(),
{
    if xs.len() == 0 {
        Seq::empty()
    } else if label_value(image, xs.last().0@) == Some(xs.last().1@) {
        keep_changed_labels(xs.drop_last(), image)
    } else {
        keep_changed_labels(xs.drop_last(), image).push((xs.last().0@, xs.last().1@))
    }
}

/// An optional value taken over from the image is dropped: none when equal to the
/// image's, kept otherwise.
pub open spec fn unless_equal<T>(x: Option<T>, image: Option<T>) -> Option<T> {
    if x == image {
        None
    } else {
        x
    }
}

/// A list is filtered against the image's list when both are present.
pub open spec fn filtered_list(x: Option<Vec<String>>, image: Option<Vec<String>>) -> Option<Seq<Seq<char>>> {
    match (x, image) {
        (Some(v), Some(i)) => Some(keep_not_in(views(v@), views(i@))),
        _ => opt_views(x),
    }
}

fn strings_equal(a: &Vec<String>, b: &Vec<String>) -> (r: bool)
    ensures
        r == (views(a@) == views(b@)),
{
    if a.len() != b.len() {
        assert(views(a@).len() != views(b@).len());
        return false;
    }
    let n = a.len();
    let mut i: usize = 0;
    while i < n
        invariant
            n == a@.len(),
            n == b@.len(),
            i <= n,
            forall|k: int| 0 <= k < i ==> #[trigger] a@[k]@ == b@[k]@,
        decreases n - i,
    {
        if !str_eq(a[i].as_str(), b[i].as_str()) {
            assert(views(a@)[i as int] != views(b@)[i as int]);
            return false;
        }
        i = i + 1;
    }
    assert(views(a@) =~= views(b@));
    true
}

fn opt_strings_equal(a: &Option<Vec<String>>, b: &Option<Vec<String>>) -> (r: bool)
    ensures
        r == (opt_views(*a) == opt_views(*b)),
{
    match (a, b) {
        (Some(x), Some(y)) => strings_equal(x, y),
        (None, None) => true,
        _ => false,
    }
}

fn opt_string_equal(a: &Option<String>, b: &Option<String>) -> (r: bool)
    ensures
        r == (opt_str(*a) == opt_str(*b)),
{
    match (a, b) {
        (Some(x), Some(y)) => str_eq(x.as_str(), y.as_str()),
        (None, None) => true,
        _ => false,
    }
}

fn contains_string(v: &Vec<String>, s: &str) -> (r: bool)
    ensures
        r == views(v@).contains(s@),
{
    let n = v.len();
    let mut i: usize = 0;
    while i < n
        invariant
            n == v@.len(),
            i <= n,
            forall|k: int| 0 <= k < i ==> #[trigger] v@[k]@ != s@,
        decreases n - i,
    {
        if str_eq(v[i].as_str(), s) {
            assert(views(v@)[i as int] == s@);
            return true;
        }
        i = i + 1;
    }
    assert forall|k: int| 0 <= k < views(v@).len() implies #[trigger] views(v@)[k] != s@ by {
        assert(views(v@)[k] == v@[k]@);
    }
    false
}

fn keep_not_in_exec(xs: Vec<String>, ys: &Vec<String>) -> (r: Vec<String>)
    ensures
        views(r@) == keep_not_in(views(xs@), views(ys@)),
{
    let n = xs.len();
    let mut r: Vec<String> = Vec::new();
    let mut i: usize = 0;
    assert(views(xs@).take(0) =~= Seq::<Seq<char>>::empty());
    while i < n
        invariant
            n == xs@.len(),
            i <= n,
            views(r@) == keep_not_in(views(xs@).take(i as int), views(ys@)),
        decreases n - i,
    {
        let x = &xs[i];
        let ghost pre = views(xs@).take(i as int);
        let ghost next = views(xs@).take(i + 1);
        assert(next.drop_last() =~= pre);
        assert(next.last() == x@);
        if !contains_string(ys, x.as_str()) {
            r.push(x.clone());
            assert(views(r@) =~= keep_not_in(pre, views(ys@)).push(x@));
        }
        i = i + 1;
    }
    assert(views(xs@).take(n as int) =~= views(xs@));
    r
}

fn label_value_exec(labels: &Vec<(String, String)>, key: &str) -> (r: Option<String>)
    ensures
        opt_str(r) == label_value(labels@, key@),
{
    let n = labels.len();
    let mut i: usize = 0;
    assert(labels@.skip(0) =~= labels@);
    while i < n
        invariant
            n == labels@.len(),
            i <= n,
            label_value(labels@, key@) == label_value(labels@.skip(i as int), key@),
        decreases n - i,
    {
        assert(labels@.skip(i as int)[0] == labels@[i as int]);
        assert(labels@.skip(i as int).drop_first() =~= labels@.skip(i + 1));
        if str_eq(labels[i].0.as_str(), key) {
            return Some(labels[i].1.clone());
        }
        i = i + 1;
    }
    None
}

fn keep_changed_labels_exec(xs: Vec<(String, String)>, image: &Vec<(String, String)>) -> (r: Vec<(String, String)>)
    ensures
        label_views(r@) == keep_changed_labels(xs@, image@),
{
    let n = xs.len();
    let mut r: Vec<(String, String)> = Vec::new();
    let mut i: usize = 0;
    assert(xs@.take(0) =~= Seq::<(String, String)>::empty());
    assert(label_views(r@) =~= keep_changed_labels(xs@.take(0), image@));
    while i < n
        invariant
            n == xs@.len(),
            i <= n,
            label_views(r@) == keep_changed_labels(xs@.take(i as int), image@),
        decreases n - i,
    {
        let ghost pre = xs@.take(i as int);
        let ghost next = xs@.take(i + 1);
        assert(next.drop_last() =~= pre);
        assert(next.last() == xs@[i as int]);
        let same = match label_value_exec(image, xs[i].0.as_str()) {
            Some(v) => str_eq(v.as_str(), xs[i].1.as_str()),
            None => false,
        };
        if !same {
            r.push((xs[i].0.clone(), xs[i].1.clone()));
            assert(label_views(r@) =~= keep_changed_labels(pre, image@).push((xs@[i as int].0@, xs@[i as int].1@)));
        }
        i = i + 1;
    }
    assert(xs@.take(n as int) =~= xs@);
    r
}

/// The configuration of the new container: settings it would inherit from the image
/// anyway are left out. Command, entrypoint, user and working directory are dropped
/// when equal to the image's; environment entries, volumes and exposed ports the
/// image has are dropped; labels the image has with the same value are dropped.
pub fn strip_image_defaults(config: ConfigFields, image: &ConfigFields) -> (r: ConfigFields)
    ensures
        opt_views(r.cmd) == (if opt_views(config.cmd) == opt_views(image.cmd) { None } else { opt_views(config.cmd) }),
        opt_views(r.entrypoint) == (if opt_views(config.entrypoint) == opt_views(image.entrypoint) {
            None
        } else {
            opt_views(config.entrypoint)
        }),
        opt_str(r.user) == unless_equal(opt_str(config.user), opt_str(image.user)),
        opt_str(r.working_dir) == unless_equal(opt_str(config.working_dir), opt_str(image.working_dir)),
        opt_views(r.env) == filtered_list(config.env, image.env),
        opt_views(r.volumes) == filtered_list(config.volumes, image.volumes),
        opt_views(r.exposed_ports) == filtered_list(config.exposed_ports, image.exposed_ports),
        match (config.labels, image.labels) {
            (Some(c), Some(i)) => r.labels matches Some(l) && label_views(l@) == keep_changed_labels(c@, i@),
            _ => r.labels == config.labels,
        },
{
    let ConfigFields { cmd, entrypoint, user, working_dir, env, labels, volumes, exposed_ports } = config;
    let cmd = if opt_strings_equal(&cmd, &image.cmd) { None } else { cmd };
    let entrypoint = if opt_strings_equal(&entrypoint, &image.entrypoint) { None } else { entrypoint };
    let user = if opt_string_equal(&user, &image.user) { None } else { user };
    let working_dir = if opt_string_equal(&working_dir, &image.working_dir) { None } else { working_dir };
    let env = match (env, &image.env) {
        (Some(e), Some(i)) => Some(keep_not_in_exec(e, i)),
        (e, _) => e,
    };
    let volumes = match (volumes, &image.volumes) {
        (Some(e), Some(i)) => Some(keep_not_in_exec(e, i)),
        (e, _) => e,
    };
    let exposed_ports = match (exposed_ports, &image.exposed_ports) {
        (Some(e), Some(i)) => Some(keep_not_in_exec(e, i)),
        (e, _) => e,
    };
    let labels = match (labels, &image.labels) {
        (Some(l), Some(i)) => Some(keep_changed_labels_exec(l, i)),
        (l, _) => l,
    };
    ConfigFields { cmd, entrypoint, user, working_dir, env, labels, volumes, exposed_ports }
}


/// A mount of the old container.
pub struct MountPoint {
    /// The mount is a volume.
    pub is_volume: bool,
    pub name: Option<String>,
    pub destination: Option<String>,
}

/// The bind of a volume mount: `<volume name>:<destination>`.
pub open spec fn volume_bind(m: MountPoint) -> Option<Seq<char>> {
    if m.is_volume && m.name is Some && m.destination is Some {
        Some(m.name->0@ + ":"@ + m.destination->0@)
    } else {
        None
    }
}

/// The binds of the volume mounts that are not bound yet, in order.
pub open spec fn anonymous_binds(mounts: Seq<MountPoint>, binds: Option<Seq<Seq<char>>>) -> Seq<Seq<char>>
    decreases mounts.len(),
{
    if mounts.len() == 0 {
        Seq::empty()
    } else {
        let init = anonymous_binds(mounts.drop_last(), binds);
        match volume_bind(mounts.last()) {
            Some(b) => if binds matches Some(cur) && cur.contains(b) {
                init
            } else {
                init.push(b)
            },
            None => init,
        }
    }
}

/// The binds of the new container: those of the old one, followed by a bind for each
/// volume of the old container that is not bound yet, so that anonymous volumes are
/// taken over. Without such volumes the binds stay as they are.
pub fn take_over_anonymous_volumes(mounts: &Vec<MountPoint>, binds: Option<Vec<String>>) -> (r: Option<
    Vec<String>,
>)
    ensures
        anonymous_binds(mounts@, opt_views(binds)).len() == 0 ==> r == binds,
        anonymous_binds(mounts@, opt_views(binds)).len() > 0 ==> (r matches Some(v) && views(v@) == (match binds {
            Some(b) => views(b@),
            None => Seq::empty(),
        }) + anonymous_binds(mounts@, opt_views(binds))),
{
    let n = mounts.len();
    let mut anon: Vec<String> = Vec::new();
    let mut i: usize = 0;
    assert(mounts@.take(0) =~= Seq::<MountPoint>::empty());
    while i < n
        invariant
            n == mounts@.len(),
            i <= n,
            views(anon@) == anonymous_binds(mounts@.take(i as int), opt_views(binds)),
        decreases n - i,
    {
        let m = &mounts[i];
        let ghost pre = mounts@.take(i as int);
        let ghost next = mounts@.take(i + 1);
        assert(next.drop_last() =~= pre);
        assert(next.last() == *m);
        if m.is_volume {
            match (&m.name, &m.destination) {
                (Some(name), Some(dest)) => {
                    let bind = name.clone().concat(":").concat(dest.as_str());
                    let bound = match &binds {
                        Some(cur) => contains_string(cur, bind.as_str()),
                        None => false,
                    };
                    if !bound {
                        anon.push(bind);
                        assert(views(anon@) =~= anonymous_binds(pre, opt_views(binds)).push(volume_bind(*m)->0));
                    }
                },
                _ => {},
            }
        }
        i = i + 1;
    }
    assert(mounts@.take(n as int) =~= mounts@);
    if anon.len() == 0 {
        return binds;
    }
    let mut result = match binds {
        Some(b) => b,
        None => Vec::new(),
    };
    let ghost start = views(result@);
    let m = anon.len();
    let mut j: usize = 0;
    while j < m
        invariant
            m == anon@.len(),
            j <= m,
            views(result@) == start + views(anon@).take(j as int),
        decreases m - j,
    {
        let ghost before = views(result@);
        result.push(anon[j].clone());
        assert(views(result@) =~= before.push(anon@[j as int]@));
        assert(views(anon@).take(j + 1) =~= views(anon@).take(j as int).push(anon@[j as int]@));
        assert(views(result@) =~= start + views(anon@).take(j + 1));
        j = j + 1;
    }
    assert(views(anon@).take(m as int) =~= views(anon@));
    Some(result)
}

/// The number of bytes of a character in UTF-8.
pub open spec fn utf8_width(c: char) -> int {
    if (c as u32) < 0x80 {
        1
    } else if (c as u32) < 0x800 {
        2
    } else if (c as u32) < 0x10000 {
        3
    } else {
        4
    }
}

/// The number of bytes of a string in UTF-8.
pub open spec fn utf8_len(s: Seq<char>) -> int
    decreases s.len(),
{
    if s.len() == 0 {
        0
    } else {
        utf8_len(s.drop_last()) + utf8_width(s.last())
    }
}

/// The first `n` bytes of `s` end at a character boundary: slicing `s` to `n` bytes
/// does not panic.
pub open spec fn has_cut_at(s: Seq<char>, n: int) -> bool {
    exists|k: int| 0 <= k <= s.len() && #[trigger] utf8_len(s.take(k)) == n
}

/// The characters that make up the first `n` bytes of `s`, where `has_cut_at(s, n)`.
pub open spec fn chars_in_bytes(s: Seq<char>, n: int) -> Seq<char> {
    s.take(choose|k: int| 0 <= k <= s.len() && #[trigger] utf8_len(s.take(k)) == n)
}

proof fn lemma_utf8_take_step(s: Seq<char>, k: int)
    requires
        0 <= k < s.len(),
    ensures
        utf8_len(s.take(k + 1)) == utf8_len(s.take(k)) + utf8_width(s[k]),
{
    assert(s.take(k + 1).drop_last() =~= s.take(k));
}

/// Longer prefixes have more bytes.
proof fn lemma_utf8_take_increasing(s: Seq<char>, j: int, k: int)
    requires
        0 <= j < k <= s.len(),
    ensures
        utf8_len(s.take(j)) < utf8_len(s.take(k)),
    decreases k - j,
{
    lemma_utf8_take_step(s, k - 1);
    if j < k - 1 {
        lemma_utf8_take_increasing(s, j, k - 1);
    }
}

/// The number of bytes of a character in UTF-8.
fn char_width(c: char) -> (w: usize)
    ensures
        w == utf8_width(c),
{
    let v = c as u32;
    if v < 0x80 {
        1
    } else if v < 0x800 {
        2
    } else if v < 0x10000 {
        3
    } else {
        4
    }
}

/// The hostname of the new container: dropped when it is Docker's default, the first
/// 12 bytes of the container id. Slicing the id there must not cut a character.
pub fn hostname_to_keep(id: Option<&str>, hostname: Option<String>) -> (r: Option<String>)
    requires
        match (id, hostname) {
            (Some(i), Some(_)) => has_cut_at(i@, 12),
            _ => true,
        },
    ensures
        match (id, hostname) {
            (Some(i), Some(h)) => if chars_in_bytes(i@, 12) == h@ { r is None } else { r == hostname },
            _ => r == hostname,
        },
{
    match (id, &hostname) {
        (Some(i), Some(h)) => {
            let n = i.unicode_len();
            let mut k: usize = 0;
            let mut b: usize = 0;
            assert(i@.take(0) =~= Seq::<char>::empty());
            while b < 12 && k < n
                invariant
                    n == i@.len(),
                    k <= n,
                    b == utf8_len(i@.take(k as int)),
                    b <= 15,
                    k > 0 ==> utf8_len(i@.take(k - 1)) < 12,
                decreases n - k,
            {
                let w = char_width(i.get_char(k));
                proof {
                    lemma_utf8_take_step(i@, k as int);
                }
                b = b + w;
                k = k + 1;
            }
            proof {
                let c = choose|c: int| 0 <= c <= i@.len() && #[trigger] utf8_len(i@.take(c)) == 12;
                if c < k {
                    lemma_utf8_take_increasing(i@, c, k as int);
                    if c < k - 1 {
                        lemma_utf8_take_increasing(i@, c, k - 1);
                    }
                } else if c > k {
                    lemma_utf8_take_increasing(i@, k as int, c);
                }
                assert(c == k);
                assert(chars_in_bytes(i@, 12) == i@.take(k as int));
            }
            let short = i.substring_char(0, k);
            assert(i@.subrange(0, k as int) =~= i@.take(k as int));
            if str_eq(short, h.as_str()) {
                None
            } else {
                hostname
            }
        },
        _ => hostname,
    }
}

/// After pulling, the old image is removed when the pulled tag now names another
/// image: an old id of the form `sha256:<digest>` gives the digest to remove. When
/// the pulled image reports no id, it counts as unchanged.
pub open spec fn superseded_image(old_id: Seq<char>, new_id: Option<Seq<char>>) -> Option<Seq<char>> {
    let new = match new_id {
        Some(n) => n,
        None => old_id,
    };
    if new != old_id && has_prefix(old_id, "sha256:"@) {
        Some(old_id.skip(7))
    } else {
        None
    }
}

/// The image to remove after a pull, if any.
pub fn old_image_to_remove(old_id: &str, new_id: Option<&str>) -> (r: Option<String>)
    ensures
        opt_str(r) == superseded_image(old_id@, match new_id {
            Some(n) => Some(n@),
            None => None,
        }),
{
    proof {
        reveal_strlit("sha256:");
    }
    let changed = match new_id {
        Some(n) => !str_eq(n, old_id),
        None => false,
    };
    if changed && starts_with(old_id, "sha256:") {
        let len = old_id.unicode_len();
        assert(old_id@.subrange(7, len as int) =~= old_id@.skip(7));
        Some(to_owned_string(old_id.substring_char(7, len)))
    } else {
        None
    }
}

} // verus!
