//! What holds of every run of the job, stated over sequences of events.

use vstd::prelude::*;
use crate::config::JobConfig;
use crate::transcript::ShellCommand;
use crate::transcript::spec_awaits_session_end;
use crate::job::Event;
use crate::job::JobError;
use crate::job::JobState;
use crate::job::Action;
use crate::job::spec_step;
use crate::job::spec_failure_of;
use crate::job::spec_action_for;

verus! {

/// The state a job starting in `s` reaches after the events `evs`, oldest
/// first.
pub open spec fn spec_run(s: JobState, evs: Seq<Event>) -> JobState
    decreases evs.len(),
{
    if evs.len() == 0 {
        s
    } else {
        spec_run(spec_step(s, evs[0]), evs.drop_first())
    }
}

/// Running one event past `evs` is stepping once from where `evs` led.
pub proof fn lemma_run_snoc(s: JobState, evs: Seq<Event>, ev: Event)
    ensures
        spec_run(s, evs.push(ev)) == spec_step(spec_run(s, evs), ev),
    decreases evs.len(),
{
    let all = evs.push(ev);
    if evs.len() == 0 {
        assert(all[0] == ev);
        assert(all.drop_first() =~= Seq::<Event>::empty());
        assert(spec_run(s, all) == spec_run(spec_step(s, ev), all.drop_first()));
        assert(spec_run(spec_step(s, ev), all.drop_first()) == spec_step(s, ev));
        assert(spec_run(s, evs) == s);
    } else {
        assert(all[0] == evs[0]);
        assert(all.drop_first() =~= evs.drop_first().push(ev));
        assert(spec_run(s, all) == spec_run(spec_step(s, evs[0]), all.drop_first()));
        lemma_run_snoc(spec_step(s, evs[0]), evs.drop_first(), ev);
        assert(spec_run(s, evs) == spec_run(spec_step(s, evs[0]), evs.drop_first()));
    }
}

/// A failed job stays failed, with the same error, whatever happens next.
pub proof fn lemma_failed_absorbs(err: JobError, evs: Seq<Event>)
    ensures
        spec_run(JobState::Failed(err), evs) == JobState::Failed(err),
    decreases evs.len(),
{
    if evs.len() > 0 {
        lemma_failed_absorbs(err, evs.drop_first());
    }
}

/// A finished job, well or badly, asks the driver for nothing.
pub proof fn lemma_terminal_asks_nothing(cfg: JobConfig, st: JobState, a: Action)
    requires
        st is Done || st is Failed,
    ensures
        !spec_action_for(cfg, st, a),
{
}

/// The first failure is final: if the pending action of a live state fails,
/// the job stands at that step's error after every later prefix of events —
/// so, with [`lemma_terminal_asks_nothing`], nothing further is ever spawned,
/// sent or awaited.
pub proof fn lemma_failure_halts(st: JobState, evs: Seq<Event>)
    requires
        !(st is Done),
        !(st is Failed),
        evs.len() >= 1,
        evs[0] is Failed,
    ensures
        forall|k: int|
            1 <= k <= evs.len() ==> spec_run(st, #[trigger] evs.take(k)) == JobState::Failed(
                spec_failure_of(st),
            ),
{
    assert forall|k: int| 1 <= k <= evs.len() implies spec_run(st, #[trigger] evs.take(k))
        == JobState::Failed(spec_failure_of(st)) by {
        let t = evs.take(k);
        assert(t[0] == evs[0]);
        lemma_failed_absorbs(spec_failure_of(st), t.drop_first());
    }
}

/// If the copy step fails — the copy process cannot be spawned, or gives no
/// end-of-output in time — the extract step is never attempted: the job is
/// failed from then on and never reaches a state that spawns the shell or
/// sends a command.
pub proof fn lemma_copy_failure_blocks_extraction(st: JobState, evs: Seq<Event>)
    requires
        st is Ready || st is CopyWait,
        evs.len() >= 1,
        evs[0] is Failed,
    ensures
        forall|k: int|
            1 <= k <= evs.len() ==> spec_run(st, #[trigger] evs.take(k)) == JobState::Failed(
                if st is Ready {
                    JobError::CopySpawnFailed
                } else {
                    JobError::CopyTimedOut
                },
            ),
{
    lemma_failure_halts(st, evs);
}

/// If any send/expect exchange of the extract step runs out — no prompt (or,
/// after `exit`, no end-of-output) appears in time — the job halts at that
/// exchange's error and no later transcript command is ever sent.
pub proof fn lemma_exchange_timeout_halts(cmd: ShellCommand, evs: Seq<Event>)
    requires
        evs.len() >= 1,
        evs[0] is Failed,
    ensures
        forall|k: int|
            1 <= k <= evs.len() ==> spec_run(JobState::AwaitReply(cmd), #[trigger] evs.take(k))
                == JobState::Failed(
                if spec_awaits_session_end(cmd) {
                    JobError::SessionEndTimedOut
                } else {
                    JobError::PromptTimedOut(cmd)
                },
            ),
{
    lemma_failure_halts(JobState::AwaitReply(cmd), evs);
}

/// The states a fully successful run visits, in order: first the three copy
/// states, then the send/await pair of each transcript command in sending
/// order, then `Done`.
pub open spec fn success_state_at(k: int) -> JobState {
    if k <= 0 {
        JobState::Ready
    } else if k == 1 {
        JobState::CopyWait
    } else if k == 2 {
        JobState::ShellStart
    } else if k == 3 {
        JobState::SendCmd(ShellCommand::ChangeDir)
    } else if k == 4 {
        JobState::AwaitReply(ShellCommand::ChangeDir)
    } else if k == 5 {
        JobState::SendCmd(ShellCommand::RemoveAll)
    } else if k == 6 {
        JobState::AwaitReply(ShellCommand::RemoveAll)
    } else if k == 7 {
        JobState::SendCmd(ShellCommand::CopyTarball)
    } else if k == 8 {
        JobState::AwaitReply(ShellCommand::CopyTarball)
    } else if k == 9 {
        JobState::SendCmd(ShellCommand::ExtractTarball)
    } else if k == 10 {
        JobState::AwaitReply(ShellCommand::ExtractTarball)
    } else if k == 11 {
        JobState::SendCmd(ShellCommand::Exit)
    } else if k == 12 {
        JobState::AwaitReply(ShellCommand::Exit)
    } else {
        JobState::Done
    }
}

/// How many events a fully successful run takes.
pub open spec fn success_event_count() -> int {
    13
}

/// A successful run's shape is fixed: thirteen success events drive the job
/// from `Ready` to `Done`, and after `k` of them it stands exactly at the
/// `k`-th state of the success path — copy spawned and finished first, then
/// each transcript command sent and acknowledged in order, then `Done`.
pub proof fn lemma_success_path(evs: Seq<Event>)
    requires
        evs.len() == success_event_count(),
        forall|i: int| 0 <= i < evs.len() ==> evs[i] is Succeeded,
    ensures
        forall|k: int|
            0 <= k <= evs.len() ==> spec_run(JobState::Ready, #[trigger] evs.take(k))
                == success_state_at(k),
        spec_run(JobState::Ready, evs) is Done,
{
    assert forall|k: int| 0 <= k <= evs.len() implies spec_run(JobState::Ready, #[trigger] evs.take(
        k,
    )) == success_state_at(k) by {
        lemma_success_prefix(evs, k);
    }
    assert(evs.take(success_event_count()) =~= evs);
    lemma_success_prefix(evs, success_event_count());
}

/// After `k` success events the job stands at the `k`-th state of the
/// success path.
proof fn lemma_success_prefix(evs: Seq<Event>, k: int)
    requires
        0 <= k <= success_event_count(),
        k <= evs.len(),
        forall|i: int| 0 <= i < evs.len() ==> evs[i] is Succeeded,
    ensures
        spec_run(JobState::Ready, evs.take(k)) == success_state_at(k),
    decreases k,
{
    if k == 0 {
        assert(evs.take(0) =~= Seq::<Event>::empty());
    } else {
        lemma_success_prefix(evs, k - 1);
        assert(evs.take(k) =~= evs.take(k - 1).push(evs[k - 1]));
        lemma_run_snoc(JobState::Ready, evs.take(k - 1), evs[k - 1]);
    }
}

} // verus!
