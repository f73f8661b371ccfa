//! Laws of a run's lifecycle: what the status rows of its jobs go through,
//! over any sequence of job exits and cancels.

use vstd::prelude::*;
use crate::forge::StatusState;
use crate::runner::{
    initial_state, is_lifecycle_prefix, next_state, stage_log, stage_of, stage_rank,
    start_updates, state_after, state_wf, transition_updates, updates_after, updates_for,
    JobExit, JobStage, RunEvent, RunOutcome, RunState,
};

verus! {

proof fn lemma_updates_for_add(a: Seq<(int, JobStage)>, b: Seq<(int, JobStage)>, j: int)
    ensures
        updates_for(a + b, j) == updates_for(a, j) + updates_for(b, j),
    decreases b.len(),
{
    if b.len() == 0 {
        assert(a + b =~= a);
        assert(updates_for(a, j) + updates_for(b, j) =~= updates_for(a, j));
    } else {
        assert((a + b).drop_last() =~= a + b.drop_last());
        lemma_updates_for_add(a, b.drop_last(), j);
        if b.last().0 == j {
            assert(updates_for(a, j) + updates_for(b.drop_last(), j).push(b.last().1) =~= (
            updates_for(a, j) + updates_for(b.drop_last(), j)).push(b.last().1));
        }
    }
}

proof fn lemma_updates_for_one(x: (int, JobStage), j: int)
    ensures
        updates_for(seq![x], j) == if x.0 == j {
            seq![x.1]
        } else {
            Seq::<JobStage>::empty()
        },
{
    assert(seq![x].drop_last() =~= Seq::<(int, JobStage)>::empty());
    assert(updates_for(Seq::<(int, JobStage)>::empty(), j) == Seq::<JobStage>::empty());
    assert(seq![x].last() == x);
    assert(Seq::<JobStage>::empty().push(x.1) =~= seq![x.1]);
}

proof fn lemma_seed_updates(m: nat, j: int)
    ensures
        updates_for(Seq::new(m, |i: int| (i, JobStage::Waiting)), j) == if 0 <= j < m {
            seq![JobStage::Waiting]
        } else {
            Seq::<JobStage>::empty()
        },
    decreases m,
{
    let s = Seq::new(m, |i: int| (i, JobStage::Waiting));
    if m > 0 {
        assert(s.drop_last() =~= Seq::new((m - 1) as nat, |i: int| (i, JobStage::Waiting)));
        lemma_seed_updates((m - 1) as nat, j);
        if j == m - 1 {
            assert(Seq::<JobStage>::empty().push(JobStage::Waiting) =~= seq![JobStage::Waiting]);
        }
    }
}

/// Starting a run publishes, for each job, exactly the log of its first stage.
proof fn lemma_start_logs(n: nat, j: int)
    requires
        0 <= j < n,
    ensures
        updates_for(start_updates(n), j) == stage_log(stage_of(initial_state(n), j)),
{
    let seeds = Seq::new(n, |i: int| (i, JobStage::Waiting));
    let tail = if n > 0 {
        seq![(0int, JobStage::Running)]
    } else {
        Seq::empty()
    };
    lemma_updates_for_add(seeds, tail, j);
    lemma_seed_updates(n, j);
    lemma_updates_for_one((0int, JobStage::Running), j);
    assert(seq![JobStage::Waiting] + seq![JobStage::Running] =~= seq![
        JobStage::Waiting,
        JobStage::Running,
    ]);
    assert(seq![JobStage::Waiting] + Seq::<JobStage>::empty() =~= seq![JobStage::Waiting]);
}

/// Each step extends a job's log by exactly the updates it publishes for it.
proof fn lemma_transition_logs(state: RunState, n: nat, ev: RunEvent, j: int)
    requires
        n <= usize::MAX,
        state_wf(state, n),
        0 <= j < n,
    ensures
        stage_log(stage_of(next_state(state, n, ev), j)) == stage_log(stage_of(state, j))
            + updates_for(transition_updates(state, n, ev), j),
{
    let us = transition_updates(state, n, ev);
    let old_log = stage_log(stage_of(state, j));
    assert(updates_for(Seq::empty(), j) =~= Seq::<JobStage>::empty());
    assert(old_log + Seq::<JobStage>::empty() =~= old_log);
    match ev {
        RunEvent::Cancel => {},
        RunEvent::Exited(x) => match state {
            RunState::Running(i) => match x {
                JobExit::Success => {
                    let a = (i as int, JobStage::Finished(StatusState::Success));
                    lemma_updates_for_one(a, j);
                    if i + 1 < n {
                        let b = (i + 1, JobStage::Running);
                        lemma_updates_for_add(seq![a], seq![b], j);
                        lemma_updates_for_one(b, j);
                    } else {
                        lemma_updates_for_add(seq![a], Seq::empty(), j);
                    }
                    assert(seq![JobStage::Waiting] + seq![JobStage::Running] =~= seq![
                        JobStage::Waiting,
                        JobStage::Running,
                    ]);
                    assert(seq![JobStage::Waiting, JobStage::Running] + seq![
                        JobStage::Finished(StatusState::Success),
                    ] =~= seq![
                        JobStage::Waiting,
                        JobStage::Running,
                        JobStage::Finished(StatusState::Success),
                    ]);
                    assert(Seq::<JobStage>::empty() + Seq::<JobStage>::empty() =~= Seq::<
                        JobStage,
                    >::empty());
                    assert(Seq::<JobStage>::empty() + seq![JobStage::Running] =~= seq![
                        JobStage::Running,
                    ]);
                    assert(seq![JobStage::Finished(StatusState::Success)] + Seq::<
                        JobStage,
                    >::empty() =~= seq![JobStage::Finished(StatusState::Success)]);
                },
                JobExit::Failure => {
                    lemma_updates_for_one((i as int, JobStage::Finished(StatusState::Failure)), j);
                    assert(seq![JobStage::Waiting, JobStage::Running] + seq![
                        JobStage::Finished(StatusState::Failure),
                    ] =~= seq![
                        JobStage::Waiting,
                        JobStage::Running,
                        JobStage::Finished(StatusState::Failure),
                    ]);
                },
            },
            RunState::Cancelling(i) => {
                lemma_updates_for_one((i as int, JobStage::Finished(StatusState::Error)), j);
                assert(seq![JobStage::Waiting, JobStage::Running] + seq![
                    JobStage::Finished(StatusState::Error),
                ] =~= seq![
                    JobStage::Waiting,
                    JobStage::Running,
                    JobStage::Finished(StatusState::Error),
                ]);
            },
            RunState::Terminal(_) => {},
        },
    }
}

proof fn lemma_state_after_wf(n: nat, events: Seq<RunEvent>)
    ensures
        state_wf(state_after(n, events), n),
    decreases events.len(),
{
    if events.len() > 0 {
        lemma_state_after_wf(n, events.drop_last());
    }
}

/// The status updates a run publishes for each of its jobs, over any sequence of
/// job exits and cancels, are a prefix of: waiting, running, one terminal state.
/// They are exactly the log of the stage the job has reached.
pub proof fn lemma_job_updates_follow_lifecycle(n: nat, events: Seq<RunEvent>, j: int)
    requires
        n <= usize::MAX,
        0 <= j < n,
    ensures
        updates_for(updates_after(n, events), j) == stage_log(stage_of(state_after(n, events), j)),
        is_lifecycle_prefix(updates_for(updates_after(n, events), j)),
    decreases events.len(),
{
    if events.len() == 0 {
        lemma_start_logs(n, j);
    } else {
        let before = events.drop_last();
        lemma_job_updates_follow_lifecycle(n, before, j);
        lemma_state_after_wf(n, before);
        lemma_updates_for_add(
            updates_after(n, before),
            transition_updates(state_after(n, before), n, events.last()),
            j,
        );
        lemma_transition_logs(state_after(n, before), n, events.last(), j);
    }
}

/// Once a job's status is terminal it never changes again: whatever follows,
/// a job that succeeded stays successful and is never pending again.
pub proof fn lemma_finished_job_stays_finished(
    n: nat,
    events: Seq<RunEvent>,
    more: Seq<RunEvent>,
    j: int,
)
    requires
        n <= usize::MAX,
        0 <= j < n,
        stage_of(state_after(n, events), j) is Finished,
    ensures
        stage_of(state_after(n, events + more), j) == stage_of(state_after(n, events), j),
    decreases more.len(),
{
    if more.len() == 0 {
        assert(events + more =~= events);
    } else {
        lemma_finished_job_stays_finished(n, events, more.drop_last(), j);
        assert((events + more).drop_last() =~= events + more.drop_last());
        assert((events + more).last() == more.last());
        lemma_state_after_wf(n, events + more.drop_last());
    }
}

/// A run that has ended stays as it is, and no step publishes anything for it.
pub proof fn lemma_ended_run_is_silent(state: RunState, n: nat, ev: RunEvent)
    requires
        state is Terminal,
    ensures
        next_state(state, n, ev) == state,
        transition_updates(state, n, ev).len() == 0,
{
}

/// No step moves a job's status back: its stage never decreases.
pub proof fn lemma_stage_never_regresses(state: RunState, n: nat, ev: RunEvent, j: int)
    requires
        n <= usize::MAX,
        state_wf(state, n),
        0 <= j < n,
    ensures
        stage_rank(stage_of(next_state(state, n, ev), j)) >= stage_rank(stage_of(state, j)),
{
}

/// When a run has ended, every job that was started has had a terminal status
/// published, and every job that was not started has had only its waiting one.
pub proof fn lemma_ended_run_closes_started_jobs(n: nat, events: Seq<RunEvent>, j: int)
    requires
        n <= usize::MAX,
        0 <= j < n,
        state_after(n, events) is Terminal,
    ensures
        ({
            let log = updates_for(updates_after(n, events), j);
            ||| log == seq![JobStage::Waiting]
            ||| log.len() == 3 && log[1] == JobStage::Running && (log[2] matches JobStage::Finished(
                s,
            ) && s != StatusState::Pending)
        }),
{
    lemma_job_updates_follow_lifecycle(n, events, j);
}

/// A newer commit while job `k` runs: cancelling and then reporting the killed
/// job's exit, however it exited, ends the run cancelled at `k`; job `k` gets
/// an error status, the jobs after it stay waiting, and no run is in flight.
pub proof fn lemma_cancel_during_job(n: nat, events: Seq<RunEvent>, k: usize, x: JobExit)
    requires
        n <= usize::MAX,
        state_after(n, events) == RunState::Running(k),
    ensures
        ({
            let after = events.push(RunEvent::Cancel).push(RunEvent::Exited(x));
            &&& state_after(n, after) == RunState::Terminal(RunOutcome::Cancelled(k))
            &&& updates_for(updates_after(n, after), k as int) == seq![
                JobStage::Waiting,
                JobStage::Running,
                JobStage::Finished(StatusState::Error),
            ]
            &&& forall|j: int|
                k < j < n ==> updates_for(#[trigger] updates_after(n, after), j) == seq![
                    JobStage::Waiting,
                ]
        }),
{
    let mid = events.push(RunEvent::Cancel);
    let after = mid.push(RunEvent::Exited(x));
    assert(mid.drop_last() =~= events);
    assert(after.drop_last() =~= mid);
    assert(mid.last() == RunEvent::Cancel);
    assert(after.last() == RunEvent::Exited(x));
    lemma_state_after_wf(n, events);
    assert(state_after(n, mid) == RunState::Cancelling(k));
    assert(state_after(n, after) == RunState::Terminal(RunOutcome::Cancelled(k)));
    lemma_job_updates_follow_lifecycle(n, after, k as int);
    assert forall|j: int| k < j < n implies updates_for(
        #[trigger] updates_after(n, after),
        j,
    ) == seq![JobStage::Waiting] by {
        lemma_job_updates_follow_lifecycle(n, after, j);
    }
}

} // verus!
