//! The runner: at most one run at a time, its jobs driven one after another,
//! and the status updates that each step of a run publishes.
//!
//! The runner decides; the caller does the work. Each step returns what to
//! publish, which job to start and whether to kill the running one, and the
//! caller reports back how each started job ended.

use vstd::prelude::*;
use vstd::string::StringExecFns;
use crate::forge::{CreateStatus, CreateStatusView, StatusState};
use crate::script::{job_script, script_of};
use crate::workflow::{
    get_jobs_for_host, is_jobs_for_host, jobs_view, ConfigError, Job, WorkflowConfig,
};

verus! {

/// A message to the run in flight.
pub enum ToRunMsg {
    Cancel,
}

/// How a started job's process ended; a job that could not be spawned or
/// waited for counts as failed.
#[derive(Clone, Copy, Debug, PartialEq, Eq, Structural)]
pub enum JobExit {
    Success,
    Failure,
}

#[derive(Clone, Copy, Debug, PartialEq, Eq, Structural)]
pub enum RunOutcome {
    Success,
    /// The job at this index failed.
    Failed(usize),
    /// The job at this index was killed.
    Cancelled(usize),
}

#[derive(Clone, Copy, Debug, PartialEq, Eq, Structural)]
pub enum RunState {
    Running(usize),
    Cancelling(usize),
    Terminal(RunOutcome),
}

/// Where a job stands, as its status row shows it.
#[derive(Clone, Copy, Debug, PartialEq, Eq, Structural)]
pub enum JobStage {
    Waiting,
    Running,
    Finished(StatusState),
}

#[derive(Clone, Copy, Debug, PartialEq, Eq, Structural)]
pub enum RunEvent {
    Exited(JobExit),
    Cancel,
}

/// One status write: row `status.context` of commit `sha`, for the job at index `job`.
pub struct StatusUpdate {
    pub sha: String,
    pub job: usize,
    pub stage: JobStage,
    pub status: CreateStatus,
}

/// A job to start: run `script` with `sh -e -c`.
pub struct JobLaunch {
    pub job: usize,
    pub name: String,
    pub script: String,
}

/// What the caller does after a step: publish `updates` in order, kill the
/// running job if `kill`, and start `launch`.
pub struct RunStep {
    pub updates: Vec<StatusUpdate>,
    pub launch: Option<JobLaunch>,
    pub kill: bool,
}

pub struct GitError {
    pub message: String,
}

pub enum RunnerError {
    Git(GitError),
    Config(ConfigError),
}

/// The run of the jobs for one commit on one host.
pub struct Run {
    pub commit: String,
    pub host: String,
    pub jobs: Vec<(String, Job)>,
    pub state: RunState,
}

pub struct Runner {
    run: Option<Run>,
}

// ----- The lifecycle of a run, over indices of jobs -----

pub open spec fn state_wf(state: RunState, n: nat) -> bool {
    match state {
        RunState::Running(i) => i < n,
        RunState::Cancelling(i) => i < n,
        RunState::Terminal(RunOutcome::Success) => true,
        RunState::Terminal(RunOutcome::Failed(k)) => k < n,
        RunState::Terminal(RunOutcome::Cancelled(k)) => k < n,
    }
}

pub open spec fn stage_around(i: int, j: int, at: JobStage) -> JobStage {
    if j < i {
        JobStage::Finished(StatusState::Success)
    } else if j == i {
        at
    } else {
        JobStage::Waiting
    }
}

/// The stage of the job at index `j` in a run in `state`.
pub open spec fn stage_of(state: RunState, j: int) -> JobStage {
    match state {
        RunState::Running(i) => stage_around(i as int, j, JobStage::Running),
        RunState::Cancelling(i) => stage_around(i as int, j, JobStage::Running),
        RunState::Terminal(RunOutcome::Success) => JobStage::Finished(StatusState::Success),
        RunState::Terminal(RunOutcome::Failed(k)) => stage_around(
            k as int,
            j,
            JobStage::Finished(StatusState::Failure),
        ),
        RunState::Terminal(RunOutcome::Cancelled(k)) => stage_around(
            k as int,
            j,
            JobStage::Finished(StatusState::Error),
        ),
    }
}

/// The updates a job has had by the time it is at `stage`.
pub open spec fn stage_log(stage: JobStage) -> Seq<JobStage> {
    match stage {
        JobStage::Waiting => seq![JobStage::Waiting],
        JobStage::Running => seq![JobStage::Waiting, JobStage::Running],
        JobStage::Finished(s) => seq![JobStage::Waiting, JobStage::Running, stage],
    }
}

/// `log` is a non-empty prefix of: waiting, running, one terminal state.
pub open spec fn is_lifecycle_prefix(log: Seq<JobStage>) -> bool {
    &&& 1 <= log.len() <= 3
    &&& log[0] == JobStage::Waiting
    &&& log.len() >= 2 ==> log[1] == JobStage::Running
    &&& log.len() == 3 ==> (log[2] matches JobStage::Finished(s) && s != StatusState::Pending)
}

pub open spec fn initial_state(n: nat) -> RunState {
    if n == 0 {
        RunState::Terminal(RunOutcome::Success)
    } else {
        RunState::Running(0)
    }
}

pub open spec fn next_state(state: RunState, n: nat, ev: RunEvent) -> RunState {
    match ev {
        RunEvent::Cancel => match state {
            RunState::Running(i) => RunState::Cancelling(i),
            _ => state,
        },
        RunEvent::Exited(x) => match state {
            RunState::Running(i) => match x {
                JobExit::Success => if i + 1 < n {
                    RunState::Running((i + 1) as usize)
                } else {
                    RunState::Terminal(RunOutcome::Success)
                },
                JobExit::Failure => RunState::Terminal(RunOutcome::Failed(i)),
            },
            RunState::Cancelling(i) => RunState::Terminal(RunOutcome::Cancelled(i)),
            RunState::Terminal(_) => state,
        },
    }
}

/// The (job index, stage) of each update that starting a run of `n` jobs publishes:
/// every job waiting, then the first one running.
pub open spec fn start_updates(n: nat) -> Seq<(int, JobStage)> {
    Seq::new(n, |j: int| (j, JobStage::Waiting)) + if n > 0 {
        seq![(0int, JobStage::Running)]
    } else {
        Seq::empty()
    }
}

/// The (job index, stage) of each update that a step publishes.
pub open spec fn transition_updates(state: RunState, n: nat, ev: RunEvent) -> Seq<(int, JobStage)> {
    match ev {
        RunEvent::Cancel => Seq::empty(),
        RunEvent::Exited(x) => match state {
            RunState::Running(i) => match x {
                JobExit::Success => seq![(i as int, JobStage::Finished(StatusState::Success))] + if i
                    + 1 < n {
                    seq![(i + 1, JobStage::Running)]
                } else {
                    Seq::empty()
                },
                JobExit::Failure => seq![(i as int, JobStage::Finished(StatusState::Failure))],
            },
            RunState::Cancelling(i) => seq![(i as int, JobStage::Finished(StatusState::Error))],
            RunState::Terminal(_) => Seq::empty(),
        },
    }
}

/// The stages published for job `j`, in order.
pub open spec fn updates_for(us: Seq<(int, JobStage)>, j: int) -> Seq<JobStage>
    decreases us.len(),
{
    if us.len() == 0 {
        Seq::empty()
    } else if us.last().0 == j {
        updates_for(us.drop_last(), j).push(us.last().1)
    } else {
        updates_for(us.drop_last(), j)
    }
}

/// The state of a run of `n` jobs after `events`.
pub open spec fn state_after(n: nat, events: Seq<RunEvent>) -> RunState
    decreases events.len(),
{
    if events.len() == 0 {
        initial_state(n)
    } else {
        next_state(state_after(n, events.drop_last()), n, events.last())
    }
}

/// Every update that a run of `n` jobs has published after `events`.
pub open spec fn updates_after(n: nat, events: Seq<RunEvent>) -> Seq<(int, JobStage)>
    decreases events.len(),
{
    if events.len() == 0 {
        start_updates(n)
    } else {
        updates_after(n, events.drop_last()) + transition_updates(
            state_after(n, events.drop_last()),
            n,
            events.last(),
        )
    }
}

pub open spec fn stage_rank(s: JobStage) -> int {
    match s {
        JobStage::Waiting => 0,
        JobStage::Running => 1,
        JobStage::Finished(_) => 2,
    }
}

// ----- What the updates say -----

pub open spec fn context_of(job: Seq<char>, host: Seq<char>) -> Seq<char> {
    "pulld/"@ + job + "/"@ + host
}

pub open spec fn description_end(stage: JobStage) -> Seq<char> {
    match stage {
        JobStage::Waiting => " is waiting..."@,
        JobStage::Running => " is running..."@,
        JobStage::Finished(StatusState::Success) => " was successful"@,
        JobStage::Finished(StatusState::Failure) => " failed"@,
        JobStage::Finished(StatusState::Error) => " was canceled"@,
        JobStage::Finished(StatusState::Pending) => " is pending"@,
    }
}

pub open spec fn stage_state(stage: JobStage) -> StatusState {
    match stage {
        JobStage::Finished(s) => s,
        _ => StatusState::Pending,
    }
}

/// The status row written for job `job` on `host` when it reaches `stage`.
pub open spec fn status_for(job: Seq<char>, host: Seq<char>, stage: JobStage) -> CreateStatusView {
    CreateStatusView {
        state: stage_state(stage),
        description: Some("Job "@ + job + " on host "@ + host + description_end(stage)),
        target_url: None,
        context: context_of(job, host),
    }
}

pub open spec fn update_keys(us: Seq<StatusUpdate>) -> Seq<(int, JobStage)> {
    us.map_values(|u: StatusUpdate| (u.job as int, u.stage))
}

pub open spec fn job_commands(job: Job) -> Seq<Seq<char>> {
    match job.script.deep_view() {
        Some(c) => c,
        None => Seq::empty(),
    }
}

impl Run {
    pub open spec fn wf(&self) -> bool {
        state_wf(self.state, self.jobs.len() as nat)
    }

    /// `us` publishes, in order, the (job index, stage) pairs `keys`, for this
    /// run's commit and host.
    pub open spec fn publishes(&self, us: Seq<StatusUpdate>, keys: Seq<(int, JobStage)>) -> bool {
        &&& update_keys(us) == keys
        &&& forall|i: int|
            0 <= i < us.len() ==> {
                let u = #[trigger] us[i];
                &&& u.job < self.jobs.len()
                &&& u.sha@ == self.commit@
                &&& u.status@ == status_for(self.jobs@[u.job as int].0@, self.host@, u.stage)
            }
    }

    /// `l` starts the job at index `k` with its rendered script.
    pub open spec fn launches(&self, l: JobLaunch, k: int) -> bool {
        &&& l.job == k
        &&& l.name@ == self.jobs@[k].0@
        &&& l.script@ == script_of(job_commands(self.jobs@[k].1))
    }

    /// `self` is `old` with its state moved to `state`.
    pub open spec fn moved_to(&self, old: Run, state: RunState) -> bool {
        &&& self.commit == old.commit
        &&& self.host == old.host
        &&& self.jobs == old.jobs
        &&& self.state == state
    }

    /// The job that a step into `state` starts, if any.
    pub open spec fn step_launches(&self, launch: Option<JobLaunch>, from: RunState) -> bool {
        match self.state {
            RunState::Running(k) => {
                &&& from != self.state
                &&& launch matches Some(l) && self.launches(l, k as int)
            },
            _ => launch is None,
        }
    }
}

fn job_status(job: &str, host: &str, stage: JobStage) -> (r: CreateStatus)
    ensures
        r@ == status_for(job@, host@, stage),
{
    let mut context = String::from_str("pulld/");
    context.append(job);
    context.append("/");
    context.append(host);
    let mut description = String::from_str("Job ");
    description.append(job);
    description.append(" on host ");
    description.append(host);
    let (state, end) = match stage {
        JobStage::Waiting => (StatusState::Pending, " is waiting..."),
        JobStage::Running => (StatusState::Pending, " is running..."),
        JobStage::Finished(StatusState::Success) => (StatusState::Success, " was successful"),
        JobStage::Finished(StatusState::Failure) => (StatusState::Failure, " failed"),
        JobStage::Finished(StatusState::Error) => (StatusState::Error, " was canceled"),
        JobStage::Finished(StatusState::Pending) => (StatusState::Pending, " is pending"),
    };
    description.append(end);
    CreateStatus { state, description: Some(description), target_url: None, context }
}

fn job_update(run: &Run, j: usize, stage: JobStage) -> (u: StatusUpdate)
    requires
        j < run.jobs.len(),
    ensures
        u.job == j,
        u.stage == stage,
        u.sha@ == run.commit@,
        u.status@ == status_for(run.jobs@[j as int].0@, run.host@, stage),
{
    StatusUpdate {
        sha: run.commit.as_str().to_owned(),
        job: j,
        stage,
        status: job_status(run.jobs[j].0.as_str(), run.host.as_str(), stage),
    }
}

fn job_launch(run: &Run, k: usize) -> (l: JobLaunch)
    requires
        k < run.jobs.len(),
    ensures
        run.launches(l, k as int),
{
    JobLaunch {
        job: k,
        name: run.jobs[k].0.as_str().to_owned(),
        script: job_script(&run.jobs[k].1.script),
    }
}

/// Appends one update to `us`, keeping `run.publishes(us, keys)`.
fn publish(run: &Run, us: &mut Vec<StatusUpdate>, j: usize, stage: JobStage, Ghost(keys): Ghost<Seq<(int, JobStage)>>)
    requires
        j < run.jobs.len(),
        run.publishes(old(us)@, keys),
    ensures
        run.publishes(final(us)@, keys.push((j as int, stage))),
{
    let u = job_update(run, j, stage);
    us.push(u);
    assert(update_keys(us@) =~= keys.push((j as int, stage)));
}

impl Runner {
    pub closed spec fn current(&self) -> Option<Run> {
        self.run
    }

    pub open spec fn wf(&self) -> bool {
        self.current() matches Some(r) ==> r.wf()
    }

    /// A run is in flight: it has not reached a terminal state.
    pub open spec fn spec_is_running(&self) -> bool {
        self.current() matches Some(r) && !(r.state is Terminal)
    }

    /// The run now held was started by `step`, for `commit` on `host`, from the
    /// workflow in `checkout`.
    pub open spec fn started(
        &self,
        step: RunStep,
        checkout: Result<WorkflowConfig, RunnerError>,
        commit: Seq<char>,
        host: Seq<char>,
    ) -> bool {
        match (checkout, self.current()) {
            (Ok(cfg), Some(run)) => {
                let n = run.jobs.len() as nat;
                &&& run.commit@ == commit
                &&& run.host@ == host
                &&& is_jobs_for_host(cfg, host, jobs_view(run.jobs@))
                &&& run.state == initial_state(n)
                &&& run.publishes(step.updates@, start_updates(n))
                &&& !step.kill
                &&& if n > 0 {
                    step.launch matches Some(l) && run.launches(l, 0)
                } else {
                    step.launch is None
                }
            },
            _ => false,
        }
    }

    /// The run now held is `run` after `ev`, and `step` publishes and starts
    /// what that transition calls for.
    pub open spec fn stepped(&self, run: Run, ev: RunEvent, step: RunStep) -> bool {
        match self.current() {
            Some(r) => {
                let n = run.jobs.len() as nat;
                &&& r.moved_to(run, next_state(run.state, n, ev))
                &&& r.publishes(step.updates@, transition_updates(run.state, n, ev))
                &&& r.step_launches(step.launch, run.state)
            },
            None => false,
        }
    }

    pub fn new() -> (r: Runner)
        ensures
            r.current() is None,
            r.wf(),
    {
        Runner { run: None }
    }

    /// The state of the run held, if any.
    pub fn state(&self) -> (r: Option<RunState>)
        ensures
            match self.current() {
                Some(run) => r == Some(run.state),
                None => r is None,
            },
    {
        match &self.run {
            Some(run) => Some(run.state),
            None => None,
        }
    }

    pub fn is_running(&self) -> (r: bool)
        ensures
            r == self.spec_is_running(),
    {
        match &self.run {
            Some(run) => match run.state {
                RunState::Terminal(_) => false,
                _ => true,
            },
            None => false,
        }
    }

    /// Starts the run for `commit_id` on `host_identifier`, given the workflow
    /// read after the checkout was reset to the commit (or why that failed).
    /// Every job for the host is published as waiting, then the first starts.
    pub fn start_run(
        &mut self,
        commit_id: &str,
        host_identifier: &str,
        checkout: Result<WorkflowConfig, RunnerError>,
    ) -> (r: Result<RunStep, RunnerError>)
        requires
            old(self).wf(),
            !old(self).spec_is_running(),
            checkout matches Ok(cfg) ==> cfg.wf(),
        ensures
            final(self).wf(),
            r is Err ==> *final(self) == *old(self),
            checkout matches Err(e) ==> r matches Err(f) && f == e,
            checkout matches Ok(cfg) ==> {
                &&& r is Ok <==> forall|k: int| 0 <= k < cfg.jobs.len() ==> #[trigger] cfg.resolvable(k)
                &&& r matches Err(e) ==> e matches RunnerError::Config(ce) && exists|k: int|
                    0 <= k < cfg.jobs.len() && cfg.first_unresolvable(k)
                        && #[trigger] cfg.reports_missing(k, ce)
            },
            r matches Ok(step) ==> final(self).started(step, checkout, commit_id@, host_identifier@),
    {
        let cfg = match checkout {
            Err(e) => {
                return Err(e);
            },
            Ok(cfg) => cfg,
        };
        let jobs = match get_jobs_for_host(&cfg, host_identifier) {
            Err(e) => {
                return Err(RunnerError::Config(e));
            },
            Ok(jobs) => jobs,
        };
        let n = jobs.len();
        let state = if n == 0 {
            RunState::Terminal(RunOutcome::Success)
        } else {
            RunState::Running(0)
        };
        let run = Run {
            commit: commit_id.to_owned(),
            host: host_identifier.to_owned(),
            jobs,
            state,
        };
        let mut updates: Vec<StatusUpdate> = Vec::new();
        assert(update_keys(updates@) =~= Seq::new(0, |i: int| (i, JobStage::Waiting)));
        let mut j: usize = 0;
        while j < n
            invariant
                j <= n,
                n == run.jobs.len(),
                run.publishes(updates@, Seq::new(j as nat, |i: int| (i, JobStage::Waiting))),
            decreases n - j,
        {
            publish(&run, &mut updates, j, JobStage::Waiting, Ghost(Seq::new(j as nat, |i: int| (i, JobStage::Waiting))));
            assert(Seq::new(j as nat, |i: int| (i, JobStage::Waiting)).push((j as int, JobStage::Waiting))
                =~= Seq::new((j + 1) as nat, |i: int| (i, JobStage::Waiting)));
            j = j + 1;
        }
        let ghost seeds = Seq::new(n as nat, |i: int| (i, JobStage::Waiting));
        let launch = if n > 0 {
            publish(&run, &mut updates, 0, JobStage::Running, Ghost(seeds));
            Some(job_launch(&run, 0))
        } else {
            None
        };
        assert(start_updates(n as nat) =~= if n > 0 {
            seeds.push((0int, JobStage::Running))
        } else {
            seeds
        });
        self.run = Some(run);
        Ok(RunStep { updates, launch, kill: false })
    }

    /// Asks the run in flight to stop: its running job is to be killed, and the
    /// run ends when the job's exit is reported. Does nothing otherwise.
    pub fn cancel_run(&mut self) -> (step: RunStep)
        requires
            old(self).wf(),
        ensures
            final(self).wf(),
            step.updates@.len() == 0,
            step.launch is None,
            step.kill == (old(self).current() matches Some(r) && r.state is Running),
            match old(self).current() {
                Some(run) => final(self).current() matches Some(r) && r.moved_to(
                    run,
                    next_state(run.state, run.jobs.len() as nat, RunEvent::Cancel),
                ),
                None => final(self).current() is None,
            },
    {
        let kill = match &mut self.run {
            Some(run) => match run.state {
                RunState::Running(i) => {
                    run.state = RunState::Cancelling(i);
                    true
                },
                _ => false,
            },
            None => false,
        };
        RunStep { updates: Vec::new(), launch: None, kill }
    }

    /// Takes the exit of the running job: publishes its terminal status and
    /// starts the next job, or ends the run.
    pub fn job_exited(&mut self, exit: JobExit) -> (step: RunStep)
        requires
            old(self).wf(),
            old(self).spec_is_running(),
        ensures
            final(self).wf(),
            !step.kill,
            match old(self).current() {
                Some(run) => final(self).stepped(run, RunEvent::Exited(exit), step),
                None => false,
            },
    {
        let mut run = match self.run.take() {
            Some(run) => run,
            None => {
                return RunStep { updates: Vec::new(), launch: None, kill: false };
            },
        };
        let n = run.jobs.len();
        let mut updates: Vec<StatusUpdate> = Vec::new();
        let mut launch: Option<JobLaunch> = None;
        let ghost none = Seq::<(int, JobStage)>::empty();
        assert(update_keys(updates@) =~= none);
        match run.state {
            RunState::Cancelling(i) => {
                publish(&run, &mut updates, i, JobStage::Finished(StatusState::Error), Ghost(none));
                run.state = RunState::Terminal(RunOutcome::Cancelled(i));
            },
            RunState::Running(i) => match exit {
                JobExit::Failure => {
                    publish(&run, &mut updates, i, JobStage::Finished(StatusState::Failure), Ghost(none));
                    run.state = RunState::Terminal(RunOutcome::Failed(i));
                },
                JobExit::Success => {
                    let ghost first = seq![(i as int, JobStage::Finished(StatusState::Success))];
                    publish(&run, &mut updates, i, JobStage::Finished(StatusState::Success), Ghost(none));
                    assert(none.push((i as int, JobStage::Finished(StatusState::Success))) =~= first);
                    if i + 1 < n {
                        publish(&run, &mut updates, i + 1, JobStage::Running, Ghost(first));
                        run.state = RunState::Running(i + 1);
                        launch = Some(job_launch(&run, i + 1));
                        assert(first.push((i + 1, JobStage::Running)) =~= first + seq![(i + 1, JobStage::Running)]);
                    } else {
                        run.state = RunState::Terminal(RunOutcome::Success);
                        assert(first =~= first + Seq::<(int, JobStage)>::empty());
                    }
                },
            },
            RunState::Terminal(_) => {},
        }
        self.run = Some(run);
        RunStep { updates, launch, kill: false }
    }
}

} // verus!
