//! The scheduler: the periodic jobs, what each one calls, and the protocol
//! of one tick under the job's advisory lock.

use vstd::prelude::*;
use crate::config::AppConfig;
use crate::error::{ApiError, ApiErrorModel};
use crate::instant::{last_days, window_texts, CivilDate};

verus! {

/// The periodic jobs, one for each upstream source.
#[derive(Clone, Copy, Debug, PartialEq, Eq, Structural)]
pub enum JobKind {
    Iss,
    Osdr,
    Apod,
    Neo,
    Donki,
    Spacex,
}

impl JobKind {
    /// The name of the job.
    pub open spec fn spec_name(self) -> Seq<char> {
        match self {
            JobKind::Iss => "iss"@,
            JobKind::Osdr => "osdr"@,
            JobKind::Apod => "apod"@,
            JobKind::Neo => "neo"@,
            JobKind::Donki => "donki"@,
            JobKind::Spacex => "spacex"@,
        }
    }

    /// The key of the advisory lock that the job runs under.
    pub open spec fn spec_lock_id(self) -> i64 {
        match self {
            JobKind::Iss => 10_001,
            JobKind::Osdr => 10_002,
            JobKind::Apod => 10_003,
            JobKind::Neo => 10_004,
            JobKind::Donki => 10_005,
            JobKind::Spacex => 10_006,
        }
    }

    /// The seconds between two ticks of the job, as configured.
    pub open spec fn spec_interval(self, cfg: AppConfig) -> u64 {
        match self {
            JobKind::Iss => cfg.every_iss,
            JobKind::Osdr => cfg.every_osdr,
            JobKind::Apod => cfg.every_apod,
            JobKind::Neo => cfg.every_neo,
            JobKind::Donki => cfg.every_donki,
            JobKind::Spacex => cfg.every_spacex,
        }
    }

    /// The name of the job.
    pub fn name(self) -> (name: &'static str)
        ensures
            name@ == self.spec_name(),
    {
        match self {
            JobKind::Iss => "iss",
            JobKind::Osdr => "osdr",
            JobKind::Apod => "apod",
            JobKind::Neo => "neo",
            JobKind::Donki => "donki",
            JobKind::Spacex => "spacex",
        }
    }

    /// The key of the advisory lock that the job runs under.
    pub fn lock_id(self) -> (key: i64)
        ensures
            key == self.spec_lock_id(),
    {
        match self {
            JobKind::Iss => 10_001,
            JobKind::Osdr => 10_002,
            JobKind::Apod => 10_003,
            JobKind::Neo => 10_004,
            JobKind::Donki => 10_005,
            JobKind::Spacex => 10_006,
        }
    }

    /// The seconds between two ticks of the job, as configured.
    pub fn interval(self, cfg: &AppConfig) -> (seconds: u64)
        ensures
            seconds == self.spec_interval(*cfg),
    {
        match self {
            JobKind::Iss => cfg.every_iss,
            JobKind::Osdr => cfg.every_osdr,
            JobKind::Apod => cfg.every_apod,
            JobKind::Neo => cfg.every_neo,
            JobKind::Donki => cfg.every_donki,
            JobKind::Spacex => cfg.every_spacex,
        }
    }
}

/// No two jobs share a lock.
pub proof fn lemma_lock_ids_distinct(a: JobKind, b: JobKind)
    ensures
        a.spec_lock_id() == b.spec_lock_id() ==> a == b,
{
}

/// One periodic job: which it is, its name, its period and its lock.
#[derive(Clone, Copy, Debug, PartialEq, Eq)]
pub struct JobSpec {
    pub kind: JobKind,
    pub name: &'static str,
    pub seconds: u64,
    pub lock_id: i64,
}

/// The job of the kind `kind` under the configuration `cfg`.
pub open spec fn job_of(kind: JobKind, cfg: AppConfig, job: JobSpec) -> bool {
    &&& job.kind == kind
    &&& job.name@ == kind.spec_name()
    &&& job.seconds == kind.spec_interval(cfg)
    &&& job.lock_id == kind.spec_lock_id()
}

/// The six kinds of job in the order in which they are started.
pub open spec fn job_order() -> Seq<JobKind> {
    seq![
        JobKind::Iss,
        JobKind::Osdr,
        JobKind::Apod,
        JobKind::Neo,
        JobKind::Donki,
        JobKind::Spacex,
    ]
}

fn job(kind: JobKind, cfg: &AppConfig) -> (job: JobSpec)
    ensures
        job_of(kind, *cfg, job),
{
    JobSpec { kind, name: kind.name(), seconds: kind.interval(cfg), lock_id: kind.lock_id() }
}

/// The jobs to start: one for each source, each with its own period from the
/// configuration and its own lock.
pub fn spawn_jobs(cfg: &AppConfig) -> (jobs: Vec<JobSpec>)
    ensures
        jobs@.len() == 6,
        forall|i: int| 0 <= i < 6 ==> job_of(job_order()[i], *cfg, #[trigger] jobs@[i]),
{
    let mut jobs: Vec<JobSpec> = Vec::new();
    jobs.push(job(JobKind::Iss, cfg));
    jobs.push(job(JobKind::Osdr, cfg));
    jobs.push(job(JobKind::Apod, cfg));
    jobs.push(job(JobKind::Neo, cfg));
    jobs.push(job(JobKind::Donki, cfg));
    jobs.push(job(JobKind::Spacex, cfg));
    jobs
}

/// One call into a domain service.
#[derive(Debug, PartialEq, Eq)]
pub enum ServiceCall {
    /// Fetch the current position and append it to the log.
    FetchAndStore,
    /// Fetch the catalog and upsert its records.
    Sync,
    /// Refresh the cache of the picture of the day.
    Apod,
    /// Refresh the cache of near-earth objects between two dates.
    Neo(String, String),
    /// Refresh the cache of space-weather events of a kind between two
    /// dates.
    Donki(&'static str, String, String),
    /// Refresh the cache of the next launch.
    Spacex,
}

/// The model of a [`ServiceCall`].
pub enum CallModel {
    FetchAndStore,
    Sync,
    Apod,
    Neo(Seq<char>, Seq<char>),
    Donki(Seq<char>, Seq<char>, Seq<char>),
    Spacex,
}

impl View for ServiceCall {
    type V = CallModel;

    open spec fn view(&self) -> CallModel {
        match self {
            ServiceCall::FetchAndStore => CallModel::FetchAndStore,
            ServiceCall::Sync => CallModel::Sync,
            ServiceCall::Apod => CallModel::Apod,
            ServiceCall::Neo(start, end) => CallModel::Neo(start@, end@),
            ServiceCall::Donki(kind, start, end) => CallModel::Donki(kind@, start@, end@),
            ServiceCall::Spacex => CallModel::Spacex,
        }
    }
}

/// What a job does with the failure of one of its calls.
#[derive(Clone, Copy, Debug, PartialEq, Eq, Structural)]
pub enum OnFailure {
    /// The failure ends the job's run and is its result.
    Propagate,
    /// The failure is logged as a warning and the run goes on.
    Warn,
    /// The failure is dropped and the run goes on.
    Swallow,
}

/// One step of a job's run: the call and what its failure means.
#[derive(Debug, PartialEq, Eq)]
pub struct PlannedCall {
    pub call: ServiceCall,
    pub on_failure: OnFailure,
}

/// The model of a [`PlannedCall`].
pub struct PlanModel {
    pub call: CallModel,
    pub on_failure: OnFailure,
}

impl View for PlannedCall {
    type V = PlanModel;

    open spec fn view(&self) -> PlanModel {
        PlanModel { call: self.call@, on_failure: self.on_failure }
    }
}

/// The views of `plan`, in order.
pub open spec fn plan_models(plan: Seq<PlannedCall>) -> Seq<PlanModel> {
    Seq::new(plan.len(), |i: int| plan[i]@)
}

/// What one run of a job calls, in order. The position job lets a failure
/// end the run; the catalog and launch jobs drop it; the others warn. The
/// near-earth-object job asks for the last 2 days, the space-weather job
/// for the flares and then the mass ejections of the last 5. There is no
/// run where such a window is beyond the calendar.
pub open spec fn planned_calls(kind: JobKind, today: CivilDate) -> Option<Seq<PlanModel>> {
    match kind {
        JobKind::Iss => Some(
            seq![PlanModel { call: CallModel::FetchAndStore, on_failure: OnFailure::Propagate }],
        ),
        JobKind::Osdr => Some(
            seq![PlanModel { call: CallModel::Sync, on_failure: OnFailure::Swallow }],
        ),
        JobKind::Apod => Some(seq![PlanModel { call: CallModel::Apod, on_failure: OnFailure::Warn }]),
        JobKind::Neo => match window_texts(today, 2) {
            Some((from, to)) => Some(
                seq![PlanModel { call: CallModel::Neo(from, to), on_failure: OnFailure::Warn }],
            ),
            None => None,
        },
        JobKind::Donki => match window_texts(today, 5) {
            Some((from, to)) => Some(
                seq![
                    PlanModel { call: CallModel::Donki("FLR"@, from, to), on_failure: OnFailure::Warn },
                    PlanModel { call: CallModel::Donki("CME"@, from, to), on_failure: OnFailure::Warn },
                ],
            ),
            None => None,
        },
        JobKind::Spacex => Some(
            seq![PlanModel { call: CallModel::Spacex, on_failure: OnFailure::Swallow }],
        ),
    }
}

fn single(call: ServiceCall, on_failure: OnFailure) -> (plan: Vec<PlannedCall>)
    ensures
        plan_models(plan@) == seq![PlanModel { call: call@, on_failure }],
{
    let mut plan: Vec<PlannedCall> = Vec::new();
    plan.push(PlannedCall { call, on_failure });
    plan
}

/// What one run of the job `kind` calls on the day `today`.
pub fn job_calls(kind: JobKind, today: CivilDate) -> (plan: Option<Vec<PlannedCall>>)
    ensures
        match plan {
            Some(p) => planned_calls(kind, today) == Some(plan_models(p@)),
            None => planned_calls(kind, today) is None,
        },
{
    match kind {
        JobKind::Iss => Some(single(ServiceCall::FetchAndStore, OnFailure::Propagate)),
        JobKind::Osdr => Some(single(ServiceCall::Sync, OnFailure::Swallow)),
        JobKind::Apod => Some(single(ServiceCall::Apod, OnFailure::Warn)),
        JobKind::Neo => match last_days(today, 2) {
            Some((from, to)) => Some(single(ServiceCall::Neo(from, to), OnFailure::Warn)),
            None => None,
        },
        JobKind::Donki => match last_days(today, 5) {
            Some((from, to)) => {
                let mut plan: Vec<PlannedCall> = Vec::new();
                plan.push(
                    PlannedCall {
                        call: ServiceCall::Donki("FLR", from.clone(), to.clone()),
                        on_failure: OnFailure::Warn,
                    },
                );
                plan.push(
                    PlannedCall {
                        call: ServiceCall::Donki("CME", from, to),
                        on_failure: OnFailure::Warn,
                    },
                );
                Some(plan)
            },
            None => None,
        },
        JobKind::Spacex => Some(single(ServiceCall::Spacex, OnFailure::Swallow)),
    }
}

/// What the result of one call means for the run of its job.
#[derive(Debug)]
pub enum Verdict {
    /// The call succeeded; the run goes on.
    Passed,
    /// The call failed and a warning with this error is due; the run goes
    /// on.
    Warned(ApiError),
    /// The call failed and nothing is due; the run goes on.
    Ignored,
    /// The call failed; the run ends with this error.
    Failed(ApiError),
}

/// The model of a [`Verdict`].
pub enum VerdictModel {
    Passed,
    Warned(ApiErrorModel),
    Ignored,
    Failed(ApiErrorModel),
}

impl View for Verdict {
    type V = VerdictModel;

    open spec fn view(&self) -> VerdictModel {
        match self {
            Verdict::Passed => VerdictModel::Passed,
            Verdict::Warned(e) => VerdictModel::Warned(e@),
            Verdict::Ignored => VerdictModel::Ignored,
            Verdict::Failed(e) => VerdictModel::Failed(e@),
        }
    }
}

/// What the result of a call means under the policy `on_failure`.
pub open spec fn verdict_of(on_failure: OnFailure, failure: Option<ApiErrorModel>) -> VerdictModel {
    match failure {
        None => VerdictModel::Passed,
        Some(e) => match on_failure {
            OnFailure::Propagate => VerdictModel::Failed(e),
            OnFailure::Warn => VerdictModel::Warned(e),
            OnFailure::Swallow => VerdictModel::Ignored,
        },
    }
}

/// The error of a result, if it is one.
pub open spec fn failure_in(result: Result<(), ApiError>) -> Option<ApiErrorModel> {
    match result {
        Ok(_) => None,
        Err(e) => Some(e@),
    }
}

/// Decides what the result of one call means for the run of its job.
pub fn settle(on_failure: OnFailure, result: Result<(), ApiError>) -> (verdict: Verdict)
    ensures
        verdict@ == verdict_of(on_failure, failure_in(result)),
{
    match result {
        Ok(_) => Verdict::Passed,
        Err(e) => match on_failure {
            OnFailure::Propagate => Verdict::Failed(e),
            OnFailure::Warn => Verdict::Warned(e),
            OnFailure::Swallow => Verdict::Ignored,
        },
    }
}

/// Where a job stands: waiting for its next tick, or running under its
/// lock.
#[derive(Clone, Copy, Debug, PartialEq, Eq, Structural)]
pub enum JobState {
    Waiting,
    Running,
}

/// What can happen to a job.
#[derive(Debug)]
pub enum JobEvent {
    /// The job's period has passed.
    Tick,
    /// The lock asked for was acquired.
    LockAcquired,
    /// The lock asked for is held elsewhere, or could not be asked for.
    LockDenied,
    /// The run of the job's body is over, with this result.
    BodyDone(Result<(), ApiError>),
}

/// What the scheduler is to do for a job.
#[derive(Debug)]
pub enum JobAction {
    /// Try to acquire the advisory lock with this key, without waiting.
    TryLock(i64),
    /// Run the job's body.
    RunBody,
    /// Log that the run completed.
    LogDone,
    /// Log that the run failed with this error.
    LogFailed(ApiError),
    /// Release the advisory lock with this key.
    Unlock(i64),
}

/// The model of a [`JobEvent`].
pub enum EventModel {
    Tick,
    LockAcquired,
    LockDenied,
    BodyDone(Option<ApiErrorModel>),
}

/// The model of a [`JobAction`].
pub enum ActionModel {
    TryLock(i64),
    RunBody,
    LogDone,
    LogFailed(ApiErrorModel),
    Unlock(i64),
}

impl View for JobEvent {
    type V = EventModel;

    open spec fn view(&self) -> EventModel {
        match self {
            JobEvent::Tick => EventModel::Tick,
            JobEvent::LockAcquired => EventModel::LockAcquired,
            JobEvent::LockDenied => EventModel::LockDenied,
            JobEvent::BodyDone(result) => EventModel::BodyDone(failure_in(*result)),
        }
    }
}

impl View for JobAction {
    type V = ActionModel;

    open spec fn view(&self) -> ActionModel {
        match self {
            JobAction::TryLock(key) => ActionModel::TryLock(*key),
            JobAction::RunBody => ActionModel::RunBody,
            JobAction::LogDone => ActionModel::LogDone,
            JobAction::LogFailed(e) => ActionModel::LogFailed(e@),
            JobAction::Unlock(key) => ActionModel::Unlock(*key),
        }
    }
}

/// The views of `actions`, in order.
pub open spec fn action_models(actions: Seq<JobAction>) -> Seq<ActionModel> {
    Seq::new(actions.len(), |i: int| actions[i]@)
}

/// The state that follows `event` in `state`: a waiting job starts to run
/// when its lock is acquired, a running job waits again when its body is
/// done, and nothing else changes the state.
pub open spec fn next_state(state: JobState, event: EventModel) -> JobState {
    match (state, event) {
        (JobState::Waiting, EventModel::LockAcquired) => JobState::Running,
        (JobState::Running, EventModel::BodyDone(_)) => JobState::Waiting,
        _ => state,
    }
}

/// What is to be done on `event` in `state` for the job with the lock
/// `lock_id`. A tick of a waiting job asks for the lock. With the lock the
/// body runs; without it nothing is done. When the body is done its outcome
/// is logged and the lock released. An event that the state does not expect
/// asks for nothing.
pub open spec fn actions_on(lock_id: i64, state: JobState, event: EventModel) -> Seq<ActionModel> {
    match (state, event) {
        (JobState::Waiting, EventModel::Tick) => seq![ActionModel::TryLock(lock_id)],
        (JobState::Waiting, EventModel::LockAcquired) => seq![ActionModel::RunBody],
        (JobState::Running, EventModel::BodyDone(None)) => seq![
            ActionModel::LogDone,
            ActionModel::Unlock(lock_id),
        ],
        (JobState::Running, EventModel::BodyDone(Some(e))) => seq![
            ActionModel::LogFailed(e),
            ActionModel::Unlock(lock_id),
        ],
        _ => seq![],
    }
}

impl JobSpec {
    /// Takes the job one step on: the state that follows `event`, and what
    /// the scheduler is to do.
    pub fn step(&self, state: JobState, event: JobEvent) -> (next: (JobState, Vec<JobAction>))
        ensures
            next.0 == next_state(state, event@),
            action_models(next.1@) == actions_on(self.lock_id, state, event@),
    {
        let mut actions: Vec<JobAction> = Vec::new();
        let following = match (state, event) {
            (JobState::Waiting, JobEvent::Tick) => {
                actions.push(JobAction::TryLock(self.lock_id));
                JobState::Waiting
            },
            (JobState::Waiting, JobEvent::LockAcquired) => {
                actions.push(JobAction::RunBody);
                JobState::Running
            },
            (JobState::Running, JobEvent::BodyDone(result)) => {
                match result {
                    Ok(_) => actions.push(JobAction::LogDone),
                    Err(e) => actions.push(JobAction::LogFailed(e)),
                }
                actions.push(JobAction::Unlock(self.lock_id));
                JobState::Waiting
            },
            (unchanged, _) => unchanged,
        };
        (following, actions)
    }
}

/// A tick whose lock is denied does nothing: the job goes on waiting and
/// the scheduler is asked for no action, so nothing is fetched and nothing
/// written.
pub proof fn lemma_denied_tick_does_nothing(lock_id: i64)
    ensures
        next_state(JobState::Waiting, EventModel::LockDenied) == JobState::Waiting,
        actions_on(lock_id, JobState::Waiting, EventModel::LockDenied) == Seq::<ActionModel>::empty(),
{
}

/// The body runs under the lock only, and the lock is released when it is
/// done, whatever its result: the body is started by no event but the
/// acquisition of the lock, and its end always asks for the release and
/// takes the job back to waiting.
pub proof fn lemma_lock_brackets_body(lock_id: i64, state: JobState, event: EventModel)
    ensures
        actions_on(lock_id, state, event).contains(ActionModel::RunBody) ==> state
            == JobState::Waiting && event == EventModel::LockAcquired,
        state == JobState::Running && event is BodyDone ==> actions_on(
            lock_id,
            state,
            event,
        ).last() == ActionModel::Unlock(lock_id) && next_state(state, event) == JobState::Waiting,
{
    let actions = actions_on(lock_id, state, event);
    if actions.contains(ActionModel::RunBody) {
        let i = choose|i: int| 0 <= i < actions.len() && actions[i] == ActionModel::RunBody;
        assert(actions[i] == ActionModel::RunBody);
    }
}

} // verus!
