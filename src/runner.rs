use vstd::prelude::*;

use crate::project::{check_project_name, name_error, NameError};

verus! {

/// Error a running service reports.
#[derive(Clone, Debug, PartialEq, Eq)]
pub enum ServiceError {
    /// The service panicked while binding to its address.
    BindPanic(String),
    /// The service panicked while it was being constructed.
    BuildPanic(String),
    /// Any other error the service returned.
    Custom(String),
}

/// How the task that ran a service ended: the outer level is the join of the
/// task, the inner level what the service itself returned.
#[derive(Debug, PartialEq, Eq)]
pub enum JoinOutcome {
    /// The task ran to its end and the service returned this.
    Finished(Result<(), ServiceError>),
    /// The task was aborted.
    Cancelled,
    /// The task failed in another way (it panicked).
    Failed(String),
}

/// Why a loaded artifact could not be started.
#[derive(Clone, Debug, PartialEq, Eq)]
pub enum LoadFailure {
    /// The artifact could not be found or opened.
    Open(String),
    /// The artifact's entry point ran and failed.
    Init(ServiceError),
}

/// Errors of the per-deployment pipeline.
#[derive(Clone, Debug, PartialEq, Eq)]
pub enum RunError {
    /// No free local port was found to run the service on.
    NoFreePort,
    /// The service name is not a valid project name, for this reason.
    InvalidServiceName(NameError),
    /// The resource factory could not be created.
    Factory(String),
    /// The artifact could not be opened.
    Load(String),
    /// The service's initialisation failed.
    Run(ServiceError),
    /// Signalling the previous generations failed.
    OldCleanup(String),
    /// The task running the service failed without being cancelled.
    Join(String),
}

/// Why a running deployment counts as crashed.
#[derive(Clone, Debug, PartialEq, Eq)]
pub enum CrashCause {
    /// The service returned an error.
    Service(ServiceError),
    /// The loaded library could not be closed.
    LibraryClose(String),
}

/// The terminal report of a deployment.
#[derive(Clone, Debug, PartialEq, Eq)]
pub enum Cleanup {
    /// The service finished on its own.
    Completed,
    /// The service was stopped by a kill.
    Stopped,
    /// The service ran and then crashed.
    Crashed(CrashCause),
    /// The deployment failed before or while starting.
    StartCrashed(RunError),
}

/// State of a deployment as recorded by the deployer.
#[derive(Clone, Copy, Debug, PartialEq, Eq, Structural)]
pub enum State {
    Loading,
    Running,
    Completed,
    Stopped,
    Crashed,
}

/// The cleanup that a service's outcome calls for.
pub open spec fn cleanup_of(o: JoinOutcome) -> Cleanup {
    match o {
        JoinOutcome::Finished(Ok(())) => Cleanup::Completed,
        JoinOutcome::Finished(Err(e)) => Cleanup::Crashed(CrashCause::Service(e)),
        JoinOutcome::Cancelled => Cleanup::Stopped,
        JoinOutcome::Failed(m) => Cleanup::StartCrashed(RunError::Join(m)),
    }
}

/// Chooses the cleanup for the outcome of a service's task.
pub fn cleanup_for(o: JoinOutcome) -> (r: Cleanup)
    ensures
        r == cleanup_of(o),
{
    match o {
        JoinOutcome::Finished(Ok(())) => Cleanup::Completed,
        JoinOutcome::Finished(Err(e)) => Cleanup::Crashed(CrashCause::Service(e)),
        JoinOutcome::Cancelled => Cleanup::Stopped,
        JoinOutcome::Failed(m) => Cleanup::StartCrashed(RunError::Join(m)),
    }
}

impl Cleanup {
    pub open spec fn state_spec(&self) -> State {
        match self {
            Cleanup::Completed => State::Completed,
            Cleanup::Stopped => State::Stopped,
            Cleanup::Crashed(_) => State::Crashed,
            Cleanup::StartCrashed(_) => State::Crashed,
        }
    }

    /// The terminal state this cleanup records.
    pub fn state(&self) -> (r: State)
        ensures
            r == self.state_spec(),
    {
        match self {
            Cleanup::Completed => State::Completed,
            Cleanup::Stopped => State::Stopped,
            Cleanup::Crashed(_) => State::Crashed,
            Cleanup::StartCrashed(_) => State::Crashed,
        }
    }
}

/// The pipeline error for a failed load.
pub open spec fn load_error_of(f: LoadFailure) -> RunError {
    match f {
        LoadFailure::Open(m) => RunError::Load(m),
        LoadFailure::Init(e) => RunError::Run(e),
    }
}

/// Classifies a load failure: a missing artifact is a load error, a failing
/// entry point a run error that keeps the service's own error.
pub fn load_error(f: LoadFailure) -> (r: RunError)
    ensures
        r == load_error_of(f),
{
    match f {
        LoadFailure::Open(m) => RunError::Load(m),
        LoadFailure::Init(e) => RunError::Run(e),
    }
}

/// The deployments that a new deployment `current` must stop: every active
/// one but itself, in the order given.
pub open spec fn old_generations_of(active: Seq<u128>, current: u128) -> Seq<u128> {
    active.filter(other_than(current))
}

/// The predicate "is not `current`".
pub open spec fn other_than(current: u128) -> spec_fn(u128) -> bool {
    |x: u128| x != current
}

/// Picks, from the active deployments of a service, those to send on the
/// kill bus before `current` starts.
pub fn old_generations(active: &Vec<u128>, current: u128) -> (r: Vec<u128>)
    ensures
        r@ == old_generations_of(active@, current),
{
    let mut r: Vec<u128> = Vec::new();
    let mut i: usize = 0;
    while i < active.len()
        invariant
            i <= active@.len(),
            r@ == old_generations_of(active@.subrange(0, i as int), current),
        decreases active@.len() - i,
    {
        let x = active[i];
        proof {
            let f = other_than(current);
            assert(active@.subrange(0, i + 1) == active@.subrange(0, i as int).push(x));
            active@.subrange(0, i as int).lemma_filter_push(x, f);
        }
        if x != current {
            r.push(x);
        }
        i = i + 1;
    }
    assert(active@.subrange(0, active@.len() as int) == active@);
    r
}

/// A deployment whose build succeeded, ready to be run.
#[derive(Debug)]
pub struct Built {
    pub id: u128,
    pub service_name: String,
    pub service_id: u128,
    /// Tracing propagation fields of the request that started the build.
    pub tracing_context: std::collections::HashMap<String, String>,
    /// The encoded auth claim handed on to the resource factory.
    pub claim: Option<String>,
}

impl Built {
    /// The not yet started deployment of this build.
    pub fn deployment(&self) -> (r: Deployment)
        ensures
            r.id == self.id,
            r.service_id == self.service_id,
            r.service_name@ == self.service_name@,
            r.stage == Stage::AwaitingPort,
    {
        Deployment::new(self.id, self.service_id, self.service_name.clone())
    }
}

/// Where a deployment stands in its life.
#[derive(Debug, PartialEq, Eq)]
pub enum Stage {
    /// Waiting for a free local port.
    AwaitingPort,
    /// The name is valid; waiting for the resource factory.
    AwaitingFactory { port: u16 },
    /// Waiting for the artifact to be loaded, to run on this port.
    Loading { port: u16 },
    /// Loaded; waiting for the previous generations to be signalled.
    Reaping,
    /// Supervised; waiting for a kill or for the service to end.
    Running,
    /// Killed; waiting for the aborted service to resolve.
    Aborting,
    /// The service ended this way; waiting for its library to close.
    Closing(JoinOutcome),
    /// Signalling the previous generations failed with this error; waiting
    /// for the aborted service to resolve.
    Unwinding(String),
    /// Signalling the previous generations failed with this error and the
    /// service has resolved; waiting for its library to close.
    Releasing(String),
    /// The cleanup has been reported.
    Done,
}

/// What happened outside that a deployment reacts to.
#[derive(Debug, PartialEq, Eq)]
pub enum Event {
    /// The port search ended, with a port or without one.
    PortPicked(Option<u16>),
    /// The resource factory was created, or failed.
    FactoryReady(Result<(), String>),
    /// The artifact was loaded and its entry point run, or not.
    Loaded(Result<(), LoadFailure>),
    /// The previous generations were signalled, or signalling failed.
    Reaped(Result<(), String>),
    /// A deployment id arrived on the kill bus.
    Kill(u128),
    /// The service's task resolved.
    HandleResolved(JoinOutcome),
    /// The service's library was closed, or closing failed.
    LibraryClosed(Result<(), String>),
}

/// What the deployment asks to be done next.
#[derive(Debug, PartialEq, Eq)]
pub enum Action {
    /// Nothing to do.
    Nothing,
    /// Ask the abstract factory for this deployment's factory.
    RequestFactory,
    /// Load the artifact and run its entry point on the loopback port.
    LoadArtifact { port: u16 },
    /// Send the ids of the other active deployments of the service on the
    /// kill bus.
    ReapOld,
    /// Start supervising the loaded service.
    Supervise,
    /// Abort the service's task.
    AbortHandle,
    /// Close the service's library.
    CloseLibrary,
    /// Report this cleanup: the deployment is over.
    Report(Cleanup),
}

/// The decisions taken for one built deployment, from the search for a port to
/// its cleanup.
#[derive(Debug)]
pub struct Deployment {
    pub id: u128,
    pub service_id: u128,
    pub service_name: String,
    pub stage: Stage,
}

/// The next stage and the action for event `e` in stage `s`, for the
/// deployment `id` of the service named `name`.
pub open spec fn transition(id: u128, name: Seq<char>, s: Stage, e: Event) -> (Stage, Action) {
    match (s, e) {
        (Stage::AwaitingPort, Event::PortPicked(None)) => (
            Stage::Done,
            Action::Report(Cleanup::StartCrashed(RunError::NoFreePort)),
        ),
        (Stage::AwaitingPort, Event::PortPicked(Some(port))) => match name_error(name) {
            None => (Stage::AwaitingFactory { port }, Action::RequestFactory),
            Some(err) => (
                Stage::Done,
                Action::Report(Cleanup::StartCrashed(RunError::InvalidServiceName(err))),
            ),
        },
        (Stage::AwaitingFactory { port }, Event::FactoryReady(Ok(()))) => (
            Stage::Loading { port },
            Action::LoadArtifact { port },
        ),
        (Stage::AwaitingFactory { .. }, Event::FactoryReady(Err(m))) => (
            Stage::Done,
            Action::Report(Cleanup::StartCrashed(RunError::Factory(m))),
        ),
        (Stage::Loading { .. }, Event::Loaded(Ok(()))) => (Stage::Reaping, Action::ReapOld),
        (Stage::Loading { .. }, Event::Loaded(Err(f))) => (
            Stage::Done,
            Action::Report(Cleanup::StartCrashed(load_error_of(f))),
        ),
        (Stage::Reaping, Event::Reaped(Ok(()))) => (Stage::Running, Action::Supervise),
        (Stage::Reaping, Event::Reaped(Err(m))) => (Stage::Unwinding(m), Action::AbortHandle),
        (Stage::Running, Event::Kill(k)) => if k == id {
            (Stage::Aborting, Action::AbortHandle)
        } else {
            (Stage::Running, Action::Nothing)
        },
        (Stage::Running, Event::HandleResolved(o)) => (Stage::Closing(o), Action::CloseLibrary),
        (Stage::Aborting, Event::HandleResolved(o)) => (Stage::Closing(o), Action::CloseLibrary),
        (Stage::Closing(o), Event::LibraryClosed(Ok(()))) => (
            Stage::Done,
            Action::Report(cleanup_of(o)),
        ),
        (Stage::Closing(_), Event::LibraryClosed(Err(m))) => (
            Stage::Done,
            Action::Report(Cleanup::Crashed(CrashCause::LibraryClose(m))),
        ),
        (Stage::Unwinding(m), Event::HandleResolved(_)) => (
            Stage::Releasing(m),
            Action::CloseLibrary,
        ),
        (Stage::Releasing(m), Event::LibraryClosed(_)) => (
            Stage::Done,
            Action::Report(Cleanup::StartCrashed(RunError::OldCleanup(m))),
        ),
        (s, _) => (s, Action::Nothing),
    }
}

impl Deployment {
    /// A deployment that has not started yet.
    pub fn new(id: u128, service_id: u128, service_name: String) -> (r: Deployment)
        ensures
            r.id == id,
            r.service_id == service_id,
            r.service_name == service_name,
            r.stage == Stage::AwaitingPort,
    {
        Deployment { id, service_id, service_name, stage: Stage::AwaitingPort }
    }

    /// Reacts to `e`: moves to the next stage and says what is to be done.
    pub fn step(&mut self, e: Event) -> (a: Action)
        ensures
            final(self).id == old(self).id,
            final(self).service_id == old(self).service_id,
            final(self).service_name == old(self).service_name,
            (final(self).stage, a) == transition(
                old(self).id,
                old(self).service_name@,
                old(self).stage,
                e,
            ),
    {
        let mut cur = Stage::Done;
        std::mem::swap(&mut self.stage, &mut cur);
        let (next, a) = match (cur, e) {
            (Stage::AwaitingPort, Event::PortPicked(None)) => (
                Stage::Done,
                Action::Report(Cleanup::StartCrashed(RunError::NoFreePort)),
            ),
            (Stage::AwaitingPort, Event::PortPicked(Some(port))) => {
                match check_project_name(self.service_name.as_str()) {
                    Ok(()) => (Stage::AwaitingFactory { port }, Action::RequestFactory),
                    Err(err) => (
                        Stage::Done,
                        Action::Report(Cleanup::StartCrashed(RunError::InvalidServiceName(err))),
                    ),
                }
            },
            (Stage::AwaitingFactory { port }, Event::FactoryReady(Ok(()))) => (
                Stage::Loading { port },
                Action::LoadArtifact { port },
            ),
            (Stage::AwaitingFactory { .. }, Event::FactoryReady(Err(m))) => (
                Stage::Done,
                Action::Report(Cleanup::StartCrashed(RunError::Factory(m))),
            ),
            (Stage::Loading { .. }, Event::Loaded(Ok(()))) => (Stage::Reaping, Action::ReapOld),
            (Stage::Loading { .. }, Event::Loaded(Err(f))) => (
                Stage::Done,
                Action::Report(Cleanup::StartCrashed(load_error(f))),
            ),
            (Stage::Reaping, Event::Reaped(Ok(()))) => (Stage::Running, Action::Supervise),
            (Stage::Reaping, Event::Reaped(Err(m))) => (Stage::Unwinding(m), Action::AbortHandle),
            (Stage::Running, Event::Kill(k)) => {
                if k == self.id {
                    (Stage::Aborting, Action::AbortHandle)
                } else {
                    (Stage::Running, Action::Nothing)
                }
            },
            (Stage::Running, Event::HandleResolved(o)) => (Stage::Closing(o), Action::CloseLibrary),
            (Stage::Aborting, Event::HandleResolved(o)) => (Stage::Closing(o), Action::CloseLibrary),
            (Stage::Closing(o), Event::LibraryClosed(Ok(()))) => (
                Stage::Done,
                Action::Report(cleanup_for(o)),
            ),
            (Stage::Closing(_), Event::LibraryClosed(Err(m))) => (
                Stage::Done,
                Action::Report(Cleanup::Crashed(CrashCause::LibraryClose(m))),
            ),
            (Stage::Unwinding(m), Event::HandleResolved(_)) => (
                Stage::Releasing(m),
                Action::CloseLibrary,
            ),
            (Stage::Releasing(m), Event::LibraryClosed(_)) => (
                Stage::Done,
                Action::Report(Cleanup::StartCrashed(RunError::OldCleanup(m))),
            ),
            (s, _) => (s, Action::Nothing),
        };
        self.stage = next;
        a
    }
}

/// Number of cleanups reported while `evs` happen from stage `s`.
pub open spec fn reports(id: u128, name: Seq<char>, s: Stage, evs: Seq<Event>) -> nat
    decreases evs.len(),
{
    if evs.len() == 0 {
        0
    } else {
        let (n, a) = transition(id, name, s, evs[0]);
        (if a is Report { 1nat } else { 0nat }) + reports(id, name, n, evs.drop_first())
    }
}

/// The stage reached once `evs` have happened from stage `s`.
pub open spec fn stage_after(id: u128, name: Seq<char>, s: Stage, evs: Seq<Event>) -> Stage
    decreases evs.len(),
{
    if evs.len() == 0 {
        s
    } else {
        stage_after(id, name, transition(id, name, s, evs[0]).0, evs.drop_first())
    }
}

/// A single step reports a cleanup exactly when it ends the deployment, and
/// an ended deployment ignores every event.
proof fn lemma_step_reports(id: u128, name: Seq<char>, s: Stage, e: Event)
    ensures
        s == Stage::Done ==> transition(id, name, s, e) == (Stage::Done, Action::Nothing),
        s != Stage::Done ==> (transition(id, name, s, e).1 is Report <==> transition(
            id,
            name,
            s,
            e,
        ).0 == Stage::Done),
{
}

proof fn lemma_reports_from(id: u128, name: Seq<char>, s: Stage, evs: Seq<Event>)
    ensures
        s == Stage::Done ==> reports(id, name, s, evs) == 0 && stage_after(id, name, s, evs)
            == Stage::Done,
        s != Stage::Done ==> reports(id, name, s, evs) <= 1 && (reports(id, name, s, evs) == 1
            <==> stage_after(id, name, s, evs) == Stage::Done),
    decreases evs.len(),
{
    if evs.len() > 0 {
        lemma_step_reports(id, name, s, evs[0]);
        lemma_reports_from(id, name, transition(id, name, s, evs[0]).0, evs.drop_first());
    }
}

/// Every built deployment reports at most one cleanup, whatever happens to it,
/// and exactly one once it is over.
pub proof fn lemma_one_cleanup_per_deployment(id: u128, name: Seq<char>, evs: Seq<Event>)
    ensures
        reports(id, name, Stage::AwaitingPort, evs) <= 1,
        reports(id, name, Stage::AwaitingPort, evs) == 1 <==> stage_after(
            id,
            name,
            Stage::AwaitingPort,
            evs,
        ) == Stage::Done,
{
    lemma_reports_from(id, name, Stage::AwaitingPort, evs);
}

/// Once a deployment is supervised, exactly one cleanup is reported by the
/// time it is over, and never two.
pub proof fn lemma_one_cleanup_when_supervised(
    id: u128,
    name: Seq<char>,
    s: Stage,
    evs: Seq<Event>,
)
    requires
        s is Running || s is Aborting || s is Closing,
    ensures
        reports(id, name, s, evs) <= 1,
        reports(id, name, s, evs) == 1 <==> stage_after(id, name, s, evs) == Stage::Done,
{
    lemma_reports_from(id, name, s, evs);
}

/// A kill for another deployment changes nothing and reports no cleanup.
pub proof fn lemma_foreign_kill_ignored(id: u128, name: Seq<char>, s: Stage, k: u128)
    requires
        k != id,
    ensures
        transition(id, name, s, Event::Kill(k)) == (s, Action::Nothing),
{
}

/// After a first kill of a deployment, a second kill of it changes nothing and
/// asks for nothing.
pub proof fn lemma_repeated_kill_noop(id: u128, name: Seq<char>, s: Stage)
    ensures
        ({
            let s1 = transition(id, name, s, Event::Kill(id)).0;
            transition(id, name, s1, Event::Kill(id)) == (s1, Action::Nothing)
        }),
{
}

/// A missing artifact ends the deployment with a load error, not a run error.
pub proof fn lemma_missing_artifact_is_load_error(id: u128, name: Seq<char>, port: u16, m: String)
    ensures
        !(load_error_of(LoadFailure::Open(m)) is Run),
        transition(id, name, Stage::Loading { port }, Event::Loaded(Err(LoadFailure::Open(m))))
            == (Stage::Done, Action::Report(Cleanup::StartCrashed(RunError::Load(m)))),
{
}

/// A panic while binding is reported as a crash that carries the service's
/// own error, message included.
pub proof fn lemma_bind_panic_reported(msg: String)
    ensures
        cleanup_of(JoinOutcome::Finished(Err(ServiceError::BindPanic(msg)))) == Cleanup::Crashed(
            CrashCause::Service(ServiceError::BindPanic(msg)),
        ),
{
}

/// A panic while the service is constructed ends the deployment before it is
/// supervised, with a run error that carries the message.
pub proof fn lemma_build_panic_before_supervision(
    id: u128,
    name: Seq<char>,
    port: u16,
    msg: String,
)
    ensures
        transition(
            id,
            name,
            Stage::Loading { port },
            Event::Loaded(Err(LoadFailure::Init(ServiceError::BuildPanic(msg)))),
        ) == (
            Stage::Done,
            Action::Report(Cleanup::StartCrashed(RunError::Run(ServiceError::BuildPanic(msg)))),
        ),
{
}

/// A deployment is supervised only right after the previous generations of
/// its service were signalled without error.
pub proof fn lemma_reaped_before_supervised(id: u128, name: Seq<char>, s: Stage, e: Event)
    ensures
        transition(id, name, s, e).1 == Action::Supervise ==> s == Stage::Reaping && e
            == Event::Reaped(Ok(())),
{
    if let Event::Reaped(Ok(u)) = e {
        assert(u == ());
    }
}

/// The kill list of a new deployment holds every other active deployment of
/// its service, and never the new deployment itself.
pub proof fn lemma_old_generations_complete(active: Seq<u128>, current: u128)
    ensures
        forall|x: u128|
            active.contains(x) && x != current ==> old_generations_of(active, current).contains(x),
        !old_generations_of(active, current).contains(current),
{
    broadcast use vstd::seq_lib::group_filter_ensures;

    let f = other_than(current);
    assert forall|x: u128| active.contains(x) && x != current implies old_generations_of(
        active,
        current,
    ).contains(x) by {
        let i = choose|i: int| 0 <= i < active.len() && active[i] == x;
        assert(f(active[i]));
        assert(active.filter(f).contains(active[i]));
    }
}

/// The loaded service's task may still be running: it has not resolved yet.
pub open spec fn handle_live(s: Stage) -> bool {
    s is Reaping || s is Running || s is Aborting || s is Unwinding
}

/// The loaded service's library is still open.
pub open spec fn library_open(s: Stage) -> bool {
    handle_live(s) || s is Closing || s is Releasing
}

/// Once a service is loaded, its task is let go only when it has resolved,
/// its library is let go only after that, when it has been closed, and the
/// cleanup is reported only then: never while the task may run or the library
/// is open.
pub proof fn lemma_unwinds_before_report(id: u128, name: Seq<char>, s: Stage, e: Event)
    ensures
        ({
            let (n, a) = transition(id, name, s, e);
            &&& handle_live(s) ==> !(a is Report)
            &&& handle_live(s) && !handle_live(n) ==> e is HandleResolved && library_open(n)
            &&& library_open(s) && !library_open(n) ==> e is LibraryClosed && n == Stage::Done
            &&& library_open(s) && a is Report ==> e is LibraryClosed
            &&& s is Reaping && e is Reaped && !(n is Running) ==> a == Action::AbortHandle
        }),
{
}

/// How far a deployment has got; no step goes back.
pub open spec fn progress(s: Stage) -> nat {
    match s {
        Stage::AwaitingPort => 0,
        Stage::AwaitingFactory { .. } => 1,
        Stage::Loading { .. } => 2,
        Stage::Reaping => 3,
        Stage::Running => 4,
        Stage::Aborting => 5,
        Stage::Unwinding(_) => 5,
        Stage::Closing(_) => 6,
        Stage::Releasing(_) => 6,
        Stage::Done => 7,
    }
}

proof fn lemma_progress_step(id: u128, name: Seq<char>, s: Stage, e: Event)
    ensures
        progress(transition(id, name, s, e).0) >= progress(s),
{
}

proof fn lemma_progress_kept(id: u128, name: Seq<char>, s: Stage, evs: Seq<Event>)
    requires
        progress(s) >= 5,
    ensures
        progress(stage_after(id, name, s, evs)) >= 5,
    decreases evs.len(),
{
    if evs.len() > 0 {
        lemma_progress_step(id, name, s, evs[0]);
        lemma_progress_kept(id, name, transition(id, name, s, evs[0]).0, evs.drop_first());
    }
}

/// When a deployment `current` of a service starts, every other active
/// deployment `x` of the service is on its kill list; once a running `x`
/// receives that kill it is never running again, whatever happens after.
pub proof fn lemma_killed_deployment_never_runs_again(
    active: Seq<u128>,
    current: u128,
    x: u128,
    name: Seq<char>,
    evs: Seq<Event>,
)
    requires
        active.contains(x),
        x != current,
    ensures
        old_generations_of(active, current).contains(x),
        forall|k: int|
            0 <= k <= evs.len() ==> !(stage_after(
                x,
                name,
                transition(x, name, Stage::Running, Event::Kill(x)).0,
                #[trigger] evs.take(k),
            ) is Running),
{
    lemma_old_generations_complete(active, current);
    let s1 = transition(x, name, Stage::Running, Event::Kill(x)).0;
    assert forall|k: int| 0 <= k <= evs.len() implies !(stage_after(
        x,
        name,
        s1,
        #[trigger] evs.take(k),
    ) is Running) by {
        lemma_progress_kept(x, name, s1, evs.take(k));
    }
}

} // verus!
