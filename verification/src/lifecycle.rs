//! The lifecycle of one run, as a machine that is told how the last
//! request went and answers with the next one. Whoever drives it carries
//! the requests out: it calls the platform, sleeps, and starts the
//! warning loop.

use vstd::prelude::*;
use crate::errors::{ConfigError, OsError, ServiceError};
use crate::os_control::OsCall;
use crate::reboot::{next_occurrence, pause_until, policy_of, reboot_policy, RebootPolicy};
use crate::service_core::{compute_phase, phase_at, Config, Phase};
use crate::time::{Instant, Pause, TimeOfDay};

verus! {

/// What the driver is asked to do next.
#[derive(Clone, Debug, PartialEq, Eq)]
pub enum Directive {
    /// Make this call to the platform and report its outcome.
    Invoke(OsCall),
    /// Stay suspended for this long.
    Sleep(Pause),
    /// Start the warning loop as a task of its own.
    SpawnWarningLoop,
    /// Stay suspended for good: nothing further will be asked for.
    Suspend,
    /// The run has ended in good order.
    Exit,
    /// The run has failed.
    Abort(ServiceError),
}

/// Where a run stands: the request that was made last.
#[derive(Clone, Debug, PartialEq, Eq)]
pub enum Stage {
    /// Nothing has been asked for yet.
    Start,
    /// The login banner is being set or cleared.
    LoginBanner,
    /// The shell banner is being set or cleared.
    ShellBanner,
    /// The warning loop is being started.
    WarningLoopSpawned,
    /// The run stays suspended for good.
    Suspended,
    /// The run sleeps until the daily reboot time.
    Sleeping(TimeOfDay),
    /// A reboot is under way: the daily one at this time of day, or the
    /// immediate one with `None`.
    Rebooting(Option<TimeOfDay>),
    /// The shutdown is under way.
    ShuttingDown,
    /// The run has ended in good order.
    Exited,
    /// The run has failed.
    Aborted(ServiceError),
}

/// One run of the service: its settings, the phase found at startup and
/// the stage reached so far. The phase is settled once, at startup.
#[derive(Clone, Debug, PartialEq, Eq)]
pub struct Service {
    pub config: Config,
    pub phase: Phase,
    pub stage: Stage,
}

/// The banner that goes with `phase`: the warning message while warning,
/// none afterwards.
pub open spec fn banner_for(config: Config, phase: Phase) -> Option<String> {
    if phase == Phase::Warning {
        Some(config.warn_message)
    } else {
        None
    }
}

/// The stage and request that a failure leads to.
pub open spec fn failed(error: ServiceError) -> (Stage, Directive) {
    (Stage::Aborted(error), Directive::Abort(error))
}

/// The stage and request on which a daily reboot at `time_of_day` waits
/// for its next turn.
pub open spec fn await_reboot(time_of_day: TimeOfDay, now: int) -> (Stage, Directive) {
    (
        Stage::Sleeping(time_of_day),
        Directive::Sleep(Pause::lasting(next_occurrence(now, time_of_day@) - now)),
    )
}

/// The stage and request with which the reboot scheduler sets out.
pub open spec fn begin_reboots(config: Config, now: int) -> (Stage, Directive) {
    match policy_of(config) {
        Ok(RebootPolicy::Immediate) => (Stage::Rebooting(None), Directive::Invoke(OsCall::Reboot)),
        Ok(RebootPolicy::Daily(time_of_day)) => await_reboot(time_of_day, now),
        Err(e) => failed(ServiceError::Config(e)),
    }
}

/// The transition of the machine: from the stage reached, the outcome of
/// the last request and the current time, to the next stage and request.
pub open spec fn step(
    config: Config,
    phase: Phase,
    stage: Stage,
    last: Result<(), OsError>,
    now: int,
) -> (Stage, Directive) {
    match stage {
        Stage::Start => (
            Stage::LoginBanner,
            Directive::Invoke(OsCall::SetLoginBanner(banner_for(config, phase))),
        ),
        Stage::LoginBanner => match last {
            Ok(_) => (
                Stage::ShellBanner,
                Directive::Invoke(OsCall::SetShellLoginBanner(banner_for(config, phase))),
            ),
            Err(e) => failed(ServiceError::Banner(e)),
        },
        Stage::ShellBanner => match last {
            Ok(_) => match phase {
                Phase::Warning => (Stage::WarningLoopSpawned, Directive::SpawnWarningLoop),
                Phase::RebootPending => begin_reboots(config, now),
                Phase::ShutdownPending => (
                    Stage::ShuttingDown,
                    Directive::Invoke(OsCall::Shutdown),
                ),
            },
            Err(e) => failed(ServiceError::Banner(e)),
        },
        Stage::WarningLoopSpawned => (Stage::Suspended, Directive::Suspend),
        Stage::Suspended => (Stage::Suspended, Directive::Suspend),
        Stage::Sleeping(time_of_day) => (
            Stage::Rebooting(Some(time_of_day)),
            Directive::Invoke(OsCall::Reboot),
        ),
        Stage::Rebooting(daily) => match last {
            Ok(_) => match daily {
                Some(time_of_day) => await_reboot(time_of_day, now),
                None => (Stage::Exited, Directive::Exit),
            },
            Err(e) => failed(ServiceError::RebootAction(e)),
        },
        Stage::ShuttingDown => match last {
            Ok(_) => (Stage::Exited, Directive::Exit),
            Err(e) => failed(ServiceError::ShutdownAction(e)),
        },
        Stage::Exited => (Stage::Exited, Directive::Exit),
        Stage::Aborted(e) => failed(e),
    }
}

impl Service {
    /// Sets up a run for a service first started at `epoch`, as seen at
    /// `now`.
    pub fn new(config: Config, epoch: Instant, now: Instant) -> (service: Service)
        ensures
            service.config == config,
            service.stage == Stage::Start,
            service.phase == phase_at(
                now@,
                config.warn_deadline(epoch@),
                config.reboot_deadline(epoch@),
            ),
    {
        let phase = compute_phase(&config, epoch, now).phase;
        Service { config, phase, stage: Stage::Start }
    }

    /// The banner to show in the phase of this run.
    fn banner(&self) -> (r: Option<String>)
        ensures
            r == banner_for(self.config, self.phase),
    {
        match self.phase {
            Phase::Warning => Some(self.config.warn_message.clone()),
            _ => None,
        }
    }

    /// Moves the run on by one request. `last` is the outcome of the
    /// request made before, where that was a call to the platform, and
    /// `Ok` otherwise; `now` is the current time.
    pub fn advance(&mut self, last: Result<(), OsError>, now: Instant) -> (directive: Directive)
        ensures
            final(self).config == old(self).config,
            final(self).phase == old(self).phase,
            (final(self).stage, directive) == step(
                old(self).config,
                old(self).phase,
                old(self).stage,
                last,
                now@,
            ),
    {
        let (stage, directive) = match &self.stage {
            Stage::Start => (
                Stage::LoginBanner,
                Directive::Invoke(OsCall::SetLoginBanner(self.banner())),
            ),
            Stage::LoginBanner => match last {
                Ok(_) => (
                    Stage::ShellBanner,
                    Directive::Invoke(OsCall::SetShellLoginBanner(self.banner())),
                ),
                Err(e) => fail(ServiceError::Banner(e)),
            },
            Stage::ShellBanner => match last {
                Ok(_) => match self.phase {
                    Phase::Warning => (Stage::WarningLoopSpawned, Directive::SpawnWarningLoop),
                    Phase::RebootPending => match reboot_policy(&self.config) {
                        Ok(RebootPolicy::Immediate) => (
                            Stage::Rebooting(None),
                            Directive::Invoke(OsCall::Reboot),
                        ),
                        Ok(RebootPolicy::Daily(time_of_day)) => (
                            Stage::Sleeping(time_of_day),
                            Directive::Sleep(pause_until(now, time_of_day)),
                        ),
                        Err(e) => fail(ServiceError::Config(e)),
                    },
                    Phase::ShutdownPending => (
                        Stage::ShuttingDown,
                        Directive::Invoke(OsCall::Shutdown),
                    ),
                },
                Err(e) => fail(ServiceError::Banner(e)),
            },
            Stage::WarningLoopSpawned => (Stage::Suspended, Directive::Suspend),
            Stage::Suspended => (Stage::Suspended, Directive::Suspend),
            Stage::Sleeping(time_of_day) => (
                Stage::Rebooting(Some(*time_of_day)),
                Directive::Invoke(OsCall::Reboot),
            ),
            Stage::Rebooting(daily) => match last {
                Ok(_) => match daily {
                    Some(time_of_day) => (
                        Stage::Sleeping(*time_of_day),
                        Directive::Sleep(pause_until(now, *time_of_day)),
                    ),
                    None => (Stage::Exited, Directive::Exit),
                },
                Err(e) => fail(ServiceError::RebootAction(e)),
            },
            Stage::ShuttingDown => match last {
                Ok(_) => (Stage::Exited, Directive::Exit),
                Err(e) => fail(ServiceError::ShutdownAction(e)),
            },
            Stage::Exited => (Stage::Exited, Directive::Exit),
            Stage::Aborted(e) => fail(e.duplicate()),
        };
        self.stage = stage;
        directive
    }
}

/// The stage and request that the failure `error` leads to.
fn fail(error: ServiceError) -> (r: (Stage, Directive))
    ensures
        r == failed(error),
{
    let kept = error.duplicate();
    (Stage::Aborted(kept), Directive::Abort(error))
}

/// How the requests of a run are answered: for each request, counted
/// from zero, the outcome reported for the request before it and the
/// time at which it is decided.
pub type Reports = spec_fn(nat) -> (Result<(), OsError>, int);

/// The stage that a run has reached when it decides request `index`.
pub open spec fn stage_before(config: Config, phase: Phase, reports: Reports, index: nat) -> Stage
    decreases index,
{
    if index == 0 {
        Stage::Start
    } else {
        let earlier = (index - 1) as nat;
        step(
            config,
            phase,
            stage_before(config, phase, reports, earlier),
            reports(earlier).0,
            reports(earlier).1,
        ).0
    }
}

/// Request `index` of a run, counted from zero.
pub open spec fn request(config: Config, phase: Phase, reports: Reports, index: nat) -> Directive {
    step(
        config,
        phase,
        stage_before(config, phase, reports, index),
        reports(index).0,
        reports(index).1,
    ).1
}

/// Whether every request before `count` is reported as done.
pub open spec fn all_done(reports: Reports, count: nat) -> bool {
    forall|i: nat| i < count ==> (#[trigger] reports(i)).0 is Ok
}

/// A run in the warning phase sets both banners to the warning message,
/// starts the warning loop and stays suspended for good. It never asks
/// for a reboot or a shutdown.
pub proof fn warning_run(config: Config, reports: Reports, index: nat)
    requires
        all_done(reports, index + 1),
    ensures
        request(config, Phase::Warning, reports, index) == if index == 0 {
            Directive::Invoke(OsCall::SetLoginBanner(Some(config.warn_message)))
        } else if index == 1 {
            Directive::Invoke(OsCall::SetShellLoginBanner(Some(config.warn_message)))
        } else if index == 2 {
            Directive::SpawnWarningLoop
        } else {
            Directive::Suspend
        },
        stage_before(config, Phase::Warning, reports, index) == if index == 0 {
            Stage::Start
        } else if index == 1 {
            Stage::LoginBanner
        } else if index == 2 {
            Stage::ShellBanner
        } else if index == 3 {
            Stage::WarningLoopSpawned
        } else {
            Stage::Suspended
        },
    decreases index,
{
    if index > 0 {
        let earlier = (index - 1) as nat;
        assert(reports(earlier).0 is Ok);
        assert(reports(index).0 is Ok);
        warning_run(config, reports, earlier);
    }
}

/// A run in the shutdown phase clears both banners, asks for the
/// shutdown exactly once, as its third request, and ends in good order.
pub proof fn shutdown_run(config: Config, reports: Reports, index: nat)
    requires
        all_done(reports, index + 1),
    ensures
        request(config, Phase::ShutdownPending, reports, index) == if index == 0 {
            Directive::Invoke(OsCall::SetLoginBanner(None))
        } else if index == 1 {
            Directive::Invoke(OsCall::SetShellLoginBanner(None))
        } else if index == 2 {
            Directive::Invoke(OsCall::Shutdown)
        } else {
            Directive::Exit
        },
        stage_before(config, Phase::ShutdownPending, reports, index) == if index == 0 {
            Stage::Start
        } else if index == 1 {
            Stage::LoginBanner
        } else if index == 2 {
            Stage::ShellBanner
        } else if index == 3 {
            Stage::ShuttingDown
        } else {
            Stage::Exited
        },
    decreases index,
{
    if index > 0 {
        let earlier = (index - 1) as nat;
        assert(reports(earlier).0 is Ok);
        assert(reports(index).0 is Ok);
        shutdown_run(config, reports, earlier);
    }
}

/// A run in the reboot phase under the immediate policy clears both
/// banners, asks for one reboot and ends in good order.
pub proof fn immediate_reboot_run(config: Config, reports: Reports, index: nat)
    requires
        policy_of(config) == Ok::<RebootPolicy, ConfigError>(RebootPolicy::Immediate),
        all_done(reports, index + 1),
    ensures
        request(config, Phase::RebootPending, reports, index) == if index == 0 {
            Directive::Invoke(OsCall::SetLoginBanner(None))
        } else if index == 1 {
            Directive::Invoke(OsCall::SetShellLoginBanner(None))
        } else if index == 2 {
            Directive::Invoke(OsCall::Reboot)
        } else {
            Directive::Exit
        },
        stage_before(config, Phase::RebootPending, reports, index) == if index == 0 {
            Stage::Start
        } else if index == 1 {
            Stage::LoginBanner
        } else if index == 2 {
            Stage::ShellBanner
        } else if index == 3 {
            Stage::Rebooting(None)
        } else {
            Stage::Exited
        },
    decreases index,
{
    if index > 0 {
        let earlier = (index - 1) as nat;
        assert(reports(earlier).0 is Ok);
        assert(reports(index).0 is Ok);
        immediate_reboot_run(config, reports, earlier);
    }
}

/// A run in the reboot phase under the daily policy clears both banners
/// and from there on, for as long as every reboot is reported as done,
/// sleeps until the next occurrence of the reboot time, counted from the
/// time at which the sleep is decided, and asks for a reboot, in turns.
pub proof fn daily_reboot_run(
    config: Config,
    time_of_day: TimeOfDay,
    reports: Reports,
    index: nat,
)
    requires
        policy_of(config) == Ok::<RebootPolicy, ConfigError>(RebootPolicy::Daily(time_of_day)),
        all_done(reports, index + 1),
    ensures
        request(config, Phase::RebootPending, reports, index) == if index == 0 {
            Directive::Invoke(OsCall::SetLoginBanner(None))
        } else if index == 1 {
            Directive::Invoke(OsCall::SetShellLoginBanner(None))
        } else if index % 2 == 0 {
            Directive::Sleep(
                Pause::lasting(
                    next_occurrence(reports(index).1, time_of_day@) - reports(index).1,
                ),
            )
        } else {
            Directive::Invoke(OsCall::Reboot)
        },
        stage_before(config, Phase::RebootPending, reports, index) == if index == 0 {
            Stage::Start
        } else if index == 1 {
            Stage::LoginBanner
        } else if index == 2 {
            Stage::ShellBanner
        } else if index % 2 == 1 {
            Stage::Sleeping(time_of_day)
        } else {
            Stage::Rebooting(Some(time_of_day))
        },
    decreases index,
{
    if index > 0 {
        let earlier = (index - 1) as nat;
        assert(reports(earlier).0 is Ok);
        assert(reports(index).0 is Ok);
        daily_reboot_run(config, time_of_day, reports, earlier);
    }
}

/// Whether a run at `stage` waits for the outcome of a call to the
/// platform.
pub open spec fn awaits_call(stage: Stage) -> bool {
    stage is LoginBanner || stage is ShellBanner || stage is Rebooting || stage is ShuttingDown
}

/// The first failure of a call ends the run: the request that follows a
/// failed banner, reboot or shutdown call reports the failure, under the
/// kind of the call that failed, and so does every request after it.
pub proof fn failure_ends_run(
    config: Config,
    phase: Phase,
    reports: Reports,
    index: nat,
    later: nat,
)
    requires
        reports(index).0 is Err,
        index <= later,
        awaits_call(stage_before(config, phase, reports, index)),
    ensures
        request(config, phase, reports, later) == Directive::Abort(
            match stage_before(config, phase, reports, index) {
                Stage::Rebooting(_) => ServiceError::RebootAction(reports(index).0->Err_0),
                Stage::ShuttingDown => ServiceError::ShutdownAction(reports(index).0->Err_0),
                _ => ServiceError::Banner(reports(index).0->Err_0),
            },
        ),
    decreases later - index,
{
    if later > index {
        failure_ends_run(config, phase, reports, index, (later - 1) as nat);
    }
}

/// Whether `directive` is a request that a run in `phase` can make:
/// the banner that goes with the phase, the actions of the phase itself,
/// and the two ways in which a run ends.
pub open spec fn in_keeping(config: Config, phase: Phase, directive: Directive) -> bool {
    match directive {
        Directive::Invoke(OsCall::SetLoginBanner(banner)) => banner == banner_for(config, phase),
        Directive::Invoke(OsCall::SetShellLoginBanner(banner)) => banner == banner_for(
            config,
            phase,
        ),
        Directive::Invoke(OsCall::ShowWarning(_)) => false,
        Directive::Invoke(OsCall::Reboot) => phase == Phase::RebootPending,
        Directive::Sleep(_) => phase == Phase::RebootPending,
        Directive::Invoke(OsCall::Shutdown) => phase == Phase::ShutdownPending,
        Directive::SpawnWarningLoop => phase == Phase::Warning,
        Directive::Suspend => phase == Phase::Warning,
        Directive::Exit => phase != Phase::Warning,
        Directive::Abort(_) => true,
    }
}

/// Whether a run in `phase` can be at `stage`.
pub open spec fn stage_in_keeping(phase: Phase, stage: Stage) -> bool {
    match stage {
        Stage::Start | Stage::LoginBanner | Stage::ShellBanner | Stage::Aborted(_) => true,
        Stage::WarningLoopSpawned | Stage::Suspended => phase == Phase::Warning,
        Stage::Sleeping(_) | Stage::Rebooting(_) => phase == Phase::RebootPending,
        Stage::ShuttingDown => phase == Phase::ShutdownPending,
        Stage::Exited => phase != Phase::Warning,
    }
}

/// Whether a run at `stage` has yet to settle its banners.
pub open spec fn banners_pending(stage: Stage) -> bool {
    stage is Start || stage is LoginBanner || stage is ShellBanner
}

/// Whatever is reported to it, a run stays within its phase: a warning
/// run never reboots or shuts down, a reboot run never shuts down, a
/// shutdown run never reboots, and no run shows a warning itself. The
/// shutdown is asked for as the third request or not at all, so at most
/// once.
pub proof fn run_keeps_to_phase(config: Config, phase: Phase, reports: Reports, index: nat)
    ensures
        stage_in_keeping(phase, stage_before(config, phase, reports, index)),
        in_keeping(config, phase, request(config, phase, reports, index)),
        request(config, phase, reports, index) == Directive::Invoke(OsCall::Shutdown) ==> index
            == 2,
        index >= 3 ==> !banners_pending(stage_before(config, phase, reports, index)),
    decreases index,
{
    if index > 0 {
        run_keeps_to_phase(config, phase, reports, (index - 1) as nat);
        if index == 1 {
        } else if index == 2 {
            run_keeps_to_phase(config, phase, reports, 0);
        } else if index == 3 {
            run_keeps_to_phase(config, phase, reports, 1);
            run_keeps_to_phase(config, phase, reports, 0);
        }
    }
}

} // verus!
