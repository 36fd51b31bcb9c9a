//! The configuration of the service, the three phases of its lifecycle
//! and the deadlines that separate them.

use vstd::prelude::*;
use crate::errors::ConfigError;
use crate::text::{decimal, decimal_digits, decimal_i64, decimal_u64, truth_text, truth_word};
use crate::time::Instant;

verus! {

/// The settings of one run. Lengths are counted in days, or in minutes
/// when `debug` is set.
#[derive(Clone, Debug, PartialEq, Eq)]
pub struct Config {
    pub debug: bool,
    pub warn_message: String,
    pub warn_duration_days: i64,
    pub reboot_duration_days: i64,
    pub warn_interval_seconds: u64,
    pub reboot_time: Option<String>,
}

/// The stage of the lifecycle that a host is in.
#[derive(Clone, Copy, Debug, PartialEq, Eq, Structural)]
pub enum Phase {
    Warning,
    RebootPending,
    ShutdownPending,
}

/// The phase at some instant, with the two deadlines it was derived from.
/// A deadline is `None` when it lies outside the range of [`Instant`].
#[derive(Clone, Copy, Debug, PartialEq, Eq)]
pub struct PhaseReport {
    pub phase: Phase,
    pub warn_deadline: Option<Instant>,
    pub reboot_deadline: Option<Instant>,
}

/// The nanoseconds in one unit of length: a minute in debug mode, a day
/// otherwise.
pub open spec fn unit_nanos(debug: bool) -> int {
    if debug {
        60_000_000_000
    } else {
        86_400_000_000_000
    }
}

/// The phase at `now`, given the two deadlines. An instant that equals a
/// deadline already belongs to the phase after it.
pub open spec fn phase_at(now: int, warn_deadline: int, reboot_deadline: int) -> Phase {
    if now < warn_deadline {
        Phase::Warning
    } else if now < reboot_deadline {
        Phase::RebootPending
    } else {
        Phase::ShutdownPending
    }
}

/// Whether `slot` reports the deadline `nanos`: the instant itself where
/// one exists, and `None` only where none does.
pub open spec fn reports_deadline(slot: Option<Instant>, nanos: int) -> bool {
    match slot {
        Some(t) => t@ == nanos,
        None => !Instant::in_range(nanos),
    }
}

impl Config {
    /// Whether the values are ones the service accepts.
    pub open spec fn valid(&self) -> bool {
        &&& self.warn_duration_days >= 0
        &&& self.reboot_duration_days >= 0
        &&& self.warn_interval_seconds > 0
    }

    /// The length of the warning phase in nanoseconds.
    pub open spec fn warn_span(&self) -> int {
        self.warn_duration_days * unit_nanos(self.debug)
    }

    /// The length of the reboot phase in nanoseconds.
    pub open spec fn reboot_span(&self) -> int {
        self.reboot_duration_days * unit_nanos(self.debug)
    }

    /// The end of the warning phase for a service first started at `epoch`.
    pub open spec fn warn_deadline(&self, epoch: int) -> int {
        epoch + self.warn_span()
    }

    /// The end of the reboot phase for a service first started at `epoch`.
    pub open spec fn reboot_deadline(&self, epoch: int) -> int {
        self.warn_deadline(epoch) + self.reboot_span()
    }

    /// The settings written out, one to a line.
    pub open spec fn description(&self) -> Seq<char> {
        "Debug: "@ + truth_word(self.debug) + "\n  Warn Message: "@ + self.warn_message@
            + "\n  Warn Duration: "@ + decimal(self.warn_duration_days as int)
            + " days\n  Reboot Duration: "@ + decimal(self.reboot_duration_days as int)
            + " days\n  Warn Interval: "@ + decimal_digits(self.warn_interval_seconds as nat)
            + " seconds\n  Reboot Time: "@ + match self.reboot_time {
            Some(text) => text@,
            None => "none"@,
        }
    }

    /// Writes the settings out, one to a line.
    pub fn describe(&self) -> (r: String)
        ensures
            r@ == self.description(),
    {
        let mut text = "Debug: ".to_owned();
        text.append(truth_text(self.debug));
        text.append("\n  Warn Message: ");
        text.append(self.warn_message.as_str());
        text.append("\n  Warn Duration: ");
        text.append(decimal_i64(self.warn_duration_days).as_str());
        text.append(" days\n  Reboot Duration: ");
        text.append(decimal_i64(self.reboot_duration_days).as_str());
        text.append(" days\n  Warn Interval: ");
        text.append(decimal_u64(self.warn_interval_seconds).as_str());
        text.append(" seconds\n  Reboot Time: ");
        match &self.reboot_time {
            Some(time) => text.append(time.as_str()),
            None => text.append("none"),
        }
        assert(text@ =~= self.description());
        text
    }

    /// The first value that the service cannot run with, if any: the
    /// warning length comes first, the reboot length next, the warning
    /// interval last.
    pub open spec fn fault(&self) -> Option<ConfigError> {
        if self.warn_duration_days < 0 {
            Some(ConfigError::NegativeWarnDuration(self.warn_duration_days))
        } else if self.reboot_duration_days < 0 {
            Some(ConfigError::NegativeRebootDuration(self.reboot_duration_days))
        } else if self.warn_interval_seconds == 0 {
            Some(ConfigError::ZeroWarnInterval)
        } else {
            None
        }
    }

    /// Checks the values and reports the first one that is unusable.
    pub fn validate(&self) -> (r: Result<(), ConfigError>)
        ensures
            r is Ok <==> self.valid(),
            match r {
                Ok(_) => self.fault() is None,
                Err(e) => self.fault() == Some(e),
            },
    {
        if self.warn_duration_days < 0 {
            return Err(ConfigError::NegativeWarnDuration(self.warn_duration_days));
        }
        if self.reboot_duration_days < 0 {
            return Err(ConfigError::NegativeRebootDuration(self.reboot_duration_days));
        }
        if self.warn_interval_seconds == 0 {
            return Err(ConfigError::ZeroWarnInterval);
        }
        Ok(())
    }
}

/// Nanoseconds spanned by `count` units of length.
fn span_nanos(count: i64, debug: bool) -> (r: i128)
    ensures
        r == count * unit_nanos(debug),
        -800_000_000_000_000_000_000_000_000_000_000 < r
            < 800_000_000_000_000_000_000_000_000_000_000,
{
    if debug {
        count as i128 * 60_000_000_000
    } else {
        count as i128 * 86_400_000_000_000
    }
}

/// Determines the phase of a service first started at `epoch`, as seen
/// at `now`, together with the deadlines of the warning and reboot phases.
pub fn compute_phase(config: &Config, epoch: Instant, now: Instant) -> (report: PhaseReport)
    ensures
        report.phase == phase_at(
            now@,
            config.warn_deadline(epoch@),
            config.reboot_deadline(epoch@),
        ),
        reports_deadline(report.warn_deadline, config.warn_deadline(epoch@)),
        reports_deadline(report.reboot_deadline, config.reboot_deadline(epoch@)),
        now@ < epoch@ + config.warn_span() ==> report.phase == Phase::Warning,
        epoch@ + config.warn_span() <= now@ < epoch@ + config.warn_span() + config.reboot_span()
            ==> report.phase == Phase::RebootPending,
        config.reboot_duration_days >= 0 && now@ >= epoch@ + config.warn_span()
            + config.reboot_span() ==> report.phase == Phase::ShutdownPending,
{
    let start: i128 = epoch.total_nanos();
    let current: i128 = now.total_nanos();
    let warn_deadline: i128 = start + span_nanos(config.warn_duration_days, config.debug);
    let reboot_deadline: i128 = warn_deadline + span_nanos(
        config.reboot_duration_days,
        config.debug,
    );
    let phase = if current < warn_deadline {
        Phase::Warning
    } else if current < reboot_deadline {
        Phase::RebootPending
    } else {
        Phase::ShutdownPending
    };
    PhaseReport {
        phase,
        warn_deadline: Instant::from_total_nanos(warn_deadline),
        reboot_deadline: Instant::from_total_nanos(reboot_deadline),
    }
}

/// With lengths that are not negative the deadlines come in order: the
/// warning deadline is no earlier than the start, and the reboot deadline
/// no earlier than the warning deadline.
pub proof fn deadlines_in_order(config: Config, epoch: int)
    requires
        config.warn_duration_days >= 0,
        config.reboot_duration_days >= 0,
    ensures
        epoch <= config.warn_deadline(epoch) <= config.reboot_deadline(epoch),
{
}

/// An instant that equals a deadline belongs to the phase after it: at
/// the warning deadline the warning phase is over, and at the reboot
/// deadline the reboot phase is over too.
pub proof fn boundary_belongs_to_later_phase(config: Config, epoch: int)
    requires
        config.reboot_duration_days >= 0,
    ensures
        phase_at(
            config.warn_deadline(epoch),
            config.warn_deadline(epoch),
            config.reboot_deadline(epoch),
        ) == if config.reboot_duration_days > 0 {
            Phase::RebootPending
        } else {
            Phase::ShutdownPending
        },
        phase_at(
            config.reboot_deadline(epoch),
            config.warn_deadline(epoch),
            config.reboot_deadline(epoch),
        ) == Phase::ShutdownPending,
        phase_at(
            config.warn_deadline(epoch) - 1,
            config.warn_deadline(epoch),
            config.reboot_deadline(epoch),
        ) == Phase::Warning,
        config.reboot_duration_days > 0 ==> phase_at(
            config.reboot_deadline(epoch) - 1,
            config.warn_deadline(epoch),
            config.reboot_deadline(epoch),
        ) == Phase::RebootPending,
{
}

/// Debug mode counts in minutes what is otherwise counted in days: with
/// the same numbers, each span without debug mode is 1440 times the span
/// with it, and a debug span of `n` is `n` minutes long.
pub proof fn debug_counts_minutes(fast: Config, slow: Config, epoch: int)
    requires
        fast.debug,
        !slow.debug,
        fast.warn_duration_days == slow.warn_duration_days,
        fast.reboot_duration_days == slow.reboot_duration_days,
    ensures
        fast.warn_span() == fast.warn_duration_days * 60 * 1_000_000_000,
        fast.reboot_span() == fast.reboot_duration_days * 60 * 1_000_000_000,
        slow.warn_span() == 1440 * fast.warn_span(),
        slow.reboot_span() == 1440 * fast.reboot_span(),
        slow.warn_deadline(epoch) - epoch == 1440 * (fast.warn_deadline(epoch) - epoch),
        slow.reboot_deadline(epoch) - epoch == 1440 * (fast.reboot_deadline(epoch) - epoch),
{
}

/// The place of a phase in the lifecycle.
pub open spec fn phase_order(phase: Phase) -> int {
    match phase {
        Phase::Warning => 0,
        Phase::RebootPending => 1,
        Phase::ShutdownPending => 2,
    }
}

/// With a reboot length that is not negative, time only moves a service
/// forward through its phases.
pub proof fn phases_never_go_back(config: Config, epoch: int, earlier: int, later: int)
    requires
        config.reboot_duration_days >= 0,
        earlier <= later,
    ensures
        phase_order(
            phase_at(earlier, config.warn_deadline(epoch), config.reboot_deadline(epoch)),
        ) <= phase_order(
            phase_at(later, config.warn_deadline(epoch), config.reboot_deadline(epoch)),
        ),
{
}

} // verus!
