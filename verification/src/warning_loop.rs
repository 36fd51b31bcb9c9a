//! The warning loop: show the warning, stay suspended for the interval,
//! and start over, for as long as the task is alive.

use vstd::prelude::*;
use crate::lifecycle::Directive;
use crate::os_control::OsCall;
use crate::service_core::Config;
use crate::time::Pause;

verus! {

/// The warning loop of one run. It has no end of its own, and nothing
/// that happens to a warning reaches it: it takes no outcome.
#[derive(Clone, Debug, PartialEq, Eq)]
pub struct WarningLoop {
    /// The message to show.
    pub message: String,
    /// The seconds to stay suspended between two warnings.
    pub interval_seconds: u64,
    /// Whether the next request is a warning, not a pause.
    pub warning_due: bool,
}

/// The transition of the loop: a warning where one is due, the pause
/// otherwise, each making the other due.
pub open spec fn turn(state: WarningLoop) -> (WarningLoop, Directive) {
    if state.warning_due {
        (
            WarningLoop { warning_due: false, ..state },
            Directive::Invoke(OsCall::ShowWarning(state.message)),
        )
    } else {
        (
            WarningLoop { warning_due: true, ..state },
            Directive::Sleep(Pause { secs: state.interval_seconds, nanos: 0 }),
        )
    }
}

/// The request that the loop makes after `count` earlier ones.
pub open spec fn request_after(state: WarningLoop, count: nat) -> Directive
    decreases count,
{
    if count == 0 {
        turn(state).1
    } else {
        request_after(turn(state).0, (count - 1) as nat)
    }
}

impl WarningLoop {
    /// The loop that `config` asks for, with a warning due at once.
    pub fn new(config: &Config) -> (r: WarningLoop)
        ensures
            r == (WarningLoop {
                message: config.warn_message,
                interval_seconds: config.warn_interval_seconds,
                warning_due: true,
            }),
    {
        WarningLoop {
            message: config.warn_message.clone(),
            interval_seconds: config.warn_interval_seconds,
            warning_due: true,
        }
    }

    /// The next request of the loop.
    pub fn next(&mut self) -> (directive: Directive)
        ensures
            (*final(self), directive) == turn(*old(self)),
    {
        if self.warning_due {
            self.warning_due = false;
            Directive::Invoke(OsCall::ShowWarning(self.message.clone()))
        } else {
            self.warning_due = true;
            Directive::Sleep(Pause::from_secs(self.interval_seconds))
        }
    }
}

/// A fresh loop warns at once, and from there on warnings and pauses of
/// the configured length take turns without end: the requests at even
/// positions are warnings, those at odd positions are pauses.
pub proof fn warnings_and_pauses_alternate(state: WarningLoop, count: nat)
    requires
        state.warning_due,
    ensures
        count % 2 == 0 ==> request_after(state, count) == Directive::Invoke(
            OsCall::ShowWarning(state.message),
        ),
        count % 2 == 1 ==> request_after(state, count) == Directive::Sleep(
            Pause { secs: state.interval_seconds, nanos: 0 },
        ),
    decreases count,
{
    if count >= 2 {
        let after_two = turn(turn(state).0).0;
        assert(after_two == state);
        assert(request_after(state, count) == request_after(turn(state).0, (count - 1) as nat));
        assert(request_after(turn(state).0, (count - 1) as nat) == request_after(
            after_two,
            (count - 2) as nat,
        ));
        warnings_and_pauses_alternate(state, (count - 2) as nat);
    } else if count == 1 {
        assert(request_after(state, 1) == request_after(turn(state).0, 0));
    }
}

} // verus!
