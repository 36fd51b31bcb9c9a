//! Lifecycle scheduling for a host that warns its users, reboots on a
//! schedule and finally shuts down.
//!
//! A service is first started at some instant, which it keeps in a start
//! record. From that instant and two configured lengths follow two
//! deadlines, and from the deadlines the phase a host is in: warning,
//! reboot pending or shutdown pending.
//!
//! Everything here is deterministic. The caller supplies the current
//! time, the contents of the start record and the outcome of each
//! operating-system action; the library answers with the phase and with
//! the next thing to do.
//!
//! * [`service_core`]: the configuration, the phases and the deadlines.
//! * [`epoch_store`]: reading and creating the start record.
//! * [`lifecycle`]: one run of the service, request by request.
//! * [`warning_loop`]: the loop that keeps warning during the first phase.
//! * [`reboot`]: the reboot policies and the wait for the daily reboot.
//! * [`os_control`]: the actions asked of a platform.
//! * [`linux_control`]: the files that carry the banners on Linux.
//! * [`time`], [`text`], [`errors`]: the values the above are stated in.

pub mod epoch_store;
pub mod errors;
pub mod lifecycle;
pub mod linux_control;
pub mod os_control;
pub mod reboot;
pub mod service_core;
pub mod text;
pub mod time;
pub mod warning_loop;
