//! The operating-system actions that the service asks for, and the
//! interface through which a platform carries them out.

use vstd::prelude::*;
use crate::errors::OsError;

verus! {

/// The actions a platform offers to the service.
pub trait OsControl: Send + Sync + 'static {
    /// Shows `message` to everyone who is logged in. Failures stay with
    /// the platform: there is nothing to report.
    fn show_warning(&self, message: &str);

    /// Sets the banner of the login screen, or clears it with `None`.
    fn set_login_banner(&self, message: Option<&str>) -> Result<(), OsError>;

    /// Sets the banner of shell logins, or clears it with `None`.
    fn set_shell_login_banner(&self, message: Option<&str>) -> Result<(), OsError>;

    /// Reboots the host.
    fn reboot(&self) -> Result<(), OsError>;

    /// Powers the host off.
    fn shutdown(&self) -> Result<(), OsError>;
}

/// One request to the platform, with what it is to be called with.
#[derive(Clone, Debug, PartialEq, Eq)]
pub enum OsCall {
    ShowWarning(String),
    SetLoginBanner(Option<String>),
    SetShellLoginBanner(Option<String>),
    Reboot,
    Shutdown,
}

/// Whether `outcome` is how `os` answers `call`: what the method that
/// the call names hands back when it is given the message of the call.
/// Showing a warning hands nothing back, and counts as done.
pub open spec fn answered<C: OsControl>(
    os: &C,
    call: OsCall,
    outcome: Result<(), OsError>,
) -> bool {
    match call {
        OsCall::ShowWarning(message) => outcome is Ok && exists|text: &str|
            text@ == message@ && #[trigger] call_ensures(C::show_warning, (os, text), ()),
        OsCall::SetLoginBanner(message) => exists|text: Option<&str>|
            text.deep_view() == message.deep_view() && #[trigger] call_ensures(
                C::set_login_banner,
                (os, text),
                outcome,
            ),
        OsCall::SetShellLoginBanner(message) => exists|text: Option<&str>|
            text.deep_view() == message.deep_view() && #[trigger] call_ensures(
                C::set_shell_login_banner,
                (os, text),
                outcome,
            ),
        OsCall::Reboot => call_ensures(C::reboot, (os,), outcome),
        OsCall::Shutdown => call_ensures(C::shutdown, (os,), outcome),
    }
}

/// Carries out `call` on `os` and reports how it went: it makes the one
/// call to the platform that `call` names, with the message that `call`
/// holds, and hands back what the platform answered. Showing a warning
/// always counts as done.
pub fn invoke<C: OsControl>(os: &C, call: &OsCall) -> (outcome: Result<(), OsError>)
    ensures
        call is ShowWarning ==> outcome is Ok,
        answered(os, *call, outcome),
{
    match call {
        OsCall::ShowWarning(message) => {
            os.show_warning(message.as_str());
            Ok(())
        },
        OsCall::SetLoginBanner(message) => match message {
            Some(text) => os.set_login_banner(Some(text.as_str())),
            None => os.set_login_banner(None),
        },
        OsCall::SetShellLoginBanner(message) => match message {
            Some(text) => os.set_shell_login_banner(Some(text.as_str())),
            None => os.set_shell_login_banner(None),
        },
        OsCall::Reboot => os.reboot(),
        OsCall::Shutdown => os.shutdown(),
    }
}

} // verus!
