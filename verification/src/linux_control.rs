//! What the service writes on a Linux host: the settings that put the
//! banner on the GNOME login screen, and the script that prints it at
//! shell logins. Writing the files and running the commands is left to
//! the caller.

use vstd::prelude::*;

verus! {

/// Where the login-screen settings go.
pub const LOGIN_BANNER_PATH: &'static str = "/etc/dconf/db/gdm.d/01-warn-message";

/// Where the shell-login script goes.
pub const SHELL_BANNER_PATH: &'static str = "/etc/profile.d/screamd-banner.sh";

/// The settings that switch the login banner on, up to its text.
pub const BANNER_ON: &'static str =
    "[org/gnome/login-screen]\nbanner-message-enable=true\nbanner-message-text='";

/// What closes the text of the login banner.
pub const BANNER_ON_END: &'static str = "'\n";

/// The settings that switch the login banner off.
pub const BANNER_OFF: &'static str = "[org/gnome/login-screen]\nbanner-message-enable=false\n";

/// The shell-login script, up to the message it prints.
pub const SCRIPT_START: &'static str = "#!/bin/sh\necho '";

/// What closes the message of the shell-login script.
pub const SCRIPT_END: &'static str = "'";

/// What a single quote inside the message is written as.
pub const QUOTE_IN_SCRIPT: &'static str = "'''";

/// The Linux side of the service.
#[derive(Clone, Copy, Debug, PartialEq, Eq)]
pub struct LinuxControl {}

/// `text` with every single quote written three times.
pub open spec fn tripled_quotes(text: Seq<char>) -> Seq<char>
    decreases text.len(),
{
    if text.len() == 0 {
        Seq::empty()
    } else if text.last() == '\'' {
        tripled_quotes(text.drop_last()) + QUOTE_IN_SCRIPT@
    } else {
        tripled_quotes(text.drop_last()).push(text.last())
    }
}

/// The login-screen settings for `message`: the banner switched on with
/// the message as its text, taken over as it stands, or switched off.
pub open spec fn login_banner_text(message: Option<Seq<char>>) -> Seq<char> {
    match message {
        Some(text) => BANNER_ON@ + text + BANNER_ON_END@,
        None => BANNER_OFF@,
    }
}

/// The shell-login script for `message`: one `echo` of the message in
/// single quotes, with the quotes inside it tripled.
pub open spec fn shell_banner_text(message: Seq<char>) -> Seq<char> {
    SCRIPT_START@ + tripled_quotes(message) + SCRIPT_END@
}

impl LinuxControl {
    /// The Linux side of the service. It holds nothing.
    pub fn new() -> (r: Self)
        ensures
            r == (LinuxControl {  }),
    {
        LinuxControl {  }
    }

    /// The contents of the login-screen settings file.
    pub fn login_banner_settings(&self, message: Option<&str>) -> (r: String)
        ensures
            r@ == login_banner_text(
                match message {
                    Some(text) => Some(text@),
                    None => None,
                },
            ),
    {
        match message {
            Some(text) => {
                let mut settings = BANNER_ON.to_owned();
                settings.append(text);
                settings.append(BANNER_ON_END);
                settings
            },
            None => BANNER_OFF.to_owned(),
        }
    }

    /// The contents of the shell-login script.
    pub fn shell_banner_script(&self, message: &str) -> (r: String)
        ensures
            r@ == shell_banner_text(message@),
    {
        let length = message.unicode_len();
        let mut script = SCRIPT_START.to_owned();
        let mut done: usize = 0;
        while done < length
            invariant
                done <= length,
                length == message@.len(),
                script@ == SCRIPT_START@ + tripled_quotes(message@.take(done as int)),
            decreases length - done,
        {
            let ghost before = message@.take(done as int);
            let ghost after = message@.take(done + 1);
            proof {
                assert(after.drop_last() =~= before);
                assert(after.last() == message@[done as int]);
            }
            if message.get_char(done) == '\'' {
                script.append(QUOTE_IN_SCRIPT);
                assert(script@ =~= SCRIPT_START@ + tripled_quotes(after));
            } else {
                script.append(message.substring_char(done, done + 1));
                assert(message@.subrange(done as int, done + 1) =~= seq![message@[done as int]]);
                assert(script@ =~= SCRIPT_START@ + tripled_quotes(after));
            }
            done = done + 1;
        }
        assert(message@.take(done as int) =~= message@);
        script.append(SCRIPT_END);
        script
    }
}

} // verus!
