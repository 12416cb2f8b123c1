use vstd::prelude::*;

use crate::text::same_text;

verus! {

/// How the session command is started.
#[derive(PartialEq, Eq, Structural, Clone, Copy, Debug)]
pub enum LaunchType {
    /// Through a login shell that runs the account's `~/.xinitrc`.
    XInitRc,
    /// Through the session-bus launcher.
    DBus,
}

/// Settings of one login cycle.
#[derive(Clone, Debug)]
pub struct Config {
    /// The virtual terminal the display server binds to.
    pub tty: u8,
    pub launch_type: LaunchType,
    /// A command prefix that selects a session without asking.
    pub auto_login_session: Option<String>,
}

impl LaunchType {
    /// The launch type named by `s`: `xinitrc` or `dbus`.
    pub fn parse(s: &str) -> (r: Option<LaunchType>)
        ensures
            r == (if s@ == "xinitrc"@ {
                Some(LaunchType::XInitRc)
            } else if s@ == "dbus"@ {
                Some(LaunchType::DBus)
            } else {
                None
            }),
    {
        if same_text(s, "xinitrc") {
            Some(LaunchType::XInitRc)
        } else if same_text(s, "dbus") {
            Some(LaunchType::DBus)
        } else {
            None
        }
    }
}

/// A launch type name that is neither `xinitrc` nor `dbus`.
#[derive(PartialEq, Eq, Structural, Clone, Copy, Debug)]
pub struct UnknownLaunchType;

impl std::str::FromStr for LaunchType {
    type Err = UnknownLaunchType;

    fn from_str(s: &str) -> Result<LaunchType, UnknownLaunchType> {
        match LaunchType::parse(s) {
            Some(t) => Ok(t),
            None => Err(UnknownLaunchType),
        }
    }
}

} // verus!
