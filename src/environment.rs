use vstd::prelude::*;

use crate::account::User;
use crate::display::{decimal, decimal_text, XDisplay};
use crate::desktop::Desktop;

verus! {

/// The variables of a launch environment.
#[derive(PartialEq, Eq, Structural, Clone, Copy, Debug)]
pub enum EnvVar {
    Home,
    Pwd,
    User,
    Logname,
    XdgConfigHome,
    XdgRuntimeDir,
    XdgSeat,
    XdgSessionClass,
    Shell,
    Lang,
    Path,
    DesktopSession,
    XdgSessionDesktop,
    XdgSessionType,
    XAuthority,
    Display,
}

/// The name of a variable in the process environment.
pub open spec fn var_name(k: EnvVar) -> Seq<char> {
    match k {
        EnvVar::Home => "HOME"@,
        EnvVar::Pwd => "PWD"@,
        EnvVar::User => "USER"@,
        EnvVar::Logname => "LOGNAME"@,
        EnvVar::XdgConfigHome => "XDG_CONFIG_HOME"@,
        EnvVar::XdgRuntimeDir => "XDG_RUNTIME_DIR"@,
        EnvVar::XdgSeat => "XDG_SEAT"@,
        EnvVar::XdgSessionClass => "XDG_SESSION_CLASS"@,
        EnvVar::Shell => "SHELL"@,
        EnvVar::Lang => "LANG"@,
        EnvVar::Path => "PATH"@,
        EnvVar::DesktopSession => "DESKTOP_SESSION"@,
        EnvVar::XdgSessionDesktop => "XDG_SESSION_DESKTOP"@,
        EnvVar::XdgSessionType => "XDG_SESSION_TYPE"@,
        EnvVar::XAuthority => "XAUTHORITY"@,
        EnvVar::Display => "DISPLAY"@,
    }
}

impl EnvVar {
    pub fn name(self) -> (r: &'static str)
        ensures
            r@ == var_name(self),
    {
        match self {
            EnvVar::Home => "HOME",
            EnvVar::Pwd => "PWD",
            EnvVar::User => "USER",
            EnvVar::Logname => "LOGNAME",
            EnvVar::XdgConfigHome => "XDG_CONFIG_HOME",
            EnvVar::XdgRuntimeDir => "XDG_RUNTIME_DIR",
            EnvVar::XdgSeat => "XDG_SEAT",
            EnvVar::XdgSessionClass => "XDG_SESSION_CLASS",
            EnvVar::Shell => "SHELL",
            EnvVar::Lang => "LANG",
            EnvVar::Path => "PATH",
            EnvVar::DesktopSession => "DESKTOP_SESSION",
            EnvVar::XdgSessionDesktop => "XDG_SESSION_DESKTOP",
            EnvVar::XdgSessionType => "XDG_SESSION_TYPE",
            EnvVar::XAuthority => "XAUTHORITY",
            EnvVar::Display => "DISPLAY",
        }
    }
}

/// `rel` under `base`, with one `/` between them.
pub open spec fn joined(base: Seq<char>, rel: Seq<char>) -> Seq<char> {
    if base.len() > 0 && base.last() == '/' {
        base + rel
    } else {
        base + seq!['/'] + rel
    }
}

/// Appends the relative path `rel` to `base`.
pub fn join_path(base: &str, rel: &str) -> (r: String)
    ensures
        r@ == joined(base@, rel@),
{
    proof {
        reveal_strlit("/");
    }
    let n = base.unicode_len();
    let r = String::from_str(base);
    if n > 0 && base.get_char(n - 1) == '/' {
        r.concat(rel)
    } else {
        let r = r.concat("/");
        let r = r.concat(rel);
        assert(r@ =~= joined(base@, rel@));
        r
    }
}

/// The value a variable has in a list of assignments, the last one winning.
pub open spec fn lookup(vars: Seq<(EnvVar, String)>, k: EnvVar) -> Option<Seq<char>>
    decreases vars.len(),
{
    if vars.len() == 0 {
        None
    } else if vars.last().0 == k {
        Some(vars.last().1@)
    } else {
        lookup(vars.drop_last(), k)
    }
}

/// The runtime directory of an account: `/run/user/<uid>`.
pub open spec fn runtime_dir_of(uid: u32) -> Seq<char> {
    "/run/user/"@ + decimal(uid as nat)
}

/// The environment a session of an account runs in, with its runtime
/// directory.
#[derive(Clone, Debug)]
pub struct Env {
    pub runtime_dir: String,
    /// Assignments in order; a later one overrides an earlier one.
    pub variables: Vec<(EnvVar, String)>,
}

impl Env {
    /// The value of a variable.
    pub open spec fn get(&self, k: EnvVar) -> Option<Seq<char>> {
        lookup(self.variables@, k)
    }

    /// The value of a variable, if it is set.
    pub fn value(&self, k: EnvVar) -> (r: Option<String>)
        ensures
            r matches Some(v) ==> self.get(k) == Some(v@),
            r is None ==> self.get(k) is None,
    {
        let mut i: usize = self.variables.len();
        proof {
            assert(self.variables@.take(i as int) =~= self.variables@);
        }
        while i > 0
            invariant
                i <= self.variables.len(),
                self.get(k) == lookup(self.variables@.take(i as int), k),
            decreases i,
        {
            proof {
                assert(self.variables@.take(i as int).drop_last() =~= self.variables@.take(i - 1));
            }
            if self.variables[i - 1].0 == k {
                return Some(self.variables[i - 1].1.clone());
            }
            i = i - 1;
        }
        None
    }

    /// Sets a variable, leaving the others as they were.
    pub fn set(&mut self, k: EnvVar, value: String)
        ensures
            final(self).runtime_dir == old(self).runtime_dir,
            final(self).get(k) == Some(value@),
            forall|o: EnvVar| o != k ==> final(self).get(o) == old(self).get(o),
    {
        self.variables.push((k, value));
        assert(self.variables@.drop_last() =~= old(self).variables@);
    }

    /// The environment of a session of `user` running `desktop`, where `path`
    /// is the operator's own `PATH`.
    pub fn define(user: &User, desktop: &Desktop, path: &str) -> (r: Env)
        ensures
            r.runtime_dir@ == runtime_dir_of(user.uid),
            r.get(EnvVar::Home) == Some(user.home_dir@),
            r.get(EnvVar::Pwd) == Some(user.home_dir@),
            r.get(EnvVar::User) == Some(user.name@),
            r.get(EnvVar::Logname) == Some(user.name@),
            r.get(EnvVar::XdgConfigHome) == Some(joined(user.home_dir@, ".config"@)),
            r.get(EnvVar::XdgRuntimeDir) == Some(runtime_dir_of(user.uid)),
            r.get(EnvVar::XdgSeat) == Some("seat0"@),
            r.get(EnvVar::XdgSessionClass) == Some("user"@),
            r.get(EnvVar::Shell) == Some(user.shell@),
            r.get(EnvVar::Lang) == Some("en_US.UTF-8"@),
            r.get(EnvVar::Path) == Some(path@),
            r.get(EnvVar::DesktopSession) == Some(desktop.name@),
            r.get(EnvVar::XdgSessionDesktop) == Some(desktop.name@),
            r.get(EnvVar::XdgSessionType) is None,
            r.get(EnvVar::XAuthority) is None,
            r.get(EnvVar::Display) is None,
    {
        let runtime_dir = String::from_str("/run/user/").concat(decimal_text(user.uid).as_str());
        let mut env = Env { runtime_dir, variables: Vec::new() };
        env.set(EnvVar::Home, user.home_dir.clone());
        env.set(EnvVar::Pwd, user.home_dir.clone());
        env.set(EnvVar::User, user.name.clone());
        env.set(EnvVar::Logname, user.name.clone());
        env.set(EnvVar::XdgConfigHome, join_path(user.home_dir.as_str(), ".config"));
        env.set(EnvVar::XdgRuntimeDir, env.runtime_dir.clone());
        env.set(EnvVar::XdgSeat, String::from_str("seat0"));
        env.set(EnvVar::XdgSessionClass, String::from_str("user"));
        env.set(EnvVar::Shell, user.shell.clone());
        env.set(EnvVar::Lang, String::from_str("en_US.UTF-8"));
        env.set(EnvVar::Path, String::from_str(path));
        env.set(EnvVar::DesktopSession, desktop.name.clone());
        env.set(EnvVar::XdgSessionDesktop, desktop.name.clone());
        env
    }

    /// The authority file inside the runtime directory.
    pub fn authority_path(&self) -> (r: String)
        ensures
            r@ == joined(self.runtime_dir@, ".Xauthority"@),
    {
        join_path(self.runtime_dir.as_str(), ".Xauthority")
    }

    /// Adds what a session on `display` needs: the session type, the
    /// authority file and the display name.
    pub fn for_display(&mut self, display: XDisplay)
        ensures
            final(self).runtime_dir == old(self).runtime_dir,
            final(self).get(EnvVar::XdgSessionType) == Some("x11"@),
            final(self).get(EnvVar::XAuthority) == Some(joined(old(self).runtime_dir@, ".Xauthority"@)),
            final(self).get(EnvVar::Display) == Some(":"@ + decimal(display.number as nat)),
            forall|o: EnvVar|
                o != EnvVar::XdgSessionType && o != EnvVar::XAuthority && o != EnvVar::Display
                    ==> final(self).get(o) == old(self).get(o),
    {
        let authority = self.authority_path();
        self.set(EnvVar::XdgSessionType, String::from_str("x11"));
        self.set(EnvVar::XAuthority, authority);
        self.set(EnvVar::Display, display.name());
    }
}

impl User {
    /// Where the account's last session is recorded.
    pub fn last_session_path(&self) -> (r: String)
        ensures
            r@ == joined(self.home_dir@, ".cache/dsdmona/last_session"@),
    {
        join_path(self.home_dir.as_str(), ".cache/dsdmona/last_session")
    }
}

} // verus!
