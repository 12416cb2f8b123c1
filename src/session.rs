use vstd::prelude::*;

use crate::account::User;
use crate::config::{Config, LaunchType};
use crate::desktop::Desktop;
use crate::text::{lemma_pieces_nonempty, pieces, split_on, texts, trim_text, trimmed};
use crate::display::{decimal, decimal_text, XDisplay};
use crate::environment::{join_path, joined};
use crate::error::LoginError;

verus! {

/// The words of a command line: its pieces between single spaces.
pub open spec fn split_words(s: Seq<char>) -> Seq<Seq<char>> {
    pieces(s, ' ')
}

/// Splits a command line at each space.
pub fn split_command(line: &str) -> (r: Vec<String>)
    ensures
        texts(r@) == split_words(line@),
{
    split_on(line, ' ')
}

/// A program with its arguments.
#[derive(Clone, Debug)]
pub struct SessionCommand {
    pub program: String,
    pub args: Vec<String>,
}

/// The account's login-shell initialisation script.
pub open spec fn xinitrc_path(home: Seq<char>) -> Seq<char> {
    joined(home, ".xinitrc"@)
}

/// Whether the session goes through the account's `~/.xinitrc`: the launch
/// type asks for it, the command does not already run it, and it exists.
pub open spec fn uses_login_script(launch: LaunchType, words: Seq<Seq<char>>, has_xinitrc: bool) -> bool {
    launch == LaunchType::XInitRc && !words.contains(".xinitrc"@) && has_xinitrc
}

/// Whether one of the words is `.xinitrc`.
fn mentions_xinitrc(words: &Vec<String>) -> (r: bool)
    ensures
        r == texts(words@).contains(".xinitrc"@),
{
    let name = String::from_str(".xinitrc");
    let mut i: usize = 0;
    while i < words.len()
        invariant
            i <= words.len(),
            name@ == ".xinitrc"@,
            forall|j: int| 0 <= j < i ==> words@[j]@ != ".xinitrc"@,
        decreases words.len() - i,
    {
        if words[i] == name {
            proof {
                assert(texts(words@)[i as int] == ".xinitrc"@);
            }
            return true;
        }
        i = i + 1;
    }
    proof {
        if texts(words@).contains(".xinitrc"@) {
            let k = choose|k: int| 0 <= k < texts(words@).len() && texts(words@)[k] == ".xinitrc"@;
            assert(words@[k]@ == ".xinitrc"@);
        }
    }
    false
}

/// The command that starts the desktop's session for `user`: through a
/// login shell running `~/.xinitrc` (when `uses_login_script`), through the
/// session-bus launcher for `DBus`, or verbatim. `has_xinitrc` tells whether
/// the account has that script. A command line that begins with no program
/// is refused.
pub fn prepare_gui_command(user: &User, desktop: &Desktop, config: &Config, has_xinitrc: bool) -> (r:
    Result<SessionCommand, LoginError>)
    ensures
        r is Err <==> split_words(desktop.command@)[0].len() == 0,
        r matches Err(e) ==> e == LoginError::InvalidSessionDefinition,
        r matches Ok(c) ==> if uses_login_script(
            config.launch_type,
            split_words(desktop.command@),
            has_xinitrc,
        ) {
            &&& c.program@ == "/bin/bash"@
            &&& texts(c.args@) == seq!["--login"@, xinitrc_path(user.home_dir@)] + split_words(
                desktop.command@,
            )
        } else if config.launch_type == LaunchType::DBus {
            &&& c.program@ == "dbus-launch"@
            &&& texts(c.args@) == split_words(desktop.command@)
        } else {
            &&& c.program@ == split_words(desktop.command@)[0]
            &&& texts(c.args@) == split_words(desktop.command@).drop_first()
        },
{
    let mut words = split_command(desktop.command.as_str());
    proof {
        lemma_pieces_nonempty(desktop.command@, ' ');
        assert(texts(words@)[0] == words@[0]@);
    }
    if words[0].unicode_len() == 0 {
        return Err(LoginError::InvalidSessionDefinition);
    }
    let mentioned = mentions_xinitrc(&words);
    if config.launch_type == LaunchType::XInitRc && !mentioned && has_xinitrc {
        let mut args: Vec<String> = Vec::new();
        args.push(String::from_str("--login"));
        args.push(join_path(user.home_dir.as_str(), ".xinitrc"));
        let ghost first = args@;
        let ghost rest = words@;
        args.append(&mut words);
        proof {
            assert(texts(first) =~= seq!["--login"@, xinitrc_path(user.home_dir@)]);
            assert(texts(args@) =~= texts(first) + texts(rest));
        }
        Ok(SessionCommand { program: String::from_str("/bin/bash"), args })
    } else if config.launch_type == LaunchType::DBus {
        Ok(SessionCommand { program: String::from_str("dbus-launch"), args: words })
    } else {
        let ghost all = words@;
        let program = words.remove(0);
        proof {
            assert(texts(words@) =~= texts(all).drop_first());
        }
        Ok(SessionCommand { program, args: words })
    }
}

/// The arguments of the display server: `vt<N>` and the display name.
pub fn xorg_args(vt: u8, display: XDisplay) -> (r: Vec<String>)
    ensures
        texts(r@) == seq!["vt"@ + decimal(vt as nat), ":"@ + decimal(display.number as nat)],
{
    let mut r: Vec<String> = Vec::new();
    r.push(String::from_str("vt").concat(decimal_text(vt as u32).as_str()));
    r.push(display.name());
    assert(texts(r@) =~= seq!["vt"@ + decimal(vt as nat), ":"@ + decimal(display.number as nat)]);
    r
}

/// The arguments that bind `cookie` to the display in the authority file:
/// `add <display> . <cookie>`.
pub fn xauth_add_args(display: XDisplay, cookie: &str) -> (r: Vec<String>)
    ensures
        texts(r@) == seq!["add"@, ":"@ + decimal(display.number as nat), "."@, cookie@],
{
    let mut r: Vec<String> = Vec::new();
    r.push(String::from_str("add"));
    r.push(display.name());
    r.push(String::from_str("."));
    r.push(String::from_str(cookie));
    assert(texts(r@) =~= seq!["add"@, ":"@ + decimal(display.number as nat), "."@, cookie@]);
    r
}

/// The arguments that bind the cookie printed by the generator (`output`,
/// surrounding whitespace removed) to the display.
pub fn xauth_args(display: XDisplay, output: &str) -> (r: Vec<String>)
    ensures
        texts(r@) == seq!["add"@, ":"@ + decimal(display.number as nat), "."@, trimmed(output@)],
{
    let cookie = trim_text(output);
    xauth_add_args(display, cookie.as_str())
}

} // verus!
