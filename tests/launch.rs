use dsdmona::config::UnknownLaunchType;
use dsdmona::display::DISPLAY_SLOTS;
use dsdmona::environment::join_path;
use dsdmona::session::{prepare_gui_command, split_command, xauth_add_args, xauth_args, xorg_args};
use dsdmona::{Config, Desktop, Env, EnvVar, LaunchType, LoginError, User, XDisplay};

fn ann() -> User {
    User::new(1000, 1000, "ann".to_string(), "/home/ann".to_string(), "/bin/zsh".to_string())
}

fn desktop(command: &str) -> Desktop {
    Desktop {
        name: "Foo".to_string(),
        comment: "A desktop".to_string(),
        command: command.to_string(),
        tag: "Xorg".to_string(),
    }
}

fn config(launch_type: LaunchType) -> Config {
    Config { tty: 2, launch_type, auto_login_session: None }
}

#[test]
fn first_free_display() {
    assert_eq!(XDisplay::find_free_xdisplay(&[true, true, false, false]), Some(2));
    assert_eq!(XDisplay::find_free_xdisplay(&[false]), Some(0));
    assert_eq!(XDisplay::find_free_xdisplay(&[true; 32]), None);
    assert_eq!(XDisplay::find_free_xdisplay(&[]), None);
    let mut beyond = vec![true; 40];
    beyond[35] = false;
    assert_eq!(XDisplay::find_free_xdisplay(&beyond), None);
    assert_eq!(DISPLAY_SLOTS, 32);
}

#[test]
fn allocation_twice_gives_same_slot() {
    let locks = vec![true, true, true, false, true];
    let first = XDisplay::find_free_xdisplay(&locks);
    let second = XDisplay::find_free_xdisplay(&locks);
    assert_eq!(first, Some(3));
    assert_eq!(first, second);
}

#[test]
fn display_names() {
    assert_eq!(XDisplay { number: 0 }.name(), ":0");
    assert_eq!(XDisplay { number: 12 }.name(), ":12");
    assert_eq!(XDisplay { number: 3 }.lock_path(), "/tmp/.X3-lock");
}

#[test]
fn environment_of_a_session() {
    let env = Env::define(&ann(), &desktop("/usr/bin/foo"), "/usr/bin:/bin");
    assert_eq!(env.runtime_dir, "/run/user/1000");
    assert_eq!(env.value(EnvVar::Home).unwrap(), "/home/ann");
    assert_eq!(env.value(EnvVar::Pwd).unwrap(), "/home/ann");
    assert_eq!(env.value(EnvVar::User).unwrap(), "ann");
    assert_eq!(env.value(EnvVar::Logname).unwrap(), "ann");
    assert_eq!(env.value(EnvVar::XdgConfigHome).unwrap(), "/home/ann/.config");
    assert_eq!(env.value(EnvVar::XdgRuntimeDir).unwrap(), "/run/user/1000");
    assert_eq!(env.value(EnvVar::XdgSeat).unwrap(), "seat0");
    assert_eq!(env.value(EnvVar::XdgSessionClass).unwrap(), "user");
    assert_eq!(env.value(EnvVar::Shell).unwrap(), "/bin/zsh");
    assert_eq!(env.value(EnvVar::Lang).unwrap(), "en_US.UTF-8");
    assert_eq!(env.value(EnvVar::Path).unwrap(), "/usr/bin:/bin");
    assert_eq!(env.value(EnvVar::DesktopSession).unwrap(), "Foo");
    assert_eq!(env.value(EnvVar::XdgSessionDesktop).unwrap(), "Foo");
    assert_eq!(env.value(EnvVar::Display), None);
    assert_eq!(EnvVar::XdgConfigHome.name(), "XDG_CONFIG_HOME");
}

#[test]
fn environment_for_a_display() {
    let mut env = Env::define(&ann(), &desktop("/usr/bin/foo"), "/bin");
    assert_eq!(env.authority_path(), "/run/user/1000/.Xauthority");
    env.for_display(XDisplay { number: 4 });
    assert_eq!(env.value(EnvVar::XdgSessionType).unwrap(), "x11");
    assert_eq!(env.value(EnvVar::XAuthority).unwrap(), "/run/user/1000/.Xauthority");
    assert_eq!(env.value(EnvVar::Display).unwrap(), ":4");
    assert_eq!(env.value(EnvVar::Home).unwrap(), "/home/ann");
    env.set(EnvVar::Home, "/tmp".to_string());
    assert_eq!(env.value(EnvVar::Home).unwrap(), "/tmp");
}

#[test]
fn paths_are_joined() {
    assert_eq!(join_path("/home/ann", ".config"), "/home/ann/.config");
    assert_eq!(join_path("/", ".config"), "/.config");
    assert_eq!(join_path("", "x"), "/x");
    assert_eq!(ann().last_session_path(), "/home/ann/.cache/dsdmona/last_session");
}

#[test]
fn command_line_split() {
    assert_eq!(split_command("a b"), vec!["a", "b"]);
    assert_eq!(split_command("a  b"), vec!["a", "", "b"]);
    assert_eq!(split_command(""), vec![""]);
    assert_eq!(split_command("startplasma-x11"), vec!["startplasma-x11"]);
}

#[test]
fn command_through_login_script() {
    let c = prepare_gui_command(&ann(), &desktop("/usr/bin/foo --bar"), &config(LaunchType::XInitRc), true)
        .unwrap();
    assert_eq!(c.program, "/bin/bash");
    assert_eq!(c.args, vec!["--login", "/home/ann/.xinitrc", "/usr/bin/foo", "--bar"]);
}

#[test]
fn command_verbatim_without_script() {
    let c = prepare_gui_command(&ann(), &desktop("/usr/bin/foo --bar"), &config(LaunchType::XInitRc), false)
        .unwrap();
    assert_eq!(c.program, "/usr/bin/foo");
    assert_eq!(c.args, vec!["--bar"]);
    let c = prepare_gui_command(&ann(), &desktop("sh .xinitrc"), &config(LaunchType::XInitRc), true).unwrap();
    assert_eq!(c.program, "sh");
    assert_eq!(c.args, vec![".xinitrc"]);
}

#[test]
fn command_through_session_bus() {
    let c = prepare_gui_command(&ann(), &desktop("/usr/bin/foo"), &config(LaunchType::DBus), true).unwrap();
    assert_eq!(c.program, "dbus-launch");
    assert_eq!(c.args, vec!["/usr/bin/foo"]);
}

#[test]
fn empty_command_is_invalid() {
    for launch in [LaunchType::XInitRc, LaunchType::DBus] {
        let r = prepare_gui_command(&ann(), &desktop(""), &config(launch), true);
        assert_eq!(r.unwrap_err(), LoginError::InvalidSessionDefinition);
        let r = prepare_gui_command(&ann(), &desktop(" foo"), &config(launch), false);
        assert_eq!(r.unwrap_err(), LoginError::InvalidSessionDefinition);
    }
}

#[test]
fn server_and_authority_arguments() {
    assert_eq!(xorg_args(2, XDisplay { number: 1 }), vec!["vt2", ":1"]);
    assert_eq!(xauth_add_args(XDisplay { number: 0 }, "abc"), vec!["add", ":0", ".", "abc"]);
    assert_eq!(
        xauth_args(XDisplay { number: 5 }, "  0123abcd\n"),
        vec!["add", ":5", ".", "0123abcd"]
    );
}

#[test]
fn launch_type_names() {
    assert_eq!(LaunchType::parse("xinitrc"), Some(LaunchType::XInitRc));
    assert_eq!(LaunchType::parse("dbus"), Some(LaunchType::DBus));
    assert_eq!(LaunchType::parse("DBus"), None);
    assert_eq!("dbus".parse::<LaunchType>(), Ok(LaunchType::DBus));
    assert_eq!("x".parse::<LaunchType>(), Err(UnknownLaunchType));
}
