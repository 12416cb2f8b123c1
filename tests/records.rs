use dsdmona::account::{enumerate_accounts, next_lookup, LookupNext, LookupStatus, INITIAL_LOOKUP_BUFFER};
use dsdmona::credential::verify_secret;
use dsdmona::desktop::{
    find_desktop_by_prefix, last_session_changed, pick_last_matching, select_auto_login, DesktopEntry,
};
use dsdmona::text::{find_char, same_text, split_on, starts_with};
use dsdmona::{Desktop, LastSession, LoginError, User};

fn user(uid: u32, name: &str) -> User {
    User::new(uid, 100, name.to_string(), format!("/home/{name}"), "/bin/sh".to_string())
}

fn desktop(name: &str, command: &str, tag: &str) -> Desktop {
    Desktop {
        name: name.to_string(),
        comment: String::new(),
        command: command.to_string(),
        tag: tag.to_string(),
    }
}

#[test]
fn accounts_in_range_without_duplicates() {
    let records = vec![
        user(0, "root"),
        user(1000, "ann"),
        user(65534, "nobody"),
        user(1500, "bob"),
        user(1000, "ann2"),
        user(65533, "last"),
        user(999, "svc"),
    ];
    let all = User::all(&records);
    let ids: Vec<u32> = all.iter().map(|u| u.uid()).collect();
    assert_eq!(ids, vec![1000, 1500, 65533]);
    assert_eq!(all[0].name(), "ann");
    let narrow = enumerate_accounts(&records, 1000, 1001);
    assert_eq!(narrow.len(), 1);
    assert!(User::all(&Vec::new()).is_empty());
}

#[test]
fn user_getters() {
    let u = user(1234, "eve");
    assert_eq!(u.uid(), 1234);
    assert_eq!(u.primary_group(), 100);
    assert_eq!(u.home_dir(), "/home/eve");
    assert_eq!(u.shell(), "/bin/sh");
}

#[test]
fn lookup_decisions() {
    assert_eq!(next_lookup(LookupStatus::Found, 2048), Ok(LookupNext::Read));
    assert_eq!(next_lookup(LookupStatus::Missing, 2048), Err(LoginError::NotFound));
    assert_eq!(
        next_lookup(LookupStatus::AccessDenied, 2048),
        Err(LoginError::PermissionDenied)
    );
    assert_eq!(
        next_lookup(LookupStatus::BufferTooSmall, INITIAL_LOOKUP_BUFFER),
        Ok(LookupNext::Retry(4096))
    );
    assert_eq!(
        next_lookup(LookupStatus::BufferTooSmall, usize::MAX / 2 + 1),
        Err(LoginError::ResourceExhausted)
    );
}

#[test]
fn secret_comparison() {
    let stored = b"$6$salt$hash".to_vec();
    assert!(verify_secret(Some(stored.clone()), stored.clone()));
    assert!(!verify_secret(Some(b"$6$salt$other".to_vec()), stored.clone()));
    assert!(!verify_secret(Some(b"$6$salt$has".to_vec()), stored.clone()));
    assert!(!verify_secret(None, stored));
    assert!(verify_secret(Some(Vec::new()), Vec::new()));
}

#[test]
fn record_format_and_round_trip() {
    let text = LastSession::format("/usr/bin/foo", "Xorg");
    assert_eq!(text, "/usr/bin/foo;Xorg");
    let back = LastSession::parse(1000, &text).unwrap();
    assert_eq!(back.uid, 1000);
    assert_eq!(back.command, "/usr/bin/foo");
    assert_eq!(back.tag, "Xorg");
    let spaced = LastSession::format("startx --opt a", "");
    let back = LastSession::parse(7, &spaced).unwrap();
    assert_eq!(back.command, "startx --opt a");
    assert_eq!(back.tag, "");
}

#[test]
fn record_parse_edge_cases() {
    assert!(LastSession::parse(1, "").is_none());
    assert!(LastSession::parse(1, "no separator").is_none());
    assert!(LastSession::parse(1, "\na;b").is_none());
    let r = LastSession::parse(1, "a;b;c\nignored;x").unwrap();
    assert_eq!(r.command, "a;b");
    assert_eq!(r.tag, "c");
    let r = LastSession::parse(1, ";").unwrap();
    assert_eq!(r.command, "");
    assert_eq!(r.tag, "");
}

#[test]
fn last_session_matches_known_desktop() {
    let last = LastSession::parse(1000, "/usr/bin/foo;Xorg");
    let desktops = vec![
        desktop("Bar", "/usr/bin/bar", "Xorg"),
        desktop("Foo", "/usr/bin/foo", "Xorg"),
    ];
    assert_eq!(pick_last_matching(&last, &desktops), Some(1));
    let other_tag = vec![desktop("Foo", "/usr/bin/foo", "Wayland")];
    assert_eq!(pick_last_matching(&last, &other_tag), None);
    assert_eq!(pick_last_matching(&None, &desktops), None);
}

#[test]
fn last_session_change_detection() {
    let last = LastSession::parse(1000, "/usr/bin/foo;Xorg");
    assert!(!last_session_changed(&last, &desktop("Foo", "/usr/bin/foo", "Xorg")));
    assert!(last_session_changed(&last, &desktop("Bar", "/usr/bin/bar", "Xorg")));
    assert!(last_session_changed(&None, &desktop("Foo", "/usr/bin/foo", "Xorg")));
}

#[test]
fn auto_login_selection() {
    let desktops = vec![
        desktop("Bar", "/usr/bin/bar --x", "Xorg"),
        desktop("Foo", "/usr/bin/foo", "Xorg"),
        desktop("Foo2", "/usr/bin/foo2", "Xorg"),
    ];
    assert_eq!(select_auto_login(&desktops, "  /usr/bin/foo \n"), Some(1));
    assert_eq!(find_desktop_by_prefix(&desktops, "  /usr/bin/foo"), None);
    assert_eq!(find_desktop_by_prefix(&desktops, "/usr/bin/bar"), Some(0));
    assert_eq!(select_auto_login(&desktops, "/opt"), None);
    assert!(starts_with("abc", ""));
    assert!(!starts_with("ab", "abc"));
}

#[test]
fn desktop_entry_is_read() {
    let text = "# a session\n[Desktop Entry]\r\nTYPE=Application\n  Name=Foo Session  \nComment=Runs foo # note\nExec=/usr/bin/foo --bar\n# Exec=/ignored\n[Other Group]\nExec=/nope\n";
    let d = Desktop::load(text, "Xorg").unwrap();
    assert_eq!(d.name, "Foo Session");
    assert_eq!(d.comment, "Runs foo ");
    assert_eq!(d.command, "/usr/bin/foo --bar");
    assert_eq!(d.tag, "Xorg");
}

#[test]
fn desktop_entry_needs_application_type() {
    let missing = "[Desktop Entry]\nName=Foo\nExec=foo\n";
    assert_eq!(Desktop::load(missing, "Xorg").unwrap_err(), LoginError::InvalidSessionDefinition);
    let link = "[Desktop Entry]\nType=Link\nExec=foo\n";
    assert_eq!(Desktop::load(link, "Xorg").unwrap_err(), LoginError::InvalidSessionDefinition);
    let outside = "Type=Application\n[Desktop Entry]\nExec=foo\n";
    assert!(Desktop::load(outside, "Xorg").is_err());
    assert!(Desktop::load("", "Xorg").is_err());
}

#[test]
fn desktop_entry_fields_step_by_step() {
    let mut e = DesktopEntry::new();
    e.feed_line("Name=Outside");
    assert_eq!(e.name, "");
    e.feed_line("  [Desktop Entry]  ");
    assert!(e.in_entry);
    e.feed_line("Exec=a=b#c");
    assert_eq!(e.command, "a=b");
    e.feed_line("NoEquals");
    e.assign("name", "Direct");
    assert_eq!(e.name, "Direct");
    e.assign("Name", "Ignored");
    assert_eq!(e.name, "Direct");
    e.feed_line("NAME=Loud");
    assert_eq!(e.name, "Loud");
}

#[test]
fn text_helpers() {
    assert_eq!(find_char("ab=c", '='), 2);
    assert_eq!(find_char("abc", '='), 3);
    assert!(same_text("x", "x"));
    assert!(!same_text("x", "X"));
    assert_eq!(split_on("a\nb\n", '\n'), vec!["a", "b", ""]);
}
