use vstd::prelude::*;

use crate::error::LoginError;
use crate::text::{
    find_char, lemma_span_until, lower_text, lowered, pieces, same_text, span_until, split_on, starts_with, texts,
    trim_text, trimmed,
};

verus! {

/// A graphical session that can be started.
#[derive(Clone, Debug)]
pub struct Desktop {
    /// Display name.
    pub name: String,
    /// Human-readable description.
    pub comment: String,
    /// The command line that starts the session.
    pub command: String,
    /// The windowing environment the session targets, such as `Xorg`.
    pub tag: String,
}

/// The session an account used last.
#[derive(Clone, Debug)]
pub struct LastSession {
    pub uid: u32,
    pub command: String,
    pub tag: String,
}

/// What the lines of a desktop entry file have told so far.
pub struct EntryFields {
    /// Inside the `[Desktop Entry]` group.
    pub in_entry: bool,
    pub is_application: bool,
    pub name: Seq<char>,
    pub comment: Seq<char>,
    pub command: Seq<char>,
}

/// The key of an entry line: what stands before its first `=`.
pub open spec fn entry_key(t: Seq<char>) -> Seq<char> {
    t.take(span_until(t, '=') as int)
}

/// The value of an entry line: what follows its first `=`, up to a `#`.
pub open spec fn entry_value(t: Seq<char>) -> Seq<char> {
    let rest = t.skip(span_until(t, '=') + 1int);
    rest.take(span_until(rest, '#') as int)
}

/// The fields after a key (in lower case) and its value are read.
pub open spec fn entry_assign(st: EntryFields, key: Seq<char>, value: Seq<char>) -> EntryFields {
    if key == "type"@ {
        EntryFields { is_application: value == "Application"@, ..st }
    } else if key == "name"@ {
        EntryFields { name: value, ..st }
    } else if key == "comment"@ {
        EntryFields { comment: value, ..st }
    } else if key == "exec"@ {
        EntryFields { command: value, ..st }
    } else {
        st
    }
}

/// The fields after one trimmed line: comments are skipped, a group header
/// opens or closes the `[Desktop Entry]` group, and inside it a `key=value`
/// line is read.
pub open spec fn entry_step(st: EntryFields, t: Seq<char>) -> EntryFields {
    if t.len() > 0 && t[0] == '#' {
        st
    } else if t.len() > 0 && t[0] == '[' {
        EntryFields { in_entry: t == "[Desktop Entry]"@, ..st }
    } else if st.in_entry && span_until(t, '=') < t.len() {
        entry_assign(st, lowered(entry_key(t)), entry_value(t))
    } else {
        st
    }
}

/// The fields read from a sequence of lines, each trimmed first.
pub open spec fn entry_fields(lines: Seq<Seq<char>>) -> EntryFields
    decreases lines.len(),
{
    if lines.len() == 0 {
        EntryFields {
            in_entry: false,
            is_application: false,
            name: Seq::empty(),
            comment: Seq::empty(),
            command: Seq::empty(),
        }
    } else {
        entry_step(entry_fields(lines.drop_last()), trimmed(lines.last()))
    }
}

/// A desktop entry file being read line by line.
pub struct DesktopEntry {
    pub in_entry: bool,
    pub is_application: bool,
    pub name: String,
    pub comment: String,
    pub command: String,
}

impl View for DesktopEntry {
    type V = EntryFields;

    open spec fn view(&self) -> EntryFields {
        EntryFields {
            in_entry: self.in_entry,
            is_application: self.is_application,
            name: self.name@,
            comment: self.comment@,
            command: self.command@,
        }
    }
}

impl DesktopEntry {
    pub fn new() -> (r: DesktopEntry)
        ensures
            r@ == entry_fields(Seq::empty()),
    {
        DesktopEntry {
            in_entry: false,
            is_application: false,
            name: String::new(),
            comment: String::new(),
            command: String::new(),
        }
    }

    /// Records a key, already in lower case, and its value.
    pub fn assign(&mut self, key: &str, value: &str)
        ensures
            final(self)@ == entry_assign(old(self)@, key@, value@),
    {
        if same_text(key, "type") {
            self.is_application = same_text(value, "Application");
        } else if same_text(key, "name") {
            self.name = String::from_str(value);
        } else if same_text(key, "comment") {
            self.comment = String::from_str(value);
        } else if same_text(key, "exec") {
            self.command = String::from_str(value);
        }
    }

    /// Reads one line of the file.
    pub fn feed_line(&mut self, line: &str)
        ensures
            final(self)@ == entry_step(old(self)@, trimmed(line@)),
    {
        let t = trim_text(line);
        let t = t.as_str();
        let n = t.unicode_len();
        if n > 0 && t.get_char(0) == '#' {
            return ;
        }
        if n > 0 && t.get_char(0) == '[' {
            self.in_entry = same_text(t, "[Desktop Entry]");
            return ;
        }
        if self.in_entry {
            let p = find_char(t, '=');
            if p < n {
                let key = t.substring_char(0, p);
                let rest = t.substring_char(p + 1, n);
                let q = find_char(rest, '#');
                let value = rest.substring_char(0, q);
                let key = lower_text(key);
                proof {
                    assert(rest@ =~= t@.skip(p + 1));
                }
                self.assign(key.as_str(), value);
            }
        }
    }
}

impl Desktop {
    /// Reads a desktop entry file of the windowing environment `tag`. The
    /// entry must declare `Type=Application`; the last `Name`, `Comment` and
    /// `Exec` lines of the `[Desktop Entry]` group give the fields (absent
    /// ones are empty).
    pub fn load(text: &str, tag: &str) -> (r: Result<Desktop, LoginError>)
        ensures
            match r {
                Ok(d) => {
                    &&& entry_fields(pieces_of_lines(text@)).is_application
                    &&& d.name@ == entry_fields(pieces_of_lines(text@)).name
                    &&& d.comment@ == entry_fields(pieces_of_lines(text@)).comment
                    &&& d.command@ == entry_fields(pieces_of_lines(text@)).command
                    &&& d.tag@ == tag@
                },
                Err(e) => {
                    &&& !entry_fields(pieces_of_lines(text@)).is_application
                    &&& e == LoginError::InvalidSessionDefinition
                },
            },
    {
        let lines = split_on(text, '\n');
        let mut entry = DesktopEntry::new();
        let mut i: usize = 0;
        while i < lines.len()
            invariant
                i <= lines.len(),
                texts(lines@) == pieces_of_lines(text@),
                entry@ == entry_fields(texts(lines@).take(i as int)),
            decreases lines.len() - i,
        {
            proof {
                assert(texts(lines@).take(i + 1).drop_last() =~= texts(lines@).take(i as int));
                assert(texts(lines@)[i as int] == lines@[i as int]@);
            }
            entry.feed_line(lines[i].as_str());
            i = i + 1;
        }
        proof {
            assert(texts(lines@).take(i as int) =~= texts(lines@));
        }
        if !entry.is_application {
            return Err(LoginError::InvalidSessionDefinition);
        }
        Ok(Desktop { name: entry.name, comment: entry.comment, command: entry.command, tag: String::from_str(tag) })
    }
}

/// The lines of a text, split at line breaks.
pub open spec fn pieces_of_lines(t: Seq<char>) -> Seq<Seq<char>> {
    pieces(t, '\n')
}

/// The position of the last `;` of a line.
pub open spec fn last_separator(line: Seq<char>) -> Option<int>
    decreases line.len(),
{
    if line.len() == 0 {
        None
    } else if line.last() == ';' {
        Some(line.len() - 1)
    } else {
        last_separator(line.drop_last())
    }
}

/// The text of a record: `<command>;<tag>`.
pub open spec fn record_text(command: Seq<char>, tag: Seq<char>) -> Seq<char> {
    command + seq![';'] + tag
}

/// The command and tag stored in a record: its first line, split at the
/// last `;`. A line without `;` holds no record.
pub open spec fn parse_record(t: Seq<char>) -> Option<(Seq<char>, Seq<char>)> {
    let line = t.take(span_until(t, '\n') as int);
    match last_separator(line) {
        Some(k) => Some((line.take(k), line.subrange(k + 1, line.len() as int))),
        None => None,
    }
}

/// Whether a desktop is the one a record names.
pub open spec fn matches_record(d: Desktop, command: Seq<char>, tag: Seq<char>) -> bool {
    d.command@ == command && d.tag@ == tag
}

/// Whether position `i` holds the first desktop that the record names.
pub open spec fn is_first_match(desktops: Seq<Desktop>, command: Seq<char>, tag: Seq<char>, i: int) -> bool {
    &&& 0 <= i < desktops.len()
    &&& matches_record(desktops[i], command, tag)
    &&& forall|j: int| 0 <= j < i ==> !matches_record(#[trigger] desktops[j], command, tag)
}

/// Whether position `i` holds the first desktop whose command starts with
/// `prefix`.
pub open spec fn is_first_with_prefix(desktops: Seq<Desktop>, prefix: Seq<char>, i: int) -> bool {
    &&& 0 <= i < desktops.len()
    &&& prefix.is_prefix_of(desktops[i].command@)
    &&& forall|j: int| 0 <= j < i ==> !prefix.is_prefix_of((#[trigger] desktops[j]).command@)
}

proof fn lemma_last_separator_after(line: Seq<char>, j: int)
    requires
        0 <= j <= line.len(),
        forall|m: int| j <= m < line.len() ==> line[m] != ';',
    ensures
        last_separator(line) == last_separator(line.take(j)),
    decreases line.len() - j,
{
    if j < line.len() {
        assert(line.drop_last().take(j) =~= line.take(j));
        lemma_last_separator_after(line.drop_last(), j);
    } else {
        assert(line.take(j) =~= line);
    }
}

impl LastSession {
    /// The text stored for a session: `<command>;<tag>`.
    pub fn format(command: &str, tag: &str) -> (r: String)
        ensures
            r@ == record_text(command@, tag@),
    {
        proof {
            reveal_strlit(";");
        }
        let r = String::from_str(command);
        let r = r.concat(";");
        let r = r.concat(tag);
        assert(r@ =~= record_text(command@, tag@));
        r
    }

    /// Reads the record of account `uid` from the stored text; text that
    /// holds no record gives `None`.
    pub fn parse(uid: u32, text: &str) -> (r: Option<LastSession>)
        ensures
            r matches Some(s) ==> s.uid == uid,
            parse_record(text@) matches Some((command, tag)) ==> r matches Some(s) && s.command@ == command
                && s.tag@ == tag,
            parse_record(text@) is None ==> r is None,
    {
        let n = text.unicode_len();
        let mut end: usize = 0;
        while end < n && text.get_char(end) != '\n'
            invariant
                end <= n,
                n == text@.len(),
                forall|m: int| 0 <= m < end ==> text@[m] != '\n',
            decreases n - end,
        {
            end = end + 1;
        }
        proof {
            lemma_span_until(text@, '\n', end as int);
        }
        let ghost line = text@.take(end as int);
        assert(line.take(end as int) =~= line);
        let mut k: usize = end;
        while k > 0 && text.get_char(k - 1) != ';'
            invariant
                k <= end <= n,
                n == text@.len(),
                line == text@.take(end as int),
                last_separator(line) == last_separator(line.take(k as int)),
            decreases k,
        {
            assert(line.take(k as int).drop_last() =~= line.take(k - 1));
            k = k - 1;
        }
        if k == 0 {
            assert(line.take(0) =~= Seq::<char>::empty());
            None
        } else {
            assert(line.take(k as int).last() == ';');
            let command = text.substring_char(0, k - 1).to_owned();
            let tag = text.substring_char(k, end).to_owned();
            assert(command@ =~= line.take(k - 1));
            assert(tag@ =~= line.subrange(k as int, line.len() as int));
            Some(LastSession { uid, command, tag })
        }
    }
}

/// Writing a record and reading it back gives the same command and tag,
/// for a command without a line break and a tag without `;` or line break.
pub proof fn lemma_record_round_trip(command: Seq<char>, tag: Seq<char>)
    requires
        !command.contains('\n'),
        !tag.contains('\n'),
        !tag.contains(';'),
    ensures
        parse_record(record_text(command, tag)) == Some((command, tag)),
{
    let t = record_text(command, tag);
    let e = command.len() as int;
    assert forall|m: int| 0 <= m < t.len() implies t[m] != '\n' by {
        if m < e {
            assert(t[m] == command[m]);
        } else if m > e {
            assert(t[m] == tag[m - e - 1]);
        }
    }
    lemma_span_until(t, '\n', t.len() as int);
    assert(t.take(t.len() as int) =~= t);
    assert forall|m: int| e + 1 <= m < t.len() implies t[m] != ';' by {
        assert(t[m] == tag[m - e - 1]);
    }
    lemma_last_separator_after(t, e + 1);
    assert(t.take(e + 1).drop_last() =~= t.take(e));
    assert(t.take(e) =~= command);
    assert(t.subrange(e + 1, t.len() as int) =~= tag);
}

/// The desktop that the record names, if any: the first whose command and
/// tag equal the record's.
pub fn pick_last_matching(last: &Option<LastSession>, desktops: &Vec<Desktop>) -> (r: Option<usize>)
    ensures
        match last {
            None => r is None,
            Some(s) => match r {
                Some(i) => is_first_match(desktops@, s.command@, s.tag@, i as int),
                None => forall|j: int|
                    0 <= j < desktops.len() ==> !matches_record(#[trigger] desktops@[j], s.command@, s.tag@),
            },
        },
{
    match last {
        None => None,
        Some(s) => first_match(desktops, &s.command, &s.tag),
    }
}

fn first_match(desktops: &Vec<Desktop>, command: &String, tag: &String) -> (r: Option<usize>)
    ensures
        r matches Some(i) ==> is_first_match(desktops@, command@, tag@, i as int),
        r is None ==> forall|j: int|
            0 <= j < desktops.len() ==> !matches_record(#[trigger] desktops@[j], command@, tag@),
{
    let mut i: usize = 0;
    while i < desktops.len()
        invariant
            i <= desktops.len(),
            forall|j: int| 0 <= j < i ==> !matches_record(#[trigger] desktops@[j], command@, tag@),
        decreases desktops.len() - i,
    {
        if desktops[i].command == *command && desktops[i].tag == *tag {
            return Some(i);
        }
        i = i + 1;
    }
    None
}

/// Whether the record must be rewritten for the chosen desktop: when there
/// is none, or it names another command or tag.
pub fn last_session_changed(last: &Option<LastSession>, chosen: &Desktop) -> (r: bool)
    ensures
        r == match last {
            None => true,
            Some(s) => !matches_record(*chosen, s.command@, s.tag@),
        },
{
    match last {
        None => true,
        Some(s) => !(chosen.command == s.command && chosen.tag == s.tag),
    }
}

/// The first desktop whose command starts with `prefix`.
pub fn find_desktop_by_prefix(desktops: &Vec<Desktop>, prefix: &str) -> (r: Option<usize>)
    ensures
        r matches Some(i) ==> is_first_with_prefix(desktops@, prefix@, i as int),
        r is None ==> forall|j: int|
            0 <= j < desktops.len() ==> !prefix@.is_prefix_of((#[trigger] desktops@[j]).command@),
{
    let mut i: usize = 0;
    while i < desktops.len()
        invariant
            i <= desktops.len(),
            forall|j: int| 0 <= j < i ==> !prefix@.is_prefix_of((#[trigger] desktops@[j]).command@),
        decreases desktops.len() - i,
    {
        if starts_with(desktops[i].command.as_str(), prefix) {
            return Some(i);
        }
        i = i + 1;
    }
    None
}

/// The desktop chosen without asking: the first whose command starts with
/// the configured session, surrounding whitespace removed.
pub fn select_auto_login(desktops: &Vec<Desktop>, session: &str) -> (r: Option<usize>)
    ensures
        r matches Some(i) ==> is_first_with_prefix(desktops@, trimmed(session@), i as int),
        r is None ==> forall|j: int|
            0 <= j < desktops.len() ==> !trimmed(session@).is_prefix_of(
                (#[trigger] desktops@[j]).command@,
            ),
{
    let prefix = trim_text(session);
    find_desktop_by_prefix(desktops, prefix.as_str())
}

} // verus!
