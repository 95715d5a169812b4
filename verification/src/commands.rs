//! The commands of the command line, and the decisions of the commands on
//! projects, browsers, ports and notifications.

use vstd::prelude::*;

use crate::project::{law_ascii_slug_is_own_key, slug, Project};
use crate::text::{
    all_ascii, chars_of, str_eq, copy_chars, has_prefix, lower_text, parse_i32, parse_i32_spec, push_char,
    starts_with, string_from, string_of, to_lowercase, trim, trim_ws,
};

verus! {

/// The command line: a command, or the name of a project to switch to.
#[derive(Debug, Clone)]
pub struct Cli {
    /// The command given, if any.
    pub command: Option<Commands>,
    /// The project named instead of a command, if any.
    pub project: Option<String>,
}

/// The commands of the command line.
#[derive(Debug, Clone)]
pub enum Commands {
    /// List all projects.
    Projects,
    /// Create a project.
    New { name: String },
    /// Show the current project.
    Current,
    /// Delete a project.
    Delete { name: String },
    /// List tasks, with an optional filter.
    Tasks { filter: Option<String> },
    /// Add a task.
    Add {
        title: String,
        description: Option<String>,
        priority: Option<String>,
        due: Option<String>,
    },
    /// Work with a task.
    Task { id: i32, action: Option<String>, value: Option<String> },
    /// Set a reminder.
    Remind { duration: String, message: String },
    /// List reminders.
    Reminders,
    /// Show the current status.
    Status,
    /// Open the board.
    Board,
    /// Leave the interactive mode.
    Exit,
    /// Leave the interactive mode.
    Quit,
    /// Clear the screen.
    Clear,
    /// Stop the processes listening on a port.
    Stop { port: u16 },
    /// Open a web address in a browser.
    Open { url: String, chrome: bool, safari: bool, firefox: bool },
    /// Show the help.
    ReplHelp,
}

impl Commands {
    /// Whether the command ends the interactive session.
    pub fn ends_session(&self) -> (r: bool)
        ensures
            r <==> (*self is Exit || *self is Quit),
    {
        match self {
            Commands::Exit | Commands::Quit => true,
            _ => false,
        }
    }
}

// ---------------------------------------------------------------------------
// Projects
// ---------------------------------------------------------------------------

/// The key under which a project name is looked up: the name lower-cased.
pub fn project_key(name: &str) -> (r: String)
    ensures
        r@ == lower_text(name@),
{
    to_lowercase(name)
}

/// Whether a project matches a lower-cased key: its id or its lower-cased
/// name starts with the key.
pub open spec fn project_matches(p: Project, key: Seq<char>) -> bool {
    has_prefix(p.id@, key) || has_prefix(lower_text(p.name@), key)
}

/// Whether `v` lists, in increasing order, the positions of exactly the
/// projects of `projects` that match `key`.
pub open spec fn lists_matches(v: Seq<usize>, projects: Seq<Project>, key: Seq<char>) -> bool {
    &&& forall|k: int| 0 <= k < v.len() ==> v[k] < projects.len() && project_matches(
        projects[v[k] as int],
        key,
    )
    &&& forall|k: int, l: int| 0 <= k < l < v.len() ==> v[k] < v[l]
    &&& forall|i: int|
        0 <= i < projects.len() && project_matches(#[trigger] projects[i], key) ==> exists|k: int|
            0 <= k < v.len() && v[k] == i
}

/// The positions of the projects that match `key`, in increasing order.
pub fn matching_projects(key: &str, projects: &Vec<Project>) -> (r: Vec<usize>)
    ensures
        forall|k: int| 0 <= k < r@.len() ==> r@[k] < projects@.len() && project_matches(
            projects@[r@[k] as int],
            key@,
        ),
        forall|k: int, l: int| 0 <= k < l < r@.len() ==> r@[k] < r@[l],
        forall|i: int|
            0 <= i < projects@.len() && project_matches(#[trigger] projects@[i], key@) ==> exists|
                k: int,
            | 0 <= k < r@.len() && r@[k] == i,
{
    let kc = chars_of(key);
    let mut r: Vec<usize> = Vec::new();
    let mut i: usize = 0;
    while i < projects.len()
        invariant
            i <= projects@.len(),
            kc@ == key@,
            forall|k: int| 0 <= k < r@.len() ==> r@[k] < i && project_matches(
                projects@[r@[k] as int],
                key@,
            ),
            forall|k: int, l: int| 0 <= k < l < r@.len() ==> r@[k] < r@[l],
            forall|j: int|
                0 <= j < i && project_matches(#[trigger] projects@[j], key@) ==> exists|k: int|
                    0 <= k < r@.len() && r@[k] == j,
        decreases projects@.len() - i,
    {
        let p = &projects[i];
        let idc = chars_of(p.id.as_str());
        let lname = to_lowercase(p.name.as_str());
        let nc = chars_of(lname.as_str());
        if starts_with(idc.as_slice(), kc.as_slice()) || starts_with(nc.as_slice(), kc.as_slice()) {
            let ghost old_r = r@;
            r.push(i);
            proof {
                assert forall|j: int|
                    0 <= j < i + 1 && project_matches(#[trigger] projects@[j], key@) implies exists|
                        k: int,
                    | 0 <= k < r@.len() && r@[k] == j by {
                    if j < i {
                        let k = choose|k: int| 0 <= k < old_r.len() && old_r[k] == j;
                        assert(r@[k] == j);
                    } else {
                        assert(r@[old_r.len() as int] == j);
                    }
                }
            }
        }
        i = i + 1;
    }
    r
}

/// The first position, if any, of a project whose id is `key`.
pub open spec fn id_position(projects: Seq<Project>, key: Seq<char>) -> Option<int> {
    if exists|i: int| 0 <= i < projects.len() && projects[i].id@ == key {
        Some(
            choose|i: int|
                0 <= i < projects.len() && projects[i].id@ == key && forall|k: int|
                    0 <= k < i ==> projects[k].id@ != key,
        )
    } else {
        None
    }
}

/// The first position of a project whose id is `key`.
fn position_of_id(key: &str, projects: &Vec<Project>) -> (r: Option<usize>)
    ensures
        match r {
            Some(i) => id_position(projects@, key@) == Some(i as int) && i < projects@.len(),
            None => id_position(projects@, key@) is None,
        },
{
    let mut i: usize = 0;
    while i < projects.len()
        invariant
            i <= projects@.len(),
            forall|k: int| 0 <= k < i ==> projects@[k].id@ != key@,
        decreases projects@.len() - i,
    {
        if str_eq(projects[i].id.as_str(), key) {
            proof {
                let w = choose|w: int|
                    0 <= w < projects@.len() && projects@[w].id@ == key@ && forall|k: int|
                        0 <= k < w ==> projects@[k].id@ != key@;
                assert(0 <= i < projects@.len() && projects@[i as int].id@ == key@ && forall|
                    k: int,
                | 0 <= k < i ==> projects@[k].id@ != key@);
                if w < i {
                } else if w > i {
                    assert(projects@[i as int].id@ != key@);
                }
            }
            return Some(i);
        }
        i = i + 1;
    }
    None
}

/// Where switching to a project named by the user leads.
#[derive(Debug)]
pub enum SwitchOutcome {
    /// No project matches.
    NotFound,
    /// Switch to the project at this position.
    Switch(usize),
    /// Several projects match, at these positions (in order).
    Ambiguous(Vec<usize>),
}

/// Where switching with the lower-cased key `key` leads among `projects`:
/// the project whose id is the key; otherwise the only project that
/// matches it (see `project_matches`); otherwise nothing, or the several
/// that match.
pub fn switch_target(key: &str, projects: &Vec<Project>) -> (r: SwitchOutcome)
    ensures
        id_position(projects@, key@) matches Some(i) ==> r matches SwitchOutcome::Switch(j) && j
            == i,
        id_position(projects@, key@) is None ==> (r is NotFound <==> forall|i: int|
            0 <= i < projects@.len() ==> !project_matches(#[trigger] projects@[i], key@)),
        id_position(projects@, key@) is None ==> (r matches SwitchOutcome::Switch(j) ==> j
            < projects@.len() && project_matches(projects@[j as int], key@) && forall|i: int|
            0 <= i < projects@.len() && project_matches(#[trigger] projects@[i], key@) ==> i == j),
        id_position(projects@, key@) is None ==> (r matches SwitchOutcome::Ambiguous(v) ==> v@.len()
            >= 2 && lists_matches(v@, projects@, key@)),
{
    if let Some(i) = position_of_id(key, projects) {
        return SwitchOutcome::Switch(i);
    }
    let m = matching_projects(key, projects);
    if m.len() == 0 {
        proof {
            assert forall|i: int|
                0 <= i < projects@.len() implies !project_matches(#[trigger] projects@[i], key@) by {
                if project_matches(projects@[i], key@) {
                    let k = choose|k: int| 0 <= k < m@.len() && m@[k] == i;
                }
            }
        }
        SwitchOutcome::NotFound
    } else if m.len() == 1 {
        proof {
            assert forall|i: int|
                0 <= i < projects@.len() && project_matches(#[trigger] projects@[i], key@)
                    implies i == m@[0] by {
                let k = choose|k: int| 0 <= k < m@.len() && m@[k] == i;
            }
            assert(project_matches(projects@[m@[0] as int], key@));
        }
        SwitchOutcome::Switch(m[0])
    } else {
        assert(lists_matches(m@, projects@, key@));
        assert(project_matches(projects@[m@[0] as int], key@));
        SwitchOutcome::Ambiguous(m)
    }
}

/// The position of the project that `delete <name>` removes: the one whose
/// id is the name lower-cased or, failing that, the one whose id is the
/// name's slug (the id it was created with).
pub fn delete_target(name: &str, projects: &Vec<Project>) -> (r: Option<usize>)
    ensures
        r == match id_position(projects@, lower_text(name@)) {
            Some(i) => Some(i as usize),
            None => match id_position(projects@, slug(name@)) {
                Some(i) => Some(i as usize),
                None => None,
            },
        },
{
    let key = project_key(name);
    match position_of_id(key.as_str(), projects) {
        Some(i) => Some(i),
        None => {
            let s = crate::project::slugify(name);
            position_of_id(s.as_str(), projects)
        },
    }
}

/// A project is always among the matches of its own name, typed in any
/// case: switching by the name a project was created with finds it.
pub proof fn law_project_found_by_own_name(p: Project)
    ensures
        project_matches(p, lower_text(p.name@)),
{
    assert(lower_text(p.name@).take(lower_text(p.name@).len() as int) =~= lower_text(p.name@));
}

/// A project created from an ASCII name is found by its id: the id is its
/// own lookup key, and the project matches it.
pub proof fn law_project_found_by_id(p: Project)
    requires
        all_ascii(p.name@),
        p.id@ == slug(p.name@),
    ensures
        lower_text(p.id@) == p.id@,
        project_matches(p, lower_text(p.id@)),
{
    law_ascii_slug_is_own_key(p.name@);
    assert(p.id@.take(p.id@.len() as int) =~= p.id@);
}

// ---------------------------------------------------------------------------
// Browsers
// ---------------------------------------------------------------------------

/// The browsers a web address can be opened in.
#[derive(Debug, Clone, Copy, PartialEq, Eq, Structural)]
pub enum Browser {
    Chrome,
    Safari,
    Firefox,
    Default,
}

impl Browser {
    /// The name of the browser's application (empty for the default one).
    pub fn app_name(&self) -> (r: &'static str)
        ensures
            r@ == (match *self {
                Browser::Chrome => "Google Chrome"@,
                Browser::Safari => "Safari"@,
                Browser::Firefox => "Firefox"@,
                Browser::Default => ""@,
            }),
    {
        match self {
            Browser::Chrome => "Google Chrome",
            Browser::Safari => "Safari",
            Browser::Firefox => "Firefox",
            Browser::Default => "",
        }
    }

    /// The name shown once the address is opened.
    pub fn shown_name(&self) -> (r: &'static str)
        ensures
            r@ == (match *self {
                Browser::Chrome => "Google Chrome"@,
                Browser::Safari => "Safari"@,
                Browser::Firefox => "Firefox"@,
                Browser::Default => "default browser"@,
            }),
    {
        match self {
            Browser::Default => "default browser",
            _ => self.app_name(),
        }
    }

    /// The browser chosen by the flags: Chrome first, then Safari, then
    /// Firefox, else the default one.
    pub fn from_flags(chrome: bool, safari: bool, firefox: bool) -> (r: Browser)
        ensures
            r == (if chrome {
                Browser::Chrome
            } else if safari {
                Browser::Safari
            } else if firefox {
                Browser::Firefox
            } else {
                Browser::Default
            }),
    {
        if chrome {
            Browser::Chrome
        } else if safari {
            Browser::Safari
        } else if firefox {
            Browser::Firefox
        } else {
            Browser::Default
        }
    }
}

/// A web address with its scheme: unchanged when it starts with `http://`
/// or `https://`, else prefixed with `https://`.
pub open spec fn normalized_url(url: Seq<char>) -> Seq<char> {
    if has_prefix(url, "http://"@) || has_prefix(url, "https://"@) {
        url
    } else {
        "https://"@ + url
    }
}

/// Gives a web address its scheme, `https://` unless it has one.
pub fn normalize_url(url: &str) -> (r: String)
    ensures
        r@ == normalized_url(url@),
{
    let uc = chars_of(url);
    let h = chars_of("http://");
    let hs = chars_of("https://");
    if starts_with(uc.as_slice(), h.as_slice()) || starts_with(uc.as_slice(), hs.as_slice()) {
        string_from(url)
    } else {
        let mut r = string_from("https://");
        r.append(url);
        r
    }
}

// ---------------------------------------------------------------------------
// Ports and process ids
// ---------------------------------------------------------------------------

/// The maximal runs of characters other than a line feed in `s`, collected
/// from position `i` on, the current unfinished run being `cur`.
pub open spec fn lines_from(s: Seq<char>, i: int, cur: Seq<char>) -> Seq<Seq<char>>
    decreases s.len() - i,
{
    if i >= s.len() {
        if cur.len() > 0 {
            seq![cur]
        } else {
            seq![]
        }
    } else if s[i] == '\n' {
        if cur.len() > 0 {
            seq![cur] + lines_from(s, i + 1, seq![])
        } else {
            lines_from(s, i + 1, seq![])
        }
    } else {
        lines_from(s, i + 1, cur.push(s[i]))
    }
}

/// The non-empty lines of the output of `lsof -ti`, once trimmed: the
/// process ids to stop.
pub open spec fn pid_lines(out: Seq<char>) -> Seq<Seq<char>> {
    lines_from(trim_ws(out), 0, seq![])
}

/// The strings held by a vector.
pub open spec fn strings_of(v: Seq<String>) -> Seq<Seq<char>> {
    v.map_values(|x: String| x@)
}

/// The process ids listed in the output of `lsof -ti`: its non-empty lines
/// once the output is trimmed.
pub fn pids_from_lsof(out: &str) -> (r: Vec<String>)
    ensures
        strings_of(r@) == pid_lines(out@),
{
    let cs = chars_of(out);
    let s = trim(cs.as_slice());
    let mut r: Vec<String> = Vec::new();
    let mut cur: Vec<char> = Vec::new();
    let mut i: usize = 0;
    while i < s.len()
        invariant
            i <= s@.len(),
            s@ == trim_ws(out@),
            strings_of(r@) + lines_from(s@, i as int, cur@) == pid_lines(out@),
        decreases s@.len() - i,
    {
        let c = s[i];
        if c == '\n' {
            if cur.len() > 0 {
                let ghost old_r = strings_of(r@);
                let ghost old_cur = cur@;
                r.push(string_of(cur.as_slice()));
                cur = Vec::new();
                assert(strings_of(r@) =~= old_r.push(old_cur));
                assert(old_r + (seq![old_cur] + lines_from(s@, i + 1, seq![])) =~= old_r.push(
                    old_cur,
                ) + lines_from(s@, i + 1, seq![]));
            }
            assert(cur@ =~= Seq::<char>::empty());
        } else {
            cur.push(c);
        }
        i = i + 1;
    }
    if cur.len() > 0 {
        let ghost old_r = strings_of(r@);
        let ghost old_cur = cur@;
        r.push(string_of(cur.as_slice()));
        assert(strings_of(r@) =~= old_r.push(old_cur));
        assert(old_r + seq![old_cur] =~= old_r.push(old_cur));
    } else {
        assert(strings_of(r@) + Seq::<Seq<char>>::empty() =~= strings_of(r@));
    }
    r
}

/// The process id written in a file, once trimmed.
pub fn parse_pid(content: &str) -> (r: Option<i32>)
    ensures
        r == parse_i32_spec(trim_ws(content@)),
{
    let cs = chars_of(content);
    let t = trim(cs.as_slice());
    let s = string_of(t.as_slice());
    parse_i32(s.as_str())
}

// ---------------------------------------------------------------------------
// Notifications
// ---------------------------------------------------------------------------

/// `s` with a backslash before each double quote.
pub open spec fn escape_quotes(s: Seq<char>) -> Seq<char>
    decreases s.len(),
{
    if s.len() == 0 {
        seq![]
    } else if s.last() == '"' {
        escape_quotes(s.drop_last()) + seq!['\\', '"']
    } else {
        escape_quotes(s.drop_last()).push(s.last())
    }
}

/// The AppleScript that shows a reminder as a notification with a sound.
pub open spec fn notification_script_text(message: Seq<char>) -> Seq<char> {
    "display notification \""@ + escape_quotes(message)
        + "\" with title \"⏰ pcli Reminder\" sound name \"Ping\""@
}

/// The AppleScript that shows the reminder `message` as a notification.
pub fn notification_script(message: &str) -> (r: String)
    ensures
        r@ == notification_script_text(message@),
{
    let cs = chars_of(message);
    let mut esc = String::new();
    let mut i: usize = 0;
    while i < cs.len()
        invariant
            i <= cs@.len(),
            cs@ == message@,
            esc@ == escape_quotes(cs@.take(i as int)),
        decreases cs@.len() - i,
    {
        let c = cs[i];
        assert(cs@.take(i + 1).drop_last() =~= cs@.take(i as int));
        if c == '"' {
            push_char(&mut esc, '\\');
            push_char(&mut esc, '"');
            assert(esc@ =~= escape_quotes(cs@.take(i as int)) + seq!['\\', '"']);
        } else {
            push_char(&mut esc, c);
        }
        i = i + 1;
    }
    assert(cs@.take(cs@.len() as int) =~= cs@);
    let mut r = string_from("display notification \"");
    r.append(esc.as_str());
    r.append("\" with title \"⏰ pcli Reminder\" sound name \"Ping\"");
    r
}

} // verus!
