//! The decisions of the interactive mode: what a typed line asks for, and
//! the completions and hints offered while typing.

use vstd::prelude::*;
use vstd::string::StringSliceAdditionalSpecFns;
use vstd::utf8::{decode_utf8, encode_utf8, encode_utf8_decode_utf8, is_char_boundary};

use crate::commands::strings_of;
use crate::text::{
    byte_len, chars_of, has_prefix, lower_text, split_whitespace, starts_with, str_eq,
    string_from, string_of, to_lowercase, ws_words,
};

verus! {

// ---------------------------------------------------------------------------
// Splitting a typed line into words
// ---------------------------------------------------------------------------

/// What `shellwords::split` makes of a line: its words, quotes and
/// backslashes interpreted as a Bourne shell would; `None` when quotes are
/// not closed.
pub uninterp spec fn shell_words(s: Seq<char>) -> Option<Seq<Seq<char>>>;

/// `shellwords::split`: the words of a line as a Bourne shell reads them,
/// or `None` when a quote is not closed.  Which words come out is left to
/// the name `shell_words`.
#[verifier::external_body]
fn split_shell_words(s: &str) -> (r: Option<Vec<String>>)
    ensures
        match r {
            Some(v) => shell_words(s@) == Some(strings_of(v@)),
            None => shell_words(s@) is None,
        },
{
    match shellwords::split(s) {
        Ok(v) => Some(v),
        Err(_) => None,
    }
}

/// What a typed line asks for.
#[derive(Debug, Clone)]
pub enum ReplInput {
    /// A quote is not closed.
    BadQuotes,
    /// Nothing was typed.
    Empty,
    /// Leave the interactive mode.
    Exit,
    /// Clear the screen.
    Clear,
    /// Show the help.
    Help,
    /// List the projects.
    ListProjects,
    /// Leave the current project.
    Deselect,
    /// Read the words as a command line (`args` starts with `pcli`); when
    /// they are not one and `switch_to` is given, switch to that project.
    Command { args: Vec<String>, switch_to: Option<String> },
}

/// The view of what a typed line asks for.
pub enum InputView {
    BadQuotes,
    Empty,
    Exit,
    Clear,
    Help,
    ListProjects,
    Deselect,
    Command { args: Seq<Seq<char>>, switch_to: Option<Seq<char>> },
}

/// The view of a `ReplInput`.
pub open spec fn input_view(r: ReplInput) -> InputView {
    match r {
        ReplInput::BadQuotes => InputView::BadQuotes,
        ReplInput::Empty => InputView::Empty,
        ReplInput::Exit => InputView::Exit,
        ReplInput::Clear => InputView::Clear,
        ReplInput::Help => InputView::Help,
        ReplInput::ListProjects => InputView::ListProjects,
        ReplInput::Deselect => InputView::Deselect,
        ReplInput::Command { args, switch_to } => InputView::Command {
            args: strings_of(args@),
            switch_to: match switch_to {
                Some(s) => Some(s@),
                None => None,
            },
        },
    }
}

/// What the typed words ask for: the first word, lower-cased, may be one of
/// the words of the interactive mode; otherwise the words are a command
/// line, and a single word not starting with `-` may name a project.
pub open spec fn input_of(words: Option<Seq<Seq<char>>>) -> InputView {
    match words {
        None => InputView::BadQuotes,
        Some(w) => if w.len() == 0 {
            InputView::Empty
        } else {
            let cmd = lower_text(w[0]);
            if cmd == "exit"@ || cmd == "quit"@ || cmd == "q"@ {
                InputView::Exit
            } else if cmd == "clear"@ || cmd == "cls"@ {
                InputView::Clear
            } else if cmd == "help"@ || cmd == "?"@ {
                InputView::Help
            } else if cmd == "list"@ || cmd == "ls"@ {
                InputView::ListProjects
            } else if cmd == ".."@ {
                InputView::Deselect
            } else {
                InputView::Command {
                    args: seq!["pcli"@] + w,
                    switch_to: if w.len() == 1 && !has_prefix(cmd, "-"@) {
                        Some(cmd)
                    } else {
                        None
                    },
                }
            }
        },
    }
}

/// The words of the interactive mode keep their meaning in any case, and
/// any other first word makes the line a command line: `exit`, `quit` and
/// `q` leave, `clear` and `cls` clear the screen, `help` and `?` show the
/// help, `list` and `ls` list the projects, and `..` leaves the current
/// project; otherwise the words are run as `pcli` followed by them, and a
/// lone word not starting with `-` also names, lower-cased, the project to
/// switch to.
pub proof fn law_session_words_keep_their_meaning(w: Seq<Seq<char>>)
    requires
        w.len() > 0,
    ensures
        ({
            let c = lower_text(w[0]);
            &&& (c == "exit"@ || c == "quit"@ || c == "q"@) ==> input_of(Some(w))
                == InputView::Exit
            &&& (c == "clear"@ || c == "cls"@) ==> input_of(Some(w)) == InputView::Clear
            &&& (c == "help"@ || c == "?"@) ==> input_of(Some(w)) == InputView::Help
            &&& (c == "list"@ || c == "ls"@) ==> input_of(Some(w)) == InputView::ListProjects
            &&& c == ".."@ ==> input_of(Some(w)) == InputView::Deselect
            &&& !(c == "exit"@ || c == "quit"@ || c == "q"@ || c == "clear"@ || c == "cls"@
                || c == "help"@ || c == "?"@ || c == "list"@ || c == "ls"@ || c == ".."@)
                ==> (input_of(Some(w)) matches InputView::Command { args, switch_to } && args
                == seq!["pcli"@] + w && (switch_to is Some <==> (w.len() == 1 && !has_prefix(
                c,
                "-"@,
            ))) && (switch_to is Some ==> switch_to->0 == c))
        }),
{
    reveal_strlit("exit");
    reveal_strlit("quit");
    reveal_strlit("q");
    reveal_strlit("clear");
    reveal_strlit("cls");
    reveal_strlit("help");
    reveal_strlit("?");
    reveal_strlit("list");
    reveal_strlit("ls");
    reveal_strlit("..");
    assert("exit"@.len() == 4 && "exit"@[0] == 'e');
    assert("quit"@.len() == 4 && "quit"@[0] == 'q');
    assert("q"@.len() == 1 && "q"@[0] == 'q');
    assert("clear"@.len() == 5 && "clear"@[0] == 'c');
    assert("cls"@.len() == 3 && "cls"@[0] == 'c');
    assert("help"@.len() == 4 && "help"@[0] == 'h');
    assert("?"@.len() == 1 && "?"@[0] == '?');
    assert("list"@.len() == 4 && "list"@[0] == 'l');
    assert("ls"@.len() == 2 && "ls"@[0] == 'l');
    assert(".."@.len() == 2 && ".."@[0] == '.');
}

/// What the typed line `input` asks for.
pub fn classify_input(input: &str) -> (r: ReplInput)
    ensures
        input_view(r) == input_of(shell_words(input@)),
{
    let words = match split_shell_words(input) {
        None => {
            return ReplInput::BadQuotes;
        },
        Some(w) => w,
    };
    if words.len() == 0 {
        return ReplInput::Empty;
    }
    let lower = to_lowercase(words[0].as_str());
    let c = lower.as_str();
    if str_eq(c, "exit") || str_eq(c, "quit") || str_eq(c, "q") {
        ReplInput::Exit
    } else if str_eq(c, "clear") || str_eq(c, "cls") {
        ReplInput::Clear
    } else if str_eq(c, "help") || str_eq(c, "?") {
        ReplInput::Help
    } else if str_eq(c, "list") || str_eq(c, "ls") {
        ReplInput::ListProjects
    } else if str_eq(c, "..") {
        ReplInput::Deselect
    } else {
        let n = words.len();
        let lc = chars_of(c);
        let dash = chars_of("-");
        let switch_to = if n == 1 && !starts_with(lc.as_slice(), dash.as_slice()) {
            Some(string_from(c))
        } else {
            None
        };
        let mut args: Vec<String> = Vec::new();
        args.push(string_from("pcli"));
        let mut i: usize = 0;
        let ghost w = strings_of(words@);
        while i < words.len()
            invariant
                i <= words@.len(),
                w == strings_of(words@),
                strings_of(args@) == seq!["pcli"@] + w.take(i as int),
            decreases words@.len() - i,
        {
            let ghost before = args@;
            args.push(words[i].clone());
            assert(strings_of(args@) =~= strings_of(before).push(words@[i as int]@));
            assert(w.take(i + 1) =~= w.take(i as int).push(w[i as int]));
            assert(strings_of(args@) =~= seq!["pcli"@] + w.take(i + 1));
            i = i + 1;
        }
        assert(w.take(words@.len() as int) =~= w);
        ReplInput::Command { args, switch_to }
    }
}

// ---------------------------------------------------------------------------
// Word lists
// ---------------------------------------------------------------------------

/// The words completed at the start of a line.
pub open spec fn command_words() -> Seq<Seq<char>> {
    seq![
        "list"@, "ls"@, "projects"@, "new"@, "current"@, "delete"@, "tasks"@, "add"@, "task"@,
        "remind"@, "reminders"@, "status"@, "board"@, "help"@, "stop"@, "open"@, "clear"@,
        "exit"@, "quit"@,
    ]
}

/// The filters completed after `tasks`.
pub open spec fn task_filter_words() -> Seq<Seq<char>> {
    seq![
        "today"@, "tomorrow"@, "week"@, "overdue"@, "pending"@, "active"@, "done"@,
        "cancelled"@, "status:"@, "due:"@, "priority:"@,
    ]
}

/// The actions completed after `task`.
pub open spec fn task_action_words() -> Seq<Seq<char>> {
    seq![
        "done"@, "complete"@, "start"@, "stop"@, "delete"@, "edit"@, "title"@,
        "description"@, "note"@, "priority"@, "due"@,
    ]
}

/// The flags completed after `add`.
pub open spec fn add_flag_words() -> Seq<Seq<char>> {
    seq!["-p"@, "-d"@, "--priority"@, "--due"@, "--description"@]
}

/// The flags completed after `stop`.
pub open spec fn stop_flag_words() -> Seq<Seq<char>> {
    seq!["-p"@, "--port"@]
}

/// The flags completed after `open`.
pub open spec fn open_flag_words() -> Seq<Seq<char>> {
    seq!["-u"@, "--url"@, "--chrome"@, "--safari"@, "--firefox"@]
}

/// A vector of strings made from literals.
fn strings(lits: &[&str]) -> (r: Vec<String>)
    ensures
        strings_of(r@) == lits@.map_values(|l: &str| l@),
{
    let mut r: Vec<String> = Vec::new();
    let mut i: usize = 0;
    while i < lits.len()
        invariant
            i <= lits@.len(),
            strings_of(r@) == lits@.take(i as int).map_values(|l: &str| l@),
        decreases lits@.len() - i,
    {
        let ghost before = r@;
        r.push(string_from(lits[i]));
        assert(strings_of(r@) =~= strings_of(before).push(lits@[i as int]@));
        assert(lits@.take(i + 1) =~= lits@.take(i as int).push(lits@[i as int]));
        assert(lits@.take(i + 1).map_values(|l: &str| l@) =~= lits@.take(i as int).map_values(
            |l: &str| l@,
        ).push(lits@[i as int]@));
        assert(strings_of(r@) =~= lits@.take(i + 1).map_values(|l: &str| l@));
        i = i + 1;
    }
    assert(lits@.take(lits@.len() as int) =~= lits@);
    r
}

/// The words completed at the start of a line, in order.
pub fn repl_commands() -> (r: Vec<String>)
    ensures
        strings_of(r@) == command_words(),
{
    let r = strings(
        &[
            "list",
            "ls",
            "projects",
            "new",
            "current",
            "delete",
            "tasks",
            "add",
            "task",
            "remind",
            "reminders",
            "status",
            "board",
            "help",
            "stop",
            "open",
            "clear",
            "exit",
            "quit",
        ],
    );
    assert(strings_of(r@) =~= command_words());
    r
}

// ---------------------------------------------------------------------------
// Completion
// ---------------------------------------------------------------------------

/// A completion offered: what is shown, and what replaces the word.
#[derive(Debug, Clone)]
pub struct Candidate {
    /// What is shown.
    pub display: String,
    /// What replaces the word being typed.
    pub replacement: String,
}

/// The view of completions.
pub open spec fn cands_view(v: Seq<Candidate>) -> Seq<(Seq<char>, Seq<char>)> {
    v.map_values(|c: Candidate| (c.display@, c.replacement@))
}

/// The words of `list` that start with `p`, in order.
pub open spec fn prefixed(list: Seq<Seq<char>>, p: Seq<char>) -> Seq<Seq<char>> {
    list.filter(|x: Seq<char>| has_prefix(x, p))
}

/// Completions shown as the words themselves.
pub open spec fn same_pairs(l: Seq<Seq<char>>) -> Seq<(Seq<char>, Seq<char>)> {
    l.map_values(|x: Seq<char>| (x, x))
}

/// Completions of project names, shown with ` (project)`.
pub open spec fn project_pairs(l: Seq<Seq<char>>) -> Seq<(Seq<char>, Seq<char>)> {
    l.map_values(|x: Seq<char>| (x + " (project)"@, x))
}

/// Adds to `out` a completion for each word of `list` that starts with `p`.
fn add_prefixed(out: &mut Vec<Candidate>, list: &Vec<String>, p: &[char], as_project: bool)
    ensures
        cands_view(final(out)@) == cands_view(old(out)@) + (if as_project {
            project_pairs(prefixed(strings_of(list@), p@))
        } else {
            same_pairs(prefixed(strings_of(list@), p@))
        }),
{
    let ghost l = strings_of(list@);
    let ghost start = cands_view(out@);
    let mut i: usize = 0;
    while i < list.len()
        invariant
            i <= list@.len(),
            l == strings_of(list@),
            cands_view(out@) == start + (if as_project {
                project_pairs(prefixed(l.take(i as int), p@))
            } else {
                same_pairs(prefixed(l.take(i as int), p@))
            }),
        decreases list@.len() - i,
    {
        let w = &list[i];
        let wc = chars_of(w.as_str());
        proof {
            assert(l.take(i + 1).drop_last() =~= l.take(i as int));
            assert(l.take(i + 1).last() == w@);
            reveal_with_fuel(Seq::<Seq<char>>::filter, 1);
        }
        if starts_with(wc.as_slice(), p) {
            let display = if as_project {
                let mut d = w.clone();
                d.append(" (project)");
                d
            } else {
                w.clone()
            };
            let ghost before = cands_view(out@);
            out.push(Candidate { display, replacement: w.clone() });
            proof {
                assert(prefixed(l.take(i + 1), p@) =~= prefixed(l.take(i as int), p@).push(w@));
                if as_project {
                    assert(project_pairs(prefixed(l.take(i + 1), p@)) =~= project_pairs(
                        prefixed(l.take(i as int), p@),
                    ).push((w@ + " (project)"@, w@)));
                } else {
                    assert(same_pairs(prefixed(l.take(i + 1), p@)) =~= same_pairs(
                        prefixed(l.take(i as int), p@),
                    ).push((w@, w@)));
                }
                assert(cands_view(out@) =~= before.push(
                    (out@.last().display@, out@.last().replacement@),
                ));
            }
        } else {
            proof {
                assert(prefixed(l.take(i + 1), p@) =~= prefixed(l.take(i as int), p@));
            }
        }
        i = i + 1;
    }
    proof {
        assert(l.take(list@.len() as int) =~= l);
    }
}

/// The characters of the line before the byte position `pos`.
pub open spec fn line_before(line: Seq<char>, pos: int) -> Seq<char> {
    decode_utf8(encode_utf8(line).take(pos))
}

/// Whether `s` ends with a space.
pub open spec fn ends_with_space(s: Seq<char>) -> bool {
    s.len() > 0 && s.last() == ' '
}

/// Whether the cursor is on the first word of the line (or on nothing).
pub open spec fn on_first_word(upto: Seq<char>) -> bool {
    let words = ws_words(upto);
    words.len() == 0 || (words.len() == 1 && !ends_with_space(upto))
}

/// The word being completed: on the first word, that word lower-cased;
/// after it, the last word unless the cursor follows a space.
pub open spec fn completion_prefix(upto: Seq<char>) -> Seq<char> {
    let words = ws_words(upto);
    if on_first_word(upto) {
        lower_text(if words.len() == 0 { seq![] } else { words[0] })
    } else if ends_with_space(upto) {
        seq![]
    } else {
        words.last()
    }
}

/// The completions of a later word, by the first word `cmd` (lower-cased).
pub open spec fn later_word_cands(
    cmd: Seq<char>,
    nwords: int,
    prefix: Seq<char>,
    projects: Seq<Seq<char>>,
) -> Seq<(Seq<char>, Seq<char>)> {
    if cmd == "tasks"@ {
        same_pairs(prefixed(task_filter_words(), prefix))
    } else if cmd == "task"@ {
        if nwords >= 2 {
            same_pairs(prefixed(task_action_words(), prefix))
        } else {
            seq![]
        }
    } else if cmd == "delete"@ {
        same_pairs(prefixed(projects, prefix))
    } else if cmd == "add"@ {
        same_pairs(prefixed(add_flag_words(), prefix))
    } else if cmd == "stop"@ {
        same_pairs(prefixed(stop_flag_words(), prefix))
    } else if cmd == "open"@ {
        same_pairs(prefixed(open_flag_words(), prefix))
    } else {
        seq![]
    }
}

/// The completions offered for the text `upto` before the cursor: on the
/// first word, the commands then the projects that start with it; after
/// it, the words that fit the command.
pub open spec fn completion_cands(
    upto: Seq<char>,
    commands: Seq<Seq<char>>,
    projects: Seq<Seq<char>>,
) -> Seq<(Seq<char>, Seq<char>)> {
    let words = ws_words(upto);
    let prefix = completion_prefix(upto);
    if on_first_word(upto) {
        same_pairs(prefixed(commands, prefix)) + project_pairs(prefixed(projects, prefix))
    } else {
        later_word_cands(lower_text(words[0]), words.len() as int, prefix, projects)
    }
}

/// Whether completing at byte `pos` of `line` fails outright: the word being
/// completed, as compared, takes more bytes than the line before the cursor
/// (lower-casing some characters lengthens them).
pub open spec fn completion_faults(line: Seq<char>, pos: int) -> bool {
    encode_utf8(completion_prefix(line_before(line, pos))).len() > pos
}

/// The completions offered with the cursor at byte `pos` of `line`, and the
/// byte position where the completed word starts.
pub fn complete(line: &str, pos: usize, commands: &Vec<String>, projects: &Vec<String>) -> (r: (
    usize,
    Vec<Candidate>,
))
    requires
        is_char_boundary(encode_utf8(line@), pos as int),
        !completion_faults(line@, pos as int),
    ensures
        r.0 == pos - encode_utf8(completion_prefix(line_before(line@, pos as int))).len(),
        cands_view(r.1@) == completion_cands(
            line_before(line@, pos as int),
            strings_of(commands@),
            strings_of(projects@),
        ),
{
    let (upto_s, _rest) = line.split_at(pos);
    proof {
        encode_utf8_decode_utf8(upto_s@);
        assert(upto_s.spec_bytes() == encode_utf8(upto_s@));
        assert(line.spec_bytes() == encode_utf8(line@));
        assert(encode_utf8(line@).take(pos as int) =~= encode_utf8(line@).subrange(0, pos as int));
        assert(upto_s@ == line_before(line@, pos as int));
    }
    let ghost upto = upto_s@;
    let uc = chars_of(upto_s);
    let words = split_whitespace(uc.as_slice());
    let ends_sp = uc.len() > 0 && uc[uc.len() - 1] == ' ';
    proof {
        assert(words@.len() == ws_words(upto).len());
        if words@.len() > 0 {
            assert(words@[0]@ == ws_words(upto)[0]);
            assert(words@[words@.len() - 1]@ == ws_words(upto).last());
        }
    }
    let mut out: Vec<Candidate> = Vec::new();
    if words.len() == 0 || (words.len() == 1 && !ends_sp) {
        let w0 = if words.len() == 0 {
            String::new()
        } else {
            string_of(words[0].as_slice())
        };
        let prefix = to_lowercase(w0.as_str());
        let pc = chars_of(prefix.as_str());
        add_prefixed(&mut out, commands, pc.as_slice(), false);
        add_prefixed(&mut out, projects, pc.as_slice(), true);
        let plen = byte_len(prefix.as_str());
        (pos - plen, out)
    } else {
        let cmd_s = string_of(words[0].as_slice());
        let cmd_l = to_lowercase(cmd_s.as_str());
        let c = cmd_l.as_str();
        let pc: Vec<char> = if ends_sp {
            Vec::new()
        } else {
            crate::text::copy_chars(words[words.len() - 1].as_slice())
        };
        assert(pc@ == completion_prefix(upto));
        if str_eq(c, "tasks") {
            let l = strings(
                &[
                    "today",
                    "tomorrow",
                    "week",
                    "overdue",
                    "pending",
                    "active",
                    "done",
                    "cancelled",
                    "status:",
                    "due:",
                    "priority:",
                ],
            );
            assert(strings_of(l@) =~= task_filter_words());
            add_prefixed(&mut out, &l, pc.as_slice(), false);
        } else if str_eq(c, "task") {
            if words.len() >= 2 {
                let l = strings(
                    &[
                        "done",
                        "complete",
                        "start",
                        "stop",
                        "delete",
                        "edit",
                        "title",
                        "description",
                        "note",
                        "priority",
                        "due",
                    ],
                );
                assert(strings_of(l@) =~= task_action_words());
                add_prefixed(&mut out, &l, pc.as_slice(), false);
            }
        } else if str_eq(c, "delete") {
            add_prefixed(&mut out, projects, pc.as_slice(), false);
        } else if str_eq(c, "add") {
            let l = strings(&["-p", "-d", "--priority", "--due", "--description"]);
            assert(strings_of(l@) =~= add_flag_words());
            add_prefixed(&mut out, &l, pc.as_slice(), false);
        } else if str_eq(c, "stop") {
            let l = strings(&["-p", "--port"]);
            assert(strings_of(l@) =~= stop_flag_words());
            add_prefixed(&mut out, &l, pc.as_slice(), false);
        } else if str_eq(c, "open") {
            let l = strings(&["-u", "--url", "--chrome", "--safari", "--firefox"]);
            assert(strings_of(l@) =~= open_flag_words());
            add_prefixed(&mut out, &l, pc.as_slice(), false);
        }
        assert(cands_view(out@) =~= later_word_cands(
            lower_text(ws_words(upto)[0]),
            ws_words(upto).len() as int,
            pc@,
            strings_of(projects@),
        ));
        let ps = string_of(pc.as_slice());
        let plen = byte_len(ps.as_str());
        (pos - plen, out)
    }
}

/// Whether completing at byte `pos` of `line` fails outright: `pos` is not
/// between two characters, or the word being completed takes more bytes
/// than the line before the cursor.
pub open spec fn completion_fails(line: Seq<char>, pos: int) -> bool {
    !is_char_boundary(encode_utf8(line), pos) || completion_faults(line, pos)
}

/// The completions as `complete` gives them, but first tests whether
/// completing fails outright (see `completion_fails`); `None` then.
pub fn complete_checked(
    line: &str,
    pos: usize,
    commands: &Vec<String>,
    projects: &Vec<String>,
) -> (r: Option<(usize, Vec<Candidate>)>)
    ensures
        r is None <==> completion_fails(line@, pos as int),
        r matches Some(c) ==> c.0 == pos - encode_utf8(
            completion_prefix(line_before(line@, pos as int)),
        ).len() && cands_view(c.1@) == completion_cands(
            line_before(line@, pos as int),
            strings_of(commands@),
            strings_of(projects@),
        ),
{
    if !line.is_char_boundary(pos) {
        return None;
    }
    let (upto_s, _rest) = line.split_at(pos);
    proof {
        encode_utf8_decode_utf8(upto_s@);
        assert(upto_s.spec_bytes() == encode_utf8(upto_s@));
        assert(line.spec_bytes() == encode_utf8(line@));
        assert(encode_utf8(line@).take(pos as int) =~= encode_utf8(line@).subrange(0, pos as int));
        assert(upto_s@ == line_before(line@, pos as int));
    }
    let ghost upto = upto_s@;
    let uc = chars_of(upto_s);
    let words = split_whitespace(uc.as_slice());
    let ends_sp = uc.len() > 0 && uc[uc.len() - 1] == ' ';
    proof {
        assert(words@.len() == ws_words(upto).len());
        if words@.len() > 0 {
            assert(words@[0]@ == ws_words(upto)[0]);
            assert(words@[words@.len() - 1]@ == ws_words(upto).last());
        }
    }
    let plen = if words.len() == 0 || (words.len() == 1 && !ends_sp) {
        let w0 = if words.len() == 0 {
            String::new()
        } else {
            string_of(words[0].as_slice())
        };
        let prefix = to_lowercase(w0.as_str());
        byte_len(prefix.as_str())
    } else if ends_sp {
        0
    } else {
        let ps = string_of(words[words.len() - 1].as_slice());
        byte_len(ps.as_str())
    };
    if plen > pos {
        return None;
    }
    Some(complete(line, pos, commands, projects))
}

// ---------------------------------------------------------------------------
// Hints
// ---------------------------------------------------------------------------

/// The rest of the first word of `cands` that extends `p` (starts with it
/// and differs from it).
pub open spec fn first_extension(cands: Seq<Seq<char>>, p: Seq<char>) -> Option<Seq<char>>
    decreases cands.len(),
{
    if cands.len() == 0 {
        None
    } else if has_prefix(cands[0], p) && cands[0] != p {
        Some(cands[0].skip(p.len() as int))
    } else {
        first_extension(cands.drop_first(), p)
    }
}

/// The hint shown at the end of the line: when the line, lower-cased, is a
/// single word not followed by a space, the rest of the first command, else
/// of the first project, that extends it.
pub open spec fn hint_of(
    line: Seq<char>,
    pos: int,
    commands: Seq<Seq<char>>,
    projects: Seq<Seq<char>>,
) -> Option<Seq<char>> {
    if line.len() == 0 || pos < encode_utf8(line).len() {
        None
    } else {
        let lw = ws_words(lower_text(line));
        if lw.len() == 1 && !ends_with_space(line) {
            match first_extension(commands, lw[0]) {
                Some(h) => Some(h),
                None => first_extension(projects, lw[0]),
            }
        } else {
            None
        }
    }
}

/// The rest of the first word of `list` that extends `p`.
fn first_extension_exec(list: &Vec<String>, p: &[char]) -> (r: Option<String>)
    ensures
        match first_extension(strings_of(list@), p@) {
            Some(h) => r is Some && r->0@ == h,
            None => r is None,
        },
{
    let ghost l = strings_of(list@);
    let mut i: usize = 0;
    assert(l.skip(0) =~= l);
    while i < list.len()
        invariant
            i <= list@.len(),
            l == strings_of(list@),
            first_extension(l.skip(i as int), p@) == first_extension(l, p@),
        decreases list@.len() - i,
    {
        let wc = chars_of(list[i].as_str());
        assert(l.skip(i as int)[0] == wc@);
        assert(l.skip(i as int).drop_first() =~= l.skip(i + 1));
        if starts_with(wc.as_slice(), p) && wc.len() != p.len() {
            let mut rest: Vec<char> = Vec::new();
            let mut j: usize = p.len();
            while j < wc.len()
                invariant
                    p@.len() <= j <= wc@.len(),
                    rest@ == wc@.subrange(p@.len() as int, j as int),
                decreases wc@.len() - j,
            {
                rest.push(wc[j]);
                assert(wc@.subrange(p@.len() as int, j as int).push(wc@[j as int]) =~= wc@.subrange(
                    p@.len() as int,
                    j + 1,
                ));
                j = j + 1;
            }
            assert(rest@ =~= wc@.skip(p@.len() as int));
            return Some(string_of(rest.as_slice()));
        }
        proof {
            if has_prefix(wc@, p@) {
                assert(wc@.len() == p@.len());
                assert(wc@ =~= p@);
            }
        }
        i = i + 1;
    }
    assert(l.skip(list@.len() as int).len() == 0);
    None
}

/// The hint shown with the cursor at byte `pos` of `line` (see `hint_of`).
pub fn hint(line: &str, pos: usize, commands: &Vec<String>, projects: &Vec<String>) -> (r: Option<
    String,
>)
    ensures
        match hint_of(line@, pos as int, strings_of(commands@), strings_of(projects@)) {
            Some(h) => r is Some && r->0@ == h,
            None => r is None,
        },
{
    let lc = chars_of(line);
    if lc.len() == 0 || pos < byte_len(line) {
        return None;
    }
    let lower = to_lowercase(line);
    let low_c = chars_of(lower.as_str());
    let words = split_whitespace(low_c.as_slice());
    let ends_sp = lc[lc.len() - 1] == ' ';
    if words.len() == 1 && !ends_sp {
        assert(words@[0]@ == ws_words(lower_text(line@))[0]);
        match first_extension_exec(commands, words[0].as_slice()) {
            Some(h) => Some(h),
            None => first_extension_exec(projects, words[0].as_slice()),
        }
    } else {
        None
    }
}

// ---------------------------------------------------------------------------
// What completions and hints promise
// ---------------------------------------------------------------------------

proof fn lemma_prefixed_start(list: Seq<Seq<char>>, p: Seq<char>)
    ensures
        forall|k: int|
            0 <= k < prefixed(list, p).len() ==> has_prefix(#[trigger] prefixed(list, p)[k], p),
{
    assert forall|k: int| 0 <= k < prefixed(list, p).len() implies has_prefix(
        #[trigger] prefixed(list, p)[k],
        p,
    ) by {
        list.lemma_filter_pred(|x: Seq<char>| has_prefix(x, p), k);
    }
}

proof fn lemma_same_pairs_start(list: Seq<Seq<char>>, p: Seq<char>)
    ensures
        forall|k: int|
            0 <= k < same_pairs(prefixed(list, p)).len() ==> has_prefix(
                (#[trigger] same_pairs(prefixed(list, p))[k]).1,
                p,
            ),
{
    lemma_prefixed_start(list, p);
    assert forall|k: int| 0 <= k < same_pairs(prefixed(list, p)).len() implies has_prefix(
        (#[trigger] same_pairs(prefixed(list, p))[k]).1,
        p,
    ) by {
        assert(same_pairs(prefixed(list, p))[k].1 == prefixed(list, p)[k]);
    }
}

/// Every completion offered replaces the word being typed by a word that
/// starts with it (on the first word, with it lower-cased).
pub proof fn law_completions_extend_the_word(
    upto: Seq<char>,
    commands: Seq<Seq<char>>,
    projects: Seq<Seq<char>>,
)
    ensures
        forall|k: int|
            0 <= k < completion_cands(upto, commands, projects).len() ==> has_prefix(
                (#[trigger] completion_cands(upto, commands, projects)[k]).1,
                completion_prefix(upto),
            ),
{
    let p = completion_prefix(upto);
    let c = completion_cands(upto, commands, projects);
    if on_first_word(upto) {
        let a = same_pairs(prefixed(commands, p));
        let b = project_pairs(prefixed(projects, p));
        lemma_same_pairs_start(commands, p);
        lemma_prefixed_start(projects, p);
        assert(c == a + b);
        assert forall|k: int| 0 <= k < c.len() implies has_prefix((#[trigger] c[k]).1, p) by {
            if k < a.len() {
                assert(c[k] == a[k]);
            } else {
                assert(c[k] == b[k - a.len()]);
                assert(b[k - a.len()].1 == prefixed(projects, p)[k - a.len()]);
            }
        }
    } else {
        lemma_same_pairs_start(task_filter_words(), p);
        lemma_same_pairs_start(task_action_words(), p);
        lemma_same_pairs_start(projects, p);
        lemma_same_pairs_start(add_flag_words(), p);
        lemma_same_pairs_start(stop_flag_words(), p);
        lemma_same_pairs_start(open_flag_words(), p);
    }
}

proof fn lemma_first_extension(cands: Seq<Seq<char>>, p: Seq<char>)
    requires
        first_extension(cands, p) is Some,
    ensures
        cands.contains(p + first_extension(cands, p)->0),
        first_extension(cands, p)->0.len() > 0,
    decreases cands.len(),
{
    if has_prefix(cands[0], p) && cands[0] != p {
        let h = cands[0].skip(p.len() as int);
        assert(p + h =~= cands[0]);
        if h.len() == 0 {
            assert(cands[0] =~= p);
        }
        assert(cands[0] == cands[0]);
    } else {
        lemma_first_extension(cands.drop_first(), p);
        let w = p + first_extension(cands, p)->0;
        let j = choose|j: int| 0 <= j < cands.drop_first().len() && cands.drop_first()[j] == w;
        assert(cands[j + 1] == w);
    }
}

/// A hint finishes the typed word into a command or, failing that, a
/// project name: the word followed by the hint is one of them, and the hint
/// is never empty.
pub proof fn law_hint_completes_a_name(
    line: Seq<char>,
    pos: int,
    commands: Seq<Seq<char>>,
    projects: Seq<Seq<char>>,
)
    requires
        hint_of(line, pos, commands, projects) is Some,
    ensures
        ws_words(lower_text(line)).len() == 1,
        commands.contains(ws_words(lower_text(line))[0] + hint_of(line, pos, commands, projects)->0)
            || projects.contains(
            ws_words(lower_text(line))[0] + hint_of(line, pos, commands, projects)->0,
        ),
        hint_of(line, pos, commands, projects)->0.len() > 0,
{
    let w = ws_words(lower_text(line))[0];
    if first_extension(commands, w) is Some {
        lemma_first_extension(commands, w);
    } else {
        lemma_first_extension(projects, w);
    }
}

} // verus!
