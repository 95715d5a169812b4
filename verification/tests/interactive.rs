use pcli::dashboard::{can_cut, dashboard_at, dashboard_drawable_exec};
use pcli::reminder::Reminder;
use pcli::repl::{classify_input, complete, complete_checked, hint, repl_commands, Candidate, ReplInput};
use pcli::store::{
    parse_datetime, parse_datetime_at, project_from_record_at, record_of_project,
    record_of_reminder, record_of_task, reminder_from_record, reminder_from_record_at,
    task_from_record, task_from_record_at, ProjectRecord, TaskRecord,
};
use pcli::table::{
    any_description, border, due_cell_at, pad, repeat_char, task_row, title_width, truncate,
    truncate_bytes, DueTone,
};
use pcli::task::{Priority, Task, TaskStatus};
use pcli::project::Project;
use pcli::text::{
    eq_ignore_ascii_case, is_alphanumeric, is_whitespace, split_whitespace, to_lowercase, trim,
};

const SEC: i128 = 1_000_000_000;
const DAY: i128 = 86_400 * SEC;
/// 2024-03-05T23:59:59Z, in nanoseconds.
const MARCH_5_END: i128 = 1_709_683_199 * SEC;

fn strings(v: &[&str]) -> Vec<String> {
    v.iter().map(|s| s.to_string()).collect()
}

// ---------------------------------------------------------------------------
// Typed lines
// ---------------------------------------------------------------------------

#[test]
fn typed_line_words() {
    assert!(matches!(classify_input("EXIT"), ReplInput::Exit));
    assert!(matches!(classify_input("q"), ReplInput::Exit));
    assert!(matches!(classify_input("cls"), ReplInput::Clear));
    assert!(matches!(classify_input("?"), ReplInput::Help));
    assert!(matches!(classify_input("ls"), ReplInput::ListProjects));
    assert!(matches!(classify_input(".."), ReplInput::Deselect));
    assert!(matches!(classify_input("   "), ReplInput::Empty));
    assert!(matches!(classify_input("add \"unclosed"), ReplInput::BadQuotes));
}

#[test]
fn typed_line_commands() {
    match classify_input("add \"buy milk\" -p high") {
        ReplInput::Command { args, switch_to } => {
            assert_eq!(args, strings(&["pcli", "add", "buy milk", "-p", "high"]));
            assert!(switch_to.is_none());
        }
        _ => panic!("expected a command"),
    }
    match classify_input("MyApp") {
        ReplInput::Command { args, switch_to } => {
            assert_eq!(args, strings(&["pcli", "MyApp"]));
            assert_eq!(switch_to.as_deref(), Some("myapp"));
        }
        _ => panic!("expected a command"),
    }
    match classify_input("--help") {
        ReplInput::Command { switch_to, .. } => assert!(switch_to.is_none()),
        _ => panic!("expected a command"),
    }
}

// ---------------------------------------------------------------------------
// Completion and hints
// ---------------------------------------------------------------------------

fn shown(c: &[Candidate]) -> Vec<(String, String)> {
    c.iter().map(|x| (x.display.clone(), x.replacement.clone())).collect()
}

#[test]
fn completes_first_word() {
    let cmds = repl_commands();
    assert_eq!(cmds.len(), 19);
    let projects = strings(&["tasker", "web"]);
    let (start, c) = complete("ta", 2, &cmds, &projects);
    assert_eq!(start, 0);
    assert_eq!(
        shown(&c),
        vec![
            ("tasks".to_string(), "tasks".to_string()),
            ("task".to_string(), "task".to_string()),
            ("tasker (project)".to_string(), "tasker".to_string()),
        ]
    );
    let (start, c) = complete("", 0, &cmds, &projects);
    assert_eq!(start, 0);
    assert_eq!(c.len(), 21);
}

#[test]
fn completes_later_words() {
    let cmds = repl_commands();
    let projects = strings(&["web", "mobile"]);
    let (start, c) = complete("tasks to", 8, &cmds, &projects);
    assert_eq!(start, 6);
    assert_eq!(
        shown(&c),
        vec![
            ("today".to_string(), "today".to_string()),
            ("tomorrow".to_string(), "tomorrow".to_string()),
        ]
    );
    let (start, c) = complete("task 3 ", 7, &cmds, &projects);
    assert_eq!(start, 7);
    assert_eq!(c.len(), 11);
    let (_, c) = complete("delete w", 8, &cmds, &projects);
    assert_eq!(shown(&c), vec![("web".to_string(), "web".to_string())]);
    let (_, c) = complete("stop -", 6, &cmds, &projects);
    assert_eq!(c.len(), 2);
    let (_, c) = complete("open --", 7, &cmds, &projects);
    assert_eq!(c.len(), 4);
    let (_, c) = complete("add --d", 7, &cmds, &projects);
    assert_eq!(c.len(), 2);
    let (_, c) = complete("new x", 5, &cmds, &projects);
    assert!(c.is_empty());
}

#[test]
fn completion_checked_position() {
    let cmds = repl_commands();
    let projects = Vec::new();
    assert!(complete_checked("é", 1, &cmds, &projects).is_none());
    assert!(complete_checked("ta", 2, &cmds, &projects).is_some());
}

#[test]
fn hints() {
    let cmds = repl_commands();
    let projects = strings(&["myapp"]);
    assert_eq!(hint("pro", 3, &cmds, &projects).as_deref(), Some("jects"));
    assert_eq!(hint("PRO", 3, &cmds, &projects).as_deref(), Some("jects"));
    assert_eq!(hint("my", 2, &cmds, &projects).as_deref(), Some("app"));
    assert_eq!(hint("projects", 8, &cmds, &projects), None);
    assert_eq!(hint("ta", 1, &cmds, &projects), None);
    assert_eq!(hint("ta ", 3, &cmds, &projects), None);
    assert_eq!(hint("", 0, &cmds, &projects), None);
}

// ---------------------------------------------------------------------------
// Stored rows
// ---------------------------------------------------------------------------

#[test]
fn stored_times() {
    assert_eq!(parse_datetime_at("1970-01-01T00:00:01Z", 42), SEC);
    assert_eq!(parse_datetime_at("1970-01-01T00:00:00.5+01:00", 42), -3_600 * SEC + 500_000_000);
    assert_eq!(parse_datetime_at("garbage", 42), 42);
    assert_eq!(parse_datetime("2024-03-05T23:59:59+00:00"), MARCH_5_END);
}

#[test]
fn task_record_round_trip() {
    let mut t = Task::new_at("web", "Fix bug", 1_234_567_891)
        .with_priority(Priority::High)
        .with_due_date(MARCH_5_END)
        .with_description("details");
    t.id = 9;
    t.start_at(2_000_000_000);
    let rec = record_of_task(&t);
    assert_eq!(rec.status.as_deref(), Some("in_progress"));
    assert_eq!(rec.priority.as_deref(), Some("high"));
    assert_eq!(rec.created_at.as_deref(), Some("1970-01-01T00:00:01.234567891+00:00"));
    assert_eq!(rec.due_date.as_deref(), Some("2024-03-05T23:59:59+00:00"));
    assert!(rec.completed_at.is_none());
    let back = task_from_record_at(&rec, 77);
    assert_eq!(back.id, 9);
    assert_eq!(back.project_id, "web");
    assert_eq!(back.title, "Fix bug");
    assert_eq!(back.description.as_deref(), Some("details"));
    assert_eq!(back.status, TaskStatus::InProgress);
    assert_eq!(back.priority, Priority::High);
    assert_eq!(back.due_date, Some(MARCH_5_END));
    assert_eq!(back.created_at, 1_234_567_891);
    assert_eq!(back.updated_at, 2_000_000_000);
    assert_eq!(back.completed_at, None);
}

#[test]
fn task_record_defaults() {
    let rec = TaskRecord {
        id: None,
        project_id: None,
        title: Some("t".to_string()),
        description: None,
        status: Some("weird".to_string()),
        priority: Some("URGENT".to_string()),
        due_date: Some("not a date".to_string()),
        created_at: None,
        updated_at: Some("bad".to_string()),
        completed_at: None,
    };
    let t = task_from_record_at(&rec, 5);
    assert_eq!(t.id, 0);
    assert_eq!(t.project_id, "");
    assert_eq!(t.status, TaskStatus::Todo);
    assert_eq!(t.priority, Priority::Urgent);
    assert_eq!(t.due_date, Some(5));
    assert_eq!(t.created_at, 5);
    assert_eq!(t.updated_at, 5);
    let live = task_from_record(&rec);
    assert!(live.created_at > 0);
}

#[test]
fn project_records() {
    let mut p = Project::with_description("Web Site", "main");
    p.created_at = 0;
    p.updated_at = 0;
    let rec = record_of_project(&p);
    assert_eq!(rec.id.as_deref(), Some("web-site"));
    assert_eq!(rec.created_at.as_deref(), Some("1970-01-01T00:00:00+00:00"));
    let back = project_from_record_at(&rec, 9).unwrap();
    assert_eq!(back.name, "Web Site");
    assert_eq!(back.description.as_deref(), Some("main"));
    assert_eq!(back.created_at, 0);
    let missing = ProjectRecord {
        id: Some("x".to_string()),
        name: None,
        description: Some(None),
        created_at: Some("1970-01-01T00:00:00Z".to_string()),
        updated_at: Some("1970-01-01T00:00:00Z".to_string()),
    };
    assert!(project_from_record_at(&missing, 0).is_none());
}

#[test]
fn reminder_records() {
    let r = Reminder::new_at("stretch", 600 * SEC, 0);
    let rec = record_of_reminder(&r);
    assert_eq!(rec.status.as_deref(), Some("pending"));
    assert_eq!(rec.remind_at.as_deref(), Some("1970-01-01T00:10:00+00:00"));
    let back = reminder_from_record_at(&rec, 1).unwrap();
    assert_eq!(back.message, "stretch");
    assert_eq!(back.remind_at, 600 * SEC);
    assert_eq!(back.created_at, 0);
    assert!(reminder_from_record(&rec).is_some());
}

// ---------------------------------------------------------------------------
// Table cells
// ---------------------------------------------------------------------------

#[test]
fn table_widths_and_cells() {
    assert_eq!(title_width(80), 36);
    assert_eq!(title_width(50), 30);
    assert_eq!(title_width(0), 30);
    assert_eq!(truncate("Hello world", 5), "Hell…");
    assert_eq!(truncate("Héllo", 5), "Héllo");
    assert_eq!(truncate("abc", 0), "…");
    assert_eq!(pad("ab", 4), "ab  ");
    assert_eq!(pad("abcdef", 4), "abcdef");
    assert_eq!(repeat_char('─', 3), "───");
    assert_eq!(border('┌', '┬', '┐', 1), "┌────┬───┬──────────────┬──────────┬──────────┐");
}

#[test]
fn table_row_cells() {
    let t = Task::new_at("p", "A rather long title", 0).with_description("d");
    let row = task_row(&t, 10);
    assert_eq!(row.id, "0 ");
    assert_eq!(row.title, "✎ A rathe…");
    assert_eq!(row.status, "○ todo      ");
    assert_eq!(row.priority, "⚪ normal");
    assert!(any_description(&vec![Task::new_at("p", "x", 0), t]));
    assert!(!any_description(&vec![Task::new_at("p", "x", 0)]));
}

#[test]
fn table_due_cells() {
    let late = Task::new_at("p", "x", 0).with_due_date(MARCH_5_END);
    let (text, tone) = due_cell_at(&late, MARCH_5_END + DAY);
    assert_eq!(text, "Mar 05  ");
    assert_eq!(tone, DueTone::Overdue);
    let (_, tone) = due_cell_at(&late, MARCH_5_END - 3_600 * SEC);
    assert_eq!(tone, DueTone::Today);
    let (text, tone) = due_cell_at(&Task::new_at("p", "x", 0), 0);
    assert_eq!(text, "-       ");
    assert_eq!(tone, DueTone::Plain);
}

#[test]
fn byte_truncation() {
    assert_eq!(truncate_bytes("Hello world", 8), "Hello...");
    assert_eq!(truncate_bytes("short", 8), "short");
    assert!(can_cut("Hello world", 8));
    assert!(!can_cut("ééééé", 6));
    assert!(can_cut("ééééé", 5));
}

// ---------------------------------------------------------------------------
// Dashboard
// ---------------------------------------------------------------------------

#[test]
fn dashboard_lists() {
    let active = vec![
        Task::new_at("p", "one", 0),
        Task::new_at("p", "a title that is far too long to fit", 0),
        Task::new_at("p", "three", 0),
        Task::new_at("p", "four", 0),
    ];
    let todo = vec![Task::new_at("p", "due soon", 0).with_due_date(MARCH_5_END), Task::new_at("p", "someday", 0)];
    let rs = vec![Reminder::new_at("stand up and stretch a little", 600 * SEC, 0)];
    assert!(dashboard_drawable_exec(&active, &todo, &rs));
    let d = dashboard_at("Web", 3, &active, &todo, &rs, 0);
    assert_eq!(d.name, "Web");
    assert_eq!(d.done, 3);
    assert_eq!(d.pending, 2);
    assert_eq!(d.active_count, 4);
    assert_eq!(d.active.len(), 3);
    assert_eq!(d.active[1].title, "a title that is far too ...");
    assert_eq!(d.active[0].due, "");
    assert_eq!(d.waiting.len(), 2);
    assert_eq!(d.waiting[0].due, " [Mar 05]");
    assert_eq!(d.waiting[1].due, "");
    assert_eq!(d.reminders.len(), 1);
    assert_eq!(d.reminders[0].message, "stand up and stre...");
    assert_eq!(d.reminders[0].remaining, "10m");
}

// ---------------------------------------------------------------------------
// Text
// ---------------------------------------------------------------------------

#[test]
fn text_helpers() {
    assert_eq!(to_lowercase("ÀB"), "àb");
    assert_eq!(to_lowercase("MiXeD"), "mixed");
    assert!(is_whitespace('\u{3000}'));
    assert!(is_whitespace('\t'));
    assert!(!is_whitespace('x'));
    assert!(is_alphanumeric('é'));
    assert!(!is_alphanumeric('_'));
    let words: Vec<String> = split_whitespace(&" a  bc\td ".chars().collect::<Vec<char>>())
        .into_iter()
        .map(|w| w.into_iter().collect())
        .collect();
    assert_eq!(words, vec!["a", "bc", "d"]);
    let t: String = trim(&"  hi there \n".chars().collect::<Vec<char>>()).into_iter().collect();
    assert_eq!(t, "hi there");
    let a: Vec<char> = "TaSk".chars().collect();
    let b: Vec<char> = "task".chars().collect();
    assert!(eq_ignore_ascii_case(&a, &b));
}
