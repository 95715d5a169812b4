use pcli::duration::parse_duration;
use pcli::error::Error;
use pcli::project::{slugify, Project};
use pcli::reminder::{Reminder, ReminderStatus, TaskRef};
use pcli::task::{Priority, Task, TaskStatus};
use pcli::time_log::TimeLog;

const SEC: i128 = 1_000_000_000;
const DAY: i128 = 86_400 * SEC;

fn now() -> i128 {
    let n = chrono::Utc::now();
    n.timestamp() as i128 * SEC + n.timestamp_subsec_nanos() as i128
}

#[test]
fn test_parse_duration() {
    assert_eq!(parse_duration("10m").unwrap(), 600);
    assert_eq!(parse_duration("2h").unwrap(), 7200);
    assert_eq!(parse_duration("1d").unwrap(), 86400);
    assert_eq!(parse_duration("30s").unwrap(), 30);
}

#[test]
fn test_project_creation() {
    let project = Project::new("My Project");
    assert_eq!(project.id, "my-project");
    assert_eq!(project.name, "My Project");
}

#[test]
fn test_slugify() {
    assert_eq!(Project::slugify("Hello World"), "hello-world");
    assert_eq!(Project::slugify("My  Project  Name"), "my-project-name");
    assert_eq!(Project::slugify("Project_123"), "project-123");
}

#[test]
fn test_task_ref_parse() {
    let task_ref = TaskRef::parse("calorii task 2").unwrap();
    assert_eq!(task_ref.project, "calorii");
    assert_eq!(task_ref.task_id, 2);
}

#[test]
fn test_task_ref_parse_invalid() {
    assert!(TaskRef::parse("invalid").is_none());
    assert!(TaskRef::parse("project task").is_none());
}

#[test]
fn test_task_creation() {
    let task = Task::new("my-project", "Test task");
    assert_eq!(task.title, "Test task");
    assert_eq!(task.status, TaskStatus::Todo);
    assert_eq!(task.priority, Priority::Normal);
}

#[test]
fn test_status_from_str() {
    assert_eq!("todo".parse::<TaskStatus>().unwrap(), TaskStatus::Todo);
    assert_eq!("done".parse::<TaskStatus>().unwrap(), TaskStatus::Done);
    assert_eq!("complete".parse::<TaskStatus>().unwrap(), TaskStatus::Done);
}

#[test]
fn test_priority_from_str() {
    assert_eq!("high".parse::<Priority>().unwrap(), Priority::High);
    assert_eq!("h".parse::<Priority>().unwrap(), Priority::High);
    assert_eq!("3".parse::<Priority>().unwrap(), Priority::High);
}

#[test]
fn test_time_log_creation() {
    let log = TimeLog::start("my-project", 1);
    assert!(log.is_running());
    assert_eq!(log.task_id, 1);
}

#[test]
fn test_elapsed_str() {
    let mut log = TimeLog::start("my-project", 1);
    log.started_at = now() - 3_661 * SEC;
    assert_eq!(log.elapsed_str(), "01:01:01");
}

// ---------------------------------------------------------------------------
// Statuses and priorities
// ---------------------------------------------------------------------------

#[test]
fn status_names_round_trip() {
    for st in TaskStatus::all() {
        assert_eq!(TaskStatus::parse(st.as_str()), Ok(st));
        assert_eq!(st.to_string(), st.as_str());
    }
    assert_eq!(TaskStatus::InProgress.as_str(), "in_progress");
}

#[test]
fn priority_names_round_trip() {
    for p in Priority::all() {
        assert_eq!(Priority::parse(p.as_str()), Ok(p));
    }
    assert_eq!(Priority::Urgent.to_string(), "urgent");
}

#[test]
fn status_parse_ignores_case() {
    assert_eq!(TaskStatus::parse("DONE"), TaskStatus::parse("done"));
    assert_eq!(TaskStatus::parse("In_Progress"), Ok(TaskStatus::InProgress));
    assert_eq!(TaskStatus::parse("X"), Ok(TaskStatus::Cancelled));
}

#[test]
fn priority_parse_ignores_case() {
    assert_eq!(Priority::parse("URGENT"), Ok(Priority::Urgent));
    assert_eq!(Priority::parse("Critical"), Ok(Priority::Urgent));
    assert_eq!(Priority::parse("L"), Ok(Priority::Low));
}

#[test]
fn status_parse_refuses_unknown() {
    assert_eq!(TaskStatus::parse("later"), Err(Error::InvalidStatus("later".to_string())));
}

#[test]
fn priority_parse_refuses_unknown() {
    assert_eq!(Priority::parse("5"), Err(Error::InvalidPriority("5".to_string())));
}

#[test]
fn priority_order_is_strict() {
    let ranks: Vec<i32> = Priority::all().iter().map(|p| p.order()).collect();
    assert_eq!(ranks, vec![1, 2, 3, 4]);
    assert_eq!(Priority::default(), Priority::Normal);
}

#[test]
fn status_completion_and_symbols() {
    assert!(TaskStatus::Done.is_completed());
    assert!(TaskStatus::Cancelled.is_completed());
    assert!(!TaskStatus::Todo.is_completed());
    assert_eq!(TaskStatus::InProgress.emoji(), "▶");
    assert_eq!(Priority::High.emoji(), "🟡");
}

// ---------------------------------------------------------------------------
// Tasks
// ---------------------------------------------------------------------------

#[test]
fn task_new_at_fields() {
    let t = Task::new_at("p", "Write docs", 5 * SEC);
    assert_eq!(t.id, 0);
    assert_eq!(t.project_id, "p");
    assert_eq!(t.created_at, 5 * SEC);
    assert_eq!(t.updated_at, 5 * SEC);
    assert!(t.due_date.is_none() && t.completed_at.is_none() && t.description.is_none());
}

#[test]
fn task_new_reads_the_clock() {
    let before = now();
    let t = Task::new("p", "x");
    let after = now();
    assert!(before <= t.created_at && t.created_at <= after);
}

#[test]
fn task_builders() {
    let t = Task::new_at("p", "x", 0)
        .with_priority(Priority::Urgent)
        .with_due_date(7)
        .with_description("notes");
    assert_eq!(t.priority, Priority::Urgent);
    assert_eq!(t.due_date, Some(7));
    assert_eq!(t.description.as_deref(), Some("notes"));
}

#[test]
fn task_complete_and_start() {
    let mut t = Task::new_at("p", "x", 0);
    t.start_at(10);
    assert_eq!(t.status, TaskStatus::InProgress);
    assert_eq!(t.updated_at, 10);
    t.complete_at(20, 21);
    assert_eq!(t.status, TaskStatus::Done);
    assert_eq!(t.completed_at, Some(20));
    assert_eq!(t.updated_at, 21);
    let mut u = Task::new_at("p", "y", 0);
    u.complete();
    assert_eq!(u.status, TaskStatus::Done);
    assert!(u.completed_at.is_some());
    u.start();
    assert_eq!(u.status, TaskStatus::InProgress);
}

#[test]
fn task_overdue_and_due_today() {
    let n = 10 * DAY + 12 * 3600 * SEC;
    let t = Task::new_at("p", "x", 0).with_due_date(n - SEC);
    assert!(t.is_overdue_at(n));
    assert!(t.is_due_today_at(n));
    let tomorrow = Task::new_at("p", "x", 0).with_due_date(n + DAY);
    assert!(!tomorrow.is_overdue_at(n));
    assert!(!tomorrow.is_due_today_at(n));
    let none = Task::new_at("p", "x", 0);
    assert!(!none.is_overdue_at(n) && !none.is_due_today_at(n));
}

#[test]
fn finished_task_is_never_overdue() {
    let mut t = Task::new_at("p", "x", 0).with_due_date(0);
    t.complete_at(1, 1);
    assert!(!t.is_overdue_at(100 * DAY));
    assert!(!t.is_overdue());
}

#[test]
fn task_due_today_uses_the_clock() {
    let t = Task::new_at("p", "x", 0).with_due_date(now());
    assert!(t.is_due_today() || !t.is_due_today());
    let old = Task::new_at("p", "x", 0).with_due_date(0);
    assert!(old.is_overdue());
}

// ---------------------------------------------------------------------------
// Projects
// ---------------------------------------------------------------------------

#[test]
fn slugify_edge_cases() {
    assert_eq!(slugify("  --Hello!!World--  "), "hello-world");
    assert_eq!(slugify(""), "");
    assert_eq!(slugify("***"), "");
    assert_eq!(slugify("ÉTÉ 2024"), "été-2024");
}

#[test]
fn project_new_at_and_description() {
    let p = Project::new_at("Side Quest", 3);
    assert_eq!(p.id, "side-quest");
    assert_eq!(p.created_at, 3);
    assert_eq!(p.updated_at, 3);
    assert!(p.description.is_none());
    let d = Project::with_description("Side Quest", "weekend");
    assert_eq!(d.id, "side-quest");
    assert_eq!(d.description.as_deref(), Some("weekend"));
}

// ---------------------------------------------------------------------------
// Reminders
// ---------------------------------------------------------------------------

#[test]
fn task_ref_text_and_case() {
    let r = TaskRef::parse("Calorii TASK 12 later").unwrap();
    assert_eq!(r.project, "calorii");
    assert_eq!(r.task_id, 12);
    assert_eq!(r.to_string(), "calorii task 12");
    assert!(TaskRef::parse("calorii task two").is_none());
    assert!(TaskRef::parse("calorii job 2").is_none());
}

#[test]
fn task_ref_round_trips() {
    let r = TaskRef::parse("web task -3").unwrap();
    let again = TaskRef::parse(&r.to_string()).unwrap();
    assert_eq!(again.project, r.project);
    assert_eq!(again.task_id, -3);
}

#[test]
fn reminder_constructors() {
    let r = Reminder::new_at("stretch", 50, 10);
    assert_eq!(r.message, "stretch");
    assert_eq!(r.remind_at, 50);
    assert_eq!(r.created_at, 10);
    assert_eq!(r.status, ReminderStatus::Pending);
    let t = Reminder::for_task_at(TaskRef::parse("web task 4").unwrap(), 50, 10);
    assert_eq!(t.message, "web task 4");
    assert_eq!(t.project_id.as_deref(), Some("web"));
    assert_eq!(t.task_id, Some(4));
    let n = Reminder::new("x", 0);
    assert!(n.created_at > 0);
    let f = Reminder::for_task(TaskRef::parse("a task 1").unwrap(), 0);
    assert_eq!(f.task_id, Some(1));
}

#[test]
fn reminder_fires_when_due() {
    let r = Reminder::new_at("m", 100, 0);
    assert!(!r.should_fire_at(99));
    assert!(r.should_fire_at(100));
    assert!(r.should_fire());
    let mut fired = Reminder::new_at("m", 100, 0);
    fired.status = ReminderStatus::Fired;
    assert!(!fired.should_fire_at(1000));
    assert!(!fired.should_fire());
    assert_eq!(ReminderStatus::Snoozed.as_str(), "snoozed");
    assert_eq!(ReminderStatus::Dismissed.to_string(), "dismissed");
}

#[test]
fn reminder_time_remaining_text() {
    let at = |secs: i128| Reminder::new_at("m", secs * SEC, 0);
    assert_eq!(at(45).time_remaining_str_at(0), "45s");
    assert_eq!(at(125).time_remaining_str_at(0), "2m");
    assert_eq!(at(3_700).time_remaining_str_at(0), "1h 1m");
    assert_eq!(at(90_000).time_remaining_str_at(0), "1d 1h");
    assert_eq!(at(10).time_remaining_str_at(10 * SEC), "now");
    assert_eq!(at(10).time_remaining_at(4 * SEC), Some(6 * SEC));
    assert_eq!(at(10).time_remaining_at(10 * SEC), None);
}

#[test]
fn reminder_due_iff_nothing_left() {
    let r = Reminder::new_at("m", 500, 0);
    for n in [0i128, 499, 500, 501] {
        assert_eq!(r.should_fire_at(n), r.time_remaining_at(n).is_none());
    }
    let far = Reminder::new_at("m", now() + 3_600 * SEC, 0);
    assert!(far.time_remaining().is_some());
    assert_ne!(far.time_remaining_str(), "now");
}

// ---------------------------------------------------------------------------
// Time logs
// ---------------------------------------------------------------------------

#[test]
fn time_log_formats() {
    let log = TimeLog::start_at("p", 3, 0);
    assert_eq!(log.elapsed_str_at(3_661 * SEC), "01:01:01");
    assert_eq!(log.elapsed_seconds_at(3_661 * SEC + 999_999_999), 3_661);
    assert_eq!(log.duration_human_at(45 * SEC), "45s");
    assert_eq!(log.duration_human_at(200 * SEC), "3m 20s");
    assert_eq!(log.duration_human_at(3_661 * SEC), "1h 1m");
    assert_eq!(log.elapsed_at(2 * SEC), 2_000_000_000);
}

#[test]
fn stopped_log_records_elapsed() {
    let mut log = TimeLog::start_at("p", 3, 10 * SEC);
    log.stop_at(70 * SEC);
    assert!(!log.is_running());
    assert_eq!(log.ended_at, Some(70 * SEC));
    assert_eq!(log.duration_seconds, Some(60));
    assert_eq!(log.elapsed_seconds_at(1_000 * SEC), 60);
    let mut live = TimeLog::start("p", 1);
    live.stop();
    assert!(!live.is_running());
    assert!(live.duration_human().ends_with('s'));
}

#[test]
fn pomodoro_log() {
    let log = TimeLog::pomodoro("p", 2);
    assert!(log.is_pomodoro);
    assert!(log.is_running());
    assert!(log.elapsed() >= 0);
    assert!(log.elapsed_seconds() >= 0);
}

// ---------------------------------------------------------------------------
// Errors
// ---------------------------------------------------------------------------

#[test]
fn error_messages() {
    let s = |x: &str| x.to_string();
    assert_eq!(Error::Database(s("locked")).message(), "Database error: locked");
    assert_eq!(Error::Io(s("denied")).message(), "IO error: denied");
    assert_eq!(Error::Config(s("bad")).message(), "Configuration error: bad");
    assert_eq!(Error::ProjectNotFound(s("web")).message(), "Project not found: web");
    assert_eq!(Error::TaskNotFound(5).message(), "Task not found: 5");
    assert_eq!(Error::ReminderNotFound(-2).message(), "Reminder not found: -2");
    assert_eq!(
        Error::NoActiveProject.message(),
        "No active project. Use 'pcli <project-name>' to switch or 'pcli new <name>' to create one."
    );
    assert_eq!(Error::ProjectAlreadyExists(s("web")).message(), "Project already exists: web");
    assert_eq!(Error::InvalidStatus(s("z")).message(), "Invalid status: z");
    assert_eq!(Error::InvalidPriority(s("z")).message(), "Invalid priority: z");
    assert_eq!(Error::InvalidDuration(s("z")).message(), "Invalid duration format: z");
    assert_eq!(Error::InvalidDate(s("z")).message(), "Invalid date format: z");
    assert_eq!(Error::Serialization(s("z")).message(), "Serialization error: z");
    assert_eq!(Error::Other(s("plain")).message(), "plain");
}

#[test]
fn slugs_are_stable() {
    for name in ["My  Project  Name", "--A--b--", "Project_123", "x"] {
        let once = slugify(name);
        assert_eq!(slugify(&once), once);
        assert_eq!(once.to_lowercase(), once);
    }
}

#[test]
fn slug_shapes() {
    assert_eq!(slugify("--A--b--"), "a-b");
    assert_eq!(slugify("!!!"), "");
    for name in ["Hello, World!", " x  y ", "A_B_C", "2024 plan"] {
        let s = slugify(name);
        assert!(s.chars().all(|c| c == '-' || c.is_ascii_digit() || c.is_ascii_lowercase()));
        assert!(!s.starts_with('-') && !s.ends_with('-') && !s.contains("--"));
        assert!(!s.is_empty());
    }
}

#[test]
fn dates_written_for_details() {
    let t = 1_709_683_199 * SEC;
    assert_eq!(pcli::clock::format_date(t), "2024-03-05");
    assert_eq!(pcli::clock::format_date_time(t), "2024-03-05 23:59");
}
