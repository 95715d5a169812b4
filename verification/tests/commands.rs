use pcli::commands::{
    delete_target, switch_target, SwitchOutcome, matching_projects, normalize_url, notification_script, parse_pid, pids_from_lsof,
    project_key, Browser, Commands,
};
use pcli::config::{default_priority, Config};
use pcli::duration::{parse_duration, parse_duration_checked};
use pcli::error::Error;
use pcli::listing::sort_tasks;
use pcli::filter::{filter_tasks, parse_task_filter, DueWindow, TaskFilter};
use pcli::paths::{config_path, daemon_pid_path, db_path, history_path, join_path};
use pcli::project::Project;
use pcli::reminder::{plan_reminder, plan_reminder_checked, reminders_to_fire, Reminder};
use pcli::task::{Priority, Task, TaskStatus};
use pcli::tasks_cmd::{
    new_task, new_task_checked, parse_due_date, plan_task_action, plan_task_action_checked,
    priority_tag, TaskAction,
};
use pcli::tui::App;

const SEC: i128 = 1_000_000_000;
const DAY: i128 = 86_400 * SEC;
/// 2024-03-05T23:59:59Z, in nanoseconds.
const MARCH_5_END: i128 = 1_709_683_199 * SEC;

fn other(r: Result<u64, Error>) -> String {
    match r {
        Err(Error::Other(m)) => m,
        x => panic!("unexpected {:?}", x),
    }
}

// ---------------------------------------------------------------------------
// Durations
// ---------------------------------------------------------------------------

#[test]
fn duration_long_units_and_spacing() {
    assert_eq!(parse_duration("5min").unwrap(), 300);
    assert_eq!(parse_duration("30mins").unwrap(), 1_800);
    assert_eq!(parse_duration("2hours").unwrap(), 7_200);
    assert_eq!(parse_duration("1hour").unwrap(), 3_600);
    assert_eq!(parse_duration("3days").unwrap(), 259_200);
    assert_eq!(parse_duration("  10M  ").unwrap(), 600);
    assert_eq!(parse_duration("0s").unwrap(), 0);
}

#[test]
fn duration_errors() {
    assert_eq!(other(parse_duration("   ")), "Duration cannot be empty");
    assert_eq!(other(parse_duration("5x")), "Invalid duration unit. Use: s, m, h, or d");
    assert_eq!(other(parse_duration("abcm")), "Invalid number: abc");
    assert_eq!(other(parse_duration("m")), "Invalid number: ");
    assert_eq!(other(parse_duration("-5s")), "Invalid number: -5");
    assert_eq!(other(parse_duration("30 mins")), "Invalid number: 30 ");
}

#[test]
fn duration_checked_overflow() {
    assert!(parse_duration_checked("300000000000000d").is_none());
    assert_eq!(parse_duration_checked("7d"), Some(Ok(604_800)));
    assert!(matches!(parse_duration_checked("7q"), Some(Err(Error::Other(_)))));
}

// ---------------------------------------------------------------------------
// Due dates and new tasks
// ---------------------------------------------------------------------------

#[test]
fn due_date_words() {
    let now = 1_000 * DAY;
    assert_eq!(parse_due_date("today", now), Ok(now));
    assert_eq!(parse_due_date("Tomorrow", now), Ok(now + DAY));
    assert_eq!(parse_due_date("WEEK", now), Ok(now + 7 * DAY));
    assert_eq!(parse_due_date("nextweek", now), Ok(now + 7 * DAY));
}

#[test]
fn due_date_calendar() {
    assert_eq!(parse_due_date("2024-03-05", 0), Ok(MARCH_5_END));
    assert_eq!(parse_due_date("1970-01-01", 0), Ok(86_399 * SEC));
}

#[test]
fn due_date_error() {
    assert_eq!(
        parse_due_date("2024-13-01", 0),
        Err(Error::Other(
            "Invalid date format: 2024-13-01. Use: today, tomorrow, week, or YYYY-MM-DD".to_string()
        ))
    );
    assert!(parse_due_date("friday", 0).is_err());
}

#[test]
fn new_task_full_form() {
    let now = 2_000 * DAY;
    let t = new_task("web", "Ship it", Some("before lunch"), Some("HIGH"), Some("today"), now)
        .unwrap();
    assert_eq!(t.project_id, "web");
    assert_eq!(t.title, "Ship it");
    assert_eq!(t.description.as_deref(), Some("before lunch"));
    assert_eq!(t.priority, Priority::High);
    assert_eq!(t.due_date, Some(now));
    assert_eq!(t.status, TaskStatus::Todo);
    assert_eq!(t.created_at, now);
    let plain = new_task("web", "Plain", None, None, None, now).unwrap();
    assert_eq!(plain.priority, Priority::Normal);
    assert!(plain.due_date.is_none());
}

#[test]
fn new_task_errors() {
    assert!(matches!(
        new_task("web", "x", None, Some("zzz"), Some("bogus"), 0),
        Err(Error::InvalidPriority(ref p)) if p == "zzz"
    ));
    assert!(matches!(new_task("web", "x", None, None, Some("bogus"), 0), Err(Error::Other(_))));
}

#[test]
fn new_task_checked_refuses_past_calendar() {
    let last = 8_210_266_876_799_999_999_999i128;
    assert!(new_task_checked("web", "x", None, None, Some("tomorrow"), last).is_none());
    assert!(new_task_checked("web", "x", None, None, Some("today"), last).is_some());
}

#[test]
fn priority_tags() {
    assert_eq!(priority_tag(Priority::High), "[HIGH]");
    assert_eq!(priority_tag(Priority::Low), "[LOW]");
}

// ---------------------------------------------------------------------------
// Actions on a task
// ---------------------------------------------------------------------------

fn sample_task() -> Task {
    Task::new_at("web", "Fix bug", 0)
}

#[test]
fn task_action_status_words() {
    assert!(matches!(plan_task_action(sample_task(), 1, None, None, 0), Ok(TaskAction::Show)));
    assert!(matches!(plan_task_action(sample_task(), 1, Some("c"), None, 0), Ok(TaskAction::Complete)));
    assert!(matches!(plan_task_action(sample_task(), 1, Some("s"), None, 0), Ok(TaskAction::Start)));
    assert!(matches!(plan_task_action(sample_task(), 1, Some("stop"), None, 0), Ok(TaskAction::Stop)));
    assert!(matches!(plan_task_action(sample_task(), 1, Some("rm"), None, 0), Ok(TaskAction::Delete)));
    assert_eq!(TaskAction::Complete.new_status(), Some(TaskStatus::Done));
    assert_eq!(TaskAction::Start.new_status(), Some(TaskStatus::InProgress));
    assert_eq!(TaskAction::Stop.new_status(), Some(TaskStatus::Todo));
    assert_eq!(TaskAction::Delete.new_status(), None);
}

#[test]
fn task_action_edits() {
    match plan_task_action(sample_task(), 1, Some("priority"), Some("urgent"), 9) {
        Ok(TaskAction::SetPriority(t)) => {
            assert_eq!(t.priority, Priority::Urgent);
            assert_eq!(t.updated_at, 9);
        }
        _ => panic!("expected a new priority"),
    }
    match plan_task_action(sample_task(), 1, Some("due"), Some("tomorrow"), 9) {
        Ok(TaskAction::SetDue(t)) => assert_eq!(t.due_date, Some(9 + DAY)),
        _ => panic!("expected a due date"),
    }
    match plan_task_action(sample_task(), 1, Some("note"), Some("see PR"), 9) {
        Ok(TaskAction::SetDescription(t)) => assert_eq!(t.description.as_deref(), Some("see PR")),
        _ => panic!("expected a description"),
    }
    match plan_task_action(sample_task(), 1, Some("edit"), Some("New title"), 9) {
        Ok(TaskAction::SetTitle(t)) => {
            assert_eq!(t.title, "New title");
            assert_eq!(t.project_id, "web");
        }
        _ => panic!("expected a title"),
    }
}

#[test]
fn task_action_errors() {
    let msg = |r: Result<TaskAction, Error>| match r {
        Err(e) => e.message(),
        Ok(_) => panic!("expected an error"),
    };
    assert_eq!(
        msg(plan_task_action(sample_task(), 7, Some("priority"), None, 0)),
        "Usage: pcli task 7 priority <low|normal|high|urgent>"
    );
    assert_eq!(
        msg(plan_task_action(sample_task(), 7, Some("due"), None, 0)),
        "Usage: pcli task 7 due <today|tomorrow|week|YYYY-MM-DD>"
    );
    assert_eq!(
        msg(plan_task_action(sample_task(), 7, Some("desc"), None, 0)),
        "Usage: pcli task 7 description <text>"
    );
    assert_eq!(
        msg(plan_task_action(sample_task(), 7, Some("title"), None, 0)),
        "Usage: pcli task 7 edit <new title>"
    );
    assert_eq!(
        msg(plan_task_action(sample_task(), 7, Some("frob"), None, 0)),
        "Unknown action: frob. Use: done, start, stop, delete, priority"
    );
    assert_eq!(
        msg(plan_task_action(sample_task(), 7, Some("priority"), Some("zzz"), 0)),
        "Invalid priority: zzz"
    );
}

#[test]
fn task_action_checked() {
    let last = 8_210_266_876_799_999_999_999i128;
    assert!(plan_task_action_checked(sample_task(), 1, Some("due"), Some("week"), last).is_none());
    assert!(plan_task_action_checked(sample_task(), 1, Some("done"), None, last).is_some());
}

// ---------------------------------------------------------------------------
// Filters
// ---------------------------------------------------------------------------

#[test]
fn filter_words() {
    assert_eq!(parse_task_filter("pending"), Ok(TaskFilter::Status(TaskStatus::Todo)));
    assert_eq!(parse_task_filter("Active"), Ok(TaskFilter::Status(TaskStatus::InProgress)));
    assert_eq!(parse_task_filter("c"), Ok(TaskFilter::Status(TaskStatus::Done)));
    assert_eq!(parse_task_filter("x"), Ok(TaskFilter::Status(TaskStatus::Cancelled)));
    assert_eq!(parse_task_filter("tm"), Ok(TaskFilter::Due(DueWindow::Tomorrow)));
    assert_eq!(parse_task_filter("w"), Ok(TaskFilter::Due(DueWindow::Week)));
    assert_eq!(parse_task_filter("o"), Ok(TaskFilter::Due(DueWindow::Overdue)));
    assert_eq!(parse_task_filter("today"), Ok(TaskFilter::Due(DueWindow::Today)));
}

#[test]
fn filter_keys() {
    assert_eq!(parse_task_filter("status:done"), Ok(TaskFilter::Status(TaskStatus::Done)));
    assert_eq!(parse_task_filter("Due:Overdue"), Ok(TaskFilter::Due(DueWindow::Overdue)));
    assert_eq!(parse_task_filter("priority:HIGH"), Ok(TaskFilter::Priority(Priority::High)));
}

#[test]
fn filter_errors() {
    let msg = |s: &str| match parse_task_filter(s) {
        Err(Error::Other(m)) => m,
        x => panic!("unexpected {:?}", x),
    };
    assert_eq!(msg("bogus"), "Unknown task filter: bogus");
    assert_eq!(msg("Foo:bar"), "Unknown task filter: Foo:bar");
    assert_eq!(msg("status:nope"), "Unknown task status: nope");
    assert_eq!(msg("due:Never"), "Unknown due filter: never");
    assert_eq!(msg("priority:zzz"), "Unknown task priority: zzz");
}

#[test]
fn filter_keeps_in_order() {
    let now = 100 * DAY + 10 * 3600 * SEC;
    let mut done = Task::new_at("p", "done", 0).with_due_date(now - DAY);
    done.complete_at(1, 1);
    let tasks = vec![
        Task::new_at("p", "late", 0).with_due_date(now - DAY).with_priority(Priority::High),
        Task::new_at("p", "today", 0).with_due_date(now + 3600 * SEC),
        Task::new_at("p", "tomorrow", 0).with_due_date(now + DAY),
        Task::new_at("p", "in six days", 0).with_due_date(now + 6 * DAY).with_priority(Priority::High),
        Task::new_at("p", "in ten days", 0).with_due_date(now + 10 * DAY),
        Task::new_at("p", "undated", 0),
        done,
    ];
    let titles = |f: TaskFilter| -> Vec<String> {
        filter_tasks(&tasks, f, now).into_iter().map(|t| t.title).collect()
    };
    assert_eq!(titles(TaskFilter::Due(DueWindow::Overdue)), vec!["late"]);
    assert_eq!(titles(TaskFilter::Due(DueWindow::Today)), vec!["today"]);
    assert_eq!(titles(TaskFilter::Due(DueWindow::Tomorrow)), vec!["tomorrow"]);
    assert_eq!(
        titles(TaskFilter::Due(DueWindow::Week)),
        vec!["today", "tomorrow", "in six days"]
    );
    assert_eq!(titles(TaskFilter::Priority(Priority::High)), vec!["late", "in six days"]);
    assert_eq!(titles(TaskFilter::Status(TaskStatus::Done)), vec!["done"]);
}

// ---------------------------------------------------------------------------
// Reminders
// ---------------------------------------------------------------------------

#[test]
fn plan_reminder_plain_and_task() {
    let now = 500 * DAY;
    let r = plan_reminder("10m", "stand up", now).unwrap();
    assert_eq!(r.message, "stand up");
    assert_eq!(r.remind_at, now + 600 * SEC);
    assert_eq!(r.created_at, now);
    assert!(r.task_id.is_none());
    let t = plan_reminder("1h", "Calorii task 2 again", now).unwrap();
    assert_eq!(t.message, "calorii task 2");
    assert_eq!(t.project_id.as_deref(), Some("calorii"));
    assert_eq!(t.task_id, Some(2));
    assert_eq!(t.remind_at, now + 3_600 * SEC);
}

#[test]
fn plan_reminder_errors() {
    assert_eq!(
        plan_reminder("", "x", 0).map(|r| r.id),
        Err(Error::Other("Duration cannot be empty".to_string()))
    );
    assert!(plan_reminder_checked("9000000000000000000s", "x", 0).is_none());
    assert!(plan_reminder_checked("10m", "x", 0).is_some());
}

#[test]
fn reminders_fired_are_exactly_the_due() {
    let mut settled = Reminder::new_at("old", 0, 0);
    settled.status = pcli::reminder::ReminderStatus::Fired;
    let rs = vec![
        Reminder::new_at("a", 10, 0),
        Reminder::new_at("b", 30, 0),
        settled,
        Reminder::new_at("c", 20, 0),
    ];
    assert_eq!(reminders_to_fire(&rs, 20), vec![0, 3]);
    assert_eq!(reminders_to_fire(&rs, 5), Vec::<usize>::new());
    assert_eq!(reminders_to_fire(&rs, 40), vec![0, 1, 3]);
}

// ---------------------------------------------------------------------------
// Commands, projects, browsers, processes, notifications
// ---------------------------------------------------------------------------

#[test]
fn commands_ending_session() {
    assert!(Commands::Exit.ends_session());
    assert!(Commands::Quit.ends_session());
    assert!(!Commands::Status.ends_session());
    assert!(!Commands::Stop { port: 3000 }.ends_session());
}

#[test]
fn project_lookup() {
    assert_eq!(project_key("MyApp"), "myapp");
    let ps = vec![
        Project::new_at("Web Site", 0),
        Project::new_at("Mobile", 0),
        Project::new_at("webhooks", 0),
    ];
    assert_eq!(matching_projects("web", &ps), vec![0, 2]);
    assert_eq!(matching_projects("mob", &ps), vec![1]);
    assert_eq!(matching_projects("zzz", &ps), Vec::<usize>::new());
}

#[test]
fn browsers() {
    assert_eq!(Browser::from_flags(false, true, true), Browser::Safari);
    assert_eq!(Browser::from_flags(true, true, false), Browser::Chrome);
    assert_eq!(Browser::from_flags(false, false, false), Browser::Default);
    assert_eq!(Browser::Chrome.app_name(), "Google Chrome");
    assert_eq!(Browser::Default.app_name(), "");
    assert_eq!(Browser::Default.shown_name(), "default browser");
    assert_eq!(Browser::Firefox.shown_name(), "Firefox");
}

#[test]
fn urls_get_a_scheme() {
    assert_eq!(normalize_url("example.com"), "https://example.com");
    assert_eq!(normalize_url("http://x.org"), "http://x.org");
    assert_eq!(normalize_url("https://x.org/a"), "https://x.org/a");
}

#[test]
fn process_ids() {
    assert_eq!(pids_from_lsof("123\n456\n"), vec!["123", "456"]);
    assert_eq!(pids_from_lsof("  \n"), Vec::<String>::new());
    assert_eq!(parse_pid(" 42\n"), Some(42));
    assert_eq!(parse_pid("x"), None);
}

#[test]
fn notification_scripts() {
    assert_eq!(
        notification_script("say \"hi\""),
        "display notification \"say \\\"hi\\\"\" with title \"⏰ pcli Reminder\" sound name \"Ping\""
    );
}

// ---------------------------------------------------------------------------
// Paths, settings, board
// ---------------------------------------------------------------------------

#[test]
fn data_paths() {
    assert_eq!(db_path("/home/u/.pcli"), "/home/u/.pcli/pcli.db");
    assert_eq!(config_path("/home/u/.pcli/"), "/home/u/.pcli/config.toml");
    assert_eq!(daemon_pid_path("d"), "d/daemon.pid");
    assert_eq!(history_path("d"), "d/history.txt");
    assert_eq!(join_path("", "x"), "x");
}

#[test]
fn default_settings() {
    let c = Config::default();
    assert_eq!(c.general.default_priority, "normal");
    assert_eq!(c.general.date_format, "%Y-%m-%d");
    assert_eq!(c.general.time_format, "%H:%M");
    assert_eq!(c.timer.default_pomodoro_minutes, 25);
    assert_eq!(c.timer.break_minutes, 5);
    assert_eq!(c.timer.long_break_minutes, 15);
    assert_eq!(c.timer.pomodoros_until_long_break, 4);
    assert!(c.notifications.enabled && c.notifications.sound);
    assert_eq!(c.ui.theme, "dark");
    assert!(c.ui.show_completed_tasks);
    assert_eq!(default_priority(), "normal");
}

#[test]
fn board_quits_on_q() {
    let mut app = App::new();
    assert!(!app.should_quit);
    app.on_key('x');
    assert!(!app.should_quit);
    app.on_key('q');
    assert!(app.should_quit);
}

#[test]
fn projects_found_by_name_and_id() {
    let p = Project::new_at("Web Site", 0);
    assert_eq!(project_key(&p.id), p.id);
    let ps = vec![Project::new_at("Other", 0), p];
    assert_eq!(matching_projects(&project_key("WEB SITE"), &ps), vec![1]);
    assert_eq!(matching_projects(&project_key("web-site"), &ps), vec![1]);
}

#[test]
fn due_words_land_in_their_filters() {
    let now = 300 * DAY + 5 * 3600 * SEC;
    let tasks: Vec<Task> = ["today", "TOMORROW", "week"]
        .iter()
        .map(|d| new_task("p", d, None, None, Some(d), now).unwrap())
        .collect();
    let titles = |f: TaskFilter| -> Vec<String> {
        filter_tasks(&tasks, f, now).into_iter().map(|t| t.title).collect()
    };
    assert_eq!(titles(TaskFilter::Due(DueWindow::Today)), vec!["today"]);
    assert_eq!(titles(TaskFilter::Due(DueWindow::Tomorrow)), vec!["TOMORROW"]);
    assert_eq!(titles(TaskFilter::Due(DueWindow::Week)), vec!["today", "TOMORROW", "week"]);
}

#[test]
fn filters_ignore_case() {
    assert_eq!(parse_task_filter("STATUS:Done"), parse_task_filter("status:done"));
    assert_eq!(parse_task_filter("OverDue"), Ok(TaskFilter::Due(DueWindow::Overdue)));
    assert!(parse_task_filter("BOGUS").is_err() && parse_task_filter("bogus").is_err());
}

#[test]
fn switching_targets() {
    let ps = vec![
        Project::new_at("Web", 0),
        Project::new_at("Web Site", 0),
        Project::new_at("Mobile", 0),
    ];
    assert!(matches!(switch_target("web", &ps), SwitchOutcome::Switch(0)));
    assert!(matches!(switch_target("mob", &ps), SwitchOutcome::Switch(2)));
    assert!(matches!(switch_target("zzz", &ps), SwitchOutcome::NotFound));
    match switch_target("we", &ps) {
        SwitchOutcome::Ambiguous(v) => assert_eq!(v, vec![0, 1]),
        other => panic!("unexpected {:?}", other),
    }
}

#[test]
fn deleting_targets() {
    let ps = vec![Project::new_at("Web", 0), Project::new_at("My Project", 0)];
    assert_eq!(delete_target("WEB", &ps), Some(0));
    assert_eq!(delete_target("My Project", &ps), Some(1));
    assert_eq!(delete_target("my-project", &ps), Some(1));
    assert_eq!(delete_target("nothing", &ps), None);
}

#[test]
fn tasks_listed_by_status_then_urgency() {
    let mk = |id: i32, p: Priority| {
        let mut t = Task::new_at("p", "x", 0).with_priority(p);
        t.id = id;
        t
    };
    let mut done = mk(9, Priority::Urgent);
    done.complete_at(1, 1);
    let tasks = vec![
        mk(1, Priority::Low),
        mk(2, Priority::Urgent),
        mk(3, Priority::High),
        mk(4, Priority::Normal),
        done,
        mk(5, Priority::Urgent),
    ];
    let ids: Vec<i32> = sort_tasks(&tasks).iter().map(|t| t.id).collect();
    assert_eq!(ids, vec![9, 2, 5, 3, 4, 1]);
}
