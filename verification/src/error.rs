//! Error type of the library.

use vstd::prelude::*;

verus! {

/// The errors that the library's operations report.  Errors that come from
/// the database or the file system carry the text of the underlying error.
#[derive(Debug, Clone, PartialEq, Eq)]
pub enum Error {
    Database(String),
    Io(String),
    Config(String),
    ProjectNotFound(String),
    TaskNotFound(i32),
    ReminderNotFound(i32),
    NoActiveProject,
    ProjectAlreadyExists(String),
    InvalidStatus(String),
    InvalidPriority(String),
    InvalidDuration(String),
    InvalidDate(String),
    Serialization(String),
    Other(String),
}

/// The user-facing message of an error.
pub open spec fn error_message(e: Error) -> Seq<char> {
    match e {
        Error::Database(m) => "Database error: "@ + m@,
        Error::Io(m) => "IO error: "@ + m@,
        Error::Config(m) => "Configuration error: "@ + m@,
        Error::ProjectNotFound(m) => "Project not found: "@ + m@,
        Error::TaskNotFound(id) => "Task not found: "@ + crate::text::decimal(id as int),
        Error::ReminderNotFound(id) => "Reminder not found: "@ + crate::text::decimal(id as int),
        Error::NoActiveProject =>
            "No active project. Use 'pcli <project-name>' to switch or 'pcli new <name>' to create one."@,
        Error::ProjectAlreadyExists(m) => "Project already exists: "@ + m@,
        Error::InvalidStatus(m) => "Invalid status: "@ + m@,
        Error::InvalidPriority(m) => "Invalid priority: "@ + m@,
        Error::InvalidDuration(m) => "Invalid duration format: "@ + m@,
        Error::InvalidDate(m) => "Invalid date format: "@ + m@,
        Error::Serialization(m) => "Serialization error: "@ + m@,
        Error::Other(m) => m@,
    }
}

/// `prefix` followed by `tail`.
pub fn join2(prefix: &str, tail: &str) -> (r: String)
    ensures
        r@ == prefix@ + tail@,
{
    let mut r = crate::text::string_from(prefix);
    r.append(tail);
    r
}

impl Error {
    /// The user-facing message of this error.
    pub fn message(&self) -> (r: String)
        ensures
            r@ == error_message(*self),
    {
        match self {
            Error::Database(m) => join2("Database error: ", m.as_str()),
            Error::Io(m) => join2("IO error: ", m.as_str()),
            Error::Config(m) => join2("Configuration error: ", m.as_str()),
            Error::ProjectNotFound(m) => join2("Project not found: ", m.as_str()),
            Error::TaskNotFound(id) => {
                let n = crate::text::decimal_string(*id as i64);
                join2("Task not found: ", n.as_str())
            },
            Error::ReminderNotFound(id) => {
                let n = crate::text::decimal_string(*id as i64);
                join2("Reminder not found: ", n.as_str())
            },
            Error::NoActiveProject => crate::text::string_from(
                "No active project. Use 'pcli <project-name>' to switch or 'pcli new <name>' to create one.",
            ),
            Error::ProjectAlreadyExists(m) => join2("Project already exists: ", m.as_str()),
            Error::InvalidStatus(m) => join2("Invalid status: ", m.as_str()),
            Error::InvalidPriority(m) => join2("Invalid priority: ", m.as_str()),
            Error::InvalidDuration(m) => join2("Invalid duration format: ", m.as_str()),
            Error::InvalidDate(m) => join2("Invalid date format: ", m.as_str()),
            Error::Serialization(m) => join2("Serialization error: ", m.as_str()),
            Error::Other(m) => m.clone(),
        }
    }
}

} // verus!
