//! Settings of the application and their defaults.

use vstd::prelude::*;

use crate::text::string_from;

verus! {

/// Application settings.
#[derive(Debug, Clone)]
pub struct Config {
    /// General settings.
    pub general: GeneralConfig,
    /// Timer settings.
    pub timer: TimerConfig,
    /// Notification settings.
    pub notifications: NotificationConfig,
    /// Display settings.
    pub ui: UiConfig,
}

/// General settings.
#[derive(Debug, Clone)]
pub struct GeneralConfig {
    /// Priority given to new tasks.
    pub default_priority: String,
    /// Format of dates.
    pub date_format: String,
    /// Format of times of day.
    pub time_format: String,
}

/// Timer settings.
#[derive(Debug, Clone)]
pub struct TimerConfig {
    /// Length of a pomodoro, in minutes.
    pub default_pomodoro_minutes: u32,
    /// Length of a break, in minutes.
    pub break_minutes: u32,
    /// Length of a long break, in minutes.
    pub long_break_minutes: u32,
    /// Pomodoros before a long break.
    pub pomodoros_until_long_break: u32,
}

/// Notification settings.
#[derive(Debug, Clone)]
pub struct NotificationConfig {
    /// Whether notifications are shown.
    pub enabled: bool,
    /// Whether notifications play a sound.
    pub sound: bool,
}

/// Display settings.
#[derive(Debug, Clone)]
pub struct UiConfig {
    /// Color theme.
    pub theme: String,
    /// Whether finished tasks are listed.
    pub show_completed_tasks: bool,
}

/// Default priority of new tasks.
pub fn default_priority() -> (r: String)
    ensures
        r@ == "normal"@,
{
    string_from("normal")
}

/// Default date format.
pub fn default_date_format() -> (r: String)
    ensures
        r@ == "%Y-%m-%d"@,
{
    string_from("%Y-%m-%d")
}

/// Default time format.
pub fn default_time_format() -> (r: String)
    ensures
        r@ == "%H:%M"@,
{
    string_from("%H:%M")
}

/// Default length of a pomodoro, in minutes.
pub fn default_pomodoro_minutes() -> (r: u32)
    ensures
        r == 25,
{
    25
}

/// Default length of a break, in minutes.
pub fn default_break_minutes() -> (r: u32)
    ensures
        r == 5,
{
    5
}

/// Default length of a long break, in minutes.
pub fn default_long_break_minutes() -> (r: u32)
    ensures
        r == 15,
{
    15
}

/// Default number of pomodoros before a long break.
pub fn default_pomodoros_until_long_break() -> (r: u32)
    ensures
        r == 4,
{
    4
}

/// Default of the switches that are on unless set.
pub fn default_true() -> (r: bool)
    ensures
        r,
{
    true
}

/// Default color theme.
pub fn default_theme() -> (r: String)
    ensures
        r@ == "dark"@,
{
    string_from("dark")
}

impl Default for GeneralConfig {
    fn default() -> (r: GeneralConfig)
        ensures
            r.default_priority@ == "normal"@,
            r.date_format@ == "%Y-%m-%d"@,
            r.time_format@ == "%H:%M"@,
    {
        GeneralConfig {
            default_priority: default_priority(),
            date_format: default_date_format(),
            time_format: default_time_format(),
        }
    }
}

impl Default for TimerConfig {
    fn default() -> (r: TimerConfig)
        ensures
            r.default_pomodoro_minutes == 25,
            r.break_minutes == 5,
            r.long_break_minutes == 15,
            r.pomodoros_until_long_break == 4,
    {
        TimerConfig {
            default_pomodoro_minutes: default_pomodoro_minutes(),
            break_minutes: default_break_minutes(),
            long_break_minutes: default_long_break_minutes(),
            pomodoros_until_long_break: default_pomodoros_until_long_break(),
        }
    }
}

impl Default for NotificationConfig {
    fn default() -> (r: NotificationConfig)
        ensures
            r.enabled,
            r.sound,
    {
        NotificationConfig { enabled: true, sound: true }
    }
}

impl Default for UiConfig {
    fn default() -> (r: UiConfig)
        ensures
            r.theme@ == "dark"@,
            r.show_completed_tasks,
    {
        UiConfig { theme: default_theme(), show_completed_tasks: true }
    }
}

impl Default for Config {
    fn default() -> (r: Config)
        ensures
            r.general.default_priority@ == "normal"@,
            r.general.date_format@ == "%Y-%m-%d"@,
            r.general.time_format@ == "%H:%M"@,
            r.timer.default_pomodoro_minutes == 25,
            r.timer.break_minutes == 5,
            r.timer.long_break_minutes == 15,
            r.timer.pomodoros_until_long_break == 4,
            r.notifications.enabled,
            r.notifications.sound,
            r.ui.theme@ == "dark"@,
            r.ui.show_completed_tasks,
    {
        Config {
            general: GeneralConfig::default(),
            timer: TimerConfig::default(),
            notifications: NotificationConfig::default(),
            ui: UiConfig::default(),
        }
    }
}

} // verus!
