use vstd::prelude::*;

use crate::text::views;

verus! {

/// How urgent a desktop notification is.
#[derive(Debug, Clone, Copy, PartialEq, Eq, Structural)]
pub enum NotificationLevel {
    Error,
    Warning,
    Info,
}

/// The urgency that `notify-send` is given for a level.
pub open spec fn urgency_text(level: NotificationLevel) -> Seq<char> {
    match level {
        NotificationLevel::Error => "critical"@,
        NotificationLevel::Warning => "normal"@,
        NotificationLevel::Info => "low"@,
    }
}

impl NotificationLevel {
    /// The urgency that `notify-send` is given for this level.
    pub fn urgency(&self) -> (r: &'static str)
        ensures
            r@ == urgency_text(*self),
    {
        match self {
            NotificationLevel::Error => "critical",
            NotificationLevel::Warning => "normal",
            NotificationLevel::Info => "low",
        }
    }
}

/// A desktop notification to be shown.
pub struct Notification {
    pub level: NotificationLevel,
    pub title: String,
    pub message: String,
}

/// The arguments that `notify-send` is run with for a notification.
pub open spec fn notify_args_of(level: NotificationLevel, title: Seq<char>, message: Seq<char>) -> Seq<
    Seq<char>,
> {
    seq!["--urgency"@, urgency_text(level), "--app-name"@, "Todo Manager"@, title, message]
}

impl Notification {
    /// The arguments that `notify-send` is run with to show this notification.
    pub fn command_args(&self) -> (r: Vec<String>)
        ensures
            views(r@) == notify_args_of(self.level, self.title@, self.message@),
    {
        let mut r: Vec<String> = Vec::new();
        r.push("--urgency".to_owned());
        r.push(self.level.urgency().to_owned());
        r.push("--app-name".to_owned());
        r.push("Todo Manager".to_owned());
        r.push(self.title.clone());
        r.push(self.message.clone());
        proof {
            assert(views(r@) =~= notify_args_of(self.level, self.title@, self.message@));
        }
        r
    }
}

/// The notification of the given level, title and message.
pub fn notification(level: NotificationLevel, title: &str, message: &str) -> (r: Notification)
    ensures
        r.level == level,
        r.title@ == title@,
        r.message@ == message@,
{
    Notification { level, title: title.to_owned(), message: message.to_owned() }
}

/// An error notification.
pub fn error(title: &str, message: &str) -> (r: Notification)
    ensures
        r.level == NotificationLevel::Error,
        r.title@ == title@,
        r.message@ == message@,
{
    notification(NotificationLevel::Error, title, message)
}

/// A warning notification.
pub fn warning(title: &str, message: &str) -> (r: Notification)
    ensures
        r.level == NotificationLevel::Warning,
        r.title@ == title@,
        r.message@ == message@,
{
    notification(NotificationLevel::Warning, title, message)
}

/// An informational notification.
pub fn info(title: &str, message: &str) -> (r: Notification)
    ensures
        r.level == NotificationLevel::Info,
        r.title@ == title@,
        r.message@ == message@,
{
    notification(NotificationLevel::Info, title, message)
}

} // verus!
