//! What the server's log is told.
use vstd::prelude::*;

verus! {

/// How grave a log line is.
#[derive(Clone, Copy, Debug, PartialEq, Eq, Structural)]
pub enum Level {
    Debug,
    Info,
    Error,
}

/// A line for the log, with what it reports beside its message.
#[derive(Debug)]
pub enum LogEvent {
    /// The server is about to be made.
    SettingUpServer,
    /// The server listens on this address.
    SetUpServer { local_address: String },
    /// The counter was bumped, in so many rows.
    BumpedCounter { nrows_updated: usize },
    /// A request to sleep went away before it was through.
    SleepCancelled,
    /// The pool could not use a connection, and why.
    ConnectionError { error_message: String },
}

impl LogEvent {
    /// The level that the line is logged at.
    pub open spec fn logged_at(self) -> Level {
        match self {
            LogEvent::SettingUpServer => Level::Info,
            LogEvent::SetUpServer { .. } => Level::Info,
            LogEvent::BumpedCounter { .. } => Level::Info,
            LogEvent::SleepCancelled => Level::Error,
            LogEvent::ConnectionError { .. } => Level::Error,
        }
    }

    /// The message of the line.
    pub open spec fn text(self) -> Seq<char> {
        match self {
            LogEvent::SettingUpServer => "setting up dropshot server"@,
            LogEvent::SetUpServer { .. } => "set up dropshot server"@,
            LogEvent::BumpedCounter { .. } => "bumped counter"@,
            LogEvent::SleepCancelled => "api_sleep() cancelled"@,
            LogEvent::ConnectionError { .. } => "database connection error"@,
        }
    }

    /// The key that what it reports goes under, where it reports something.
    pub open spec fn reported_under(self) -> Option<Seq<char>> {
        match self {
            LogEvent::SettingUpServer => None,
            LogEvent::SetUpServer { .. } => Some("local_address"@),
            LogEvent::BumpedCounter { .. } => Some("nrows_updated"@),
            LogEvent::SleepCancelled => None,
            LogEvent::ConnectionError { .. } => Some("error_message"@),
        }
    }

    /// The level that the line is logged at.
    pub fn level(&self) -> (level: Level)
        ensures
            level == self.logged_at(),
            level == Level::Error <==> self is SleepCancelled || self is ConnectionError,
            level == Level::Info <==> !(self is SleepCancelled || self is ConnectionError),
    {
        match self {
            LogEvent::SettingUpServer => Level::Info,
            LogEvent::SetUpServer { .. } => Level::Info,
            LogEvent::BumpedCounter { .. } => Level::Info,
            LogEvent::SleepCancelled => Level::Error,
            LogEvent::ConnectionError { .. } => Level::Error,
        }
    }

    /// The message of the line.
    pub fn message(&self) -> (message: &'static str)
        ensures
            message@ == self.text(),
    {
        match self {
            LogEvent::SettingUpServer => "setting up dropshot server",
            LogEvent::SetUpServer { .. } => "set up dropshot server",
            LogEvent::BumpedCounter { .. } => "bumped counter",
            LogEvent::SleepCancelled => "api_sleep() cancelled",
            LogEvent::ConnectionError { .. } => "database connection error",
        }
    }

    /// The key that what it reports goes under, where it reports something.
    pub fn key(&self) -> (key: Option<&'static str>)
        ensures
            match key {
                Some(k) => self.reported_under() == Some(k@),
                None => self.reported_under() is None,
            },
    {
        match self {
            LogEvent::SettingUpServer => None,
            LogEvent::SetUpServer { .. } => Some("local_address"),
            LogEvent::BumpedCounter { .. } => Some("nrows_updated"),
            LogEvent::SleepCancelled => None,
            LogEvent::ConnectionError { .. } => Some("error_message"),
        }
    }
}

/// What is logged of an event goes by its kind alone, whatever it reports: a cancelled
/// sleep and a connection error are errors, the rest is for information.
pub proof fn law_log_line_goes_by_its_kind(event: LogEvent)
    ensures
        event is SettingUpServer ==> event.logged_at() == Level::Info && event.text()
            == "setting up dropshot server"@ && event.reported_under() is None,
        event is SetUpServer ==> event.logged_at() == Level::Info && event.text()
            == "set up dropshot server"@ && event.reported_under() == Some("local_address"@),
        event is BumpedCounter ==> event.logged_at() == Level::Info && event.text()
            == "bumped counter"@ && event.reported_under() == Some("nrows_updated"@),
        event is SleepCancelled ==> event.logged_at() == Level::Error && event.text()
            == "api_sleep() cancelled"@ && event.reported_under() is None,
        event is ConnectionError ==> event.logged_at() == Level::Error && event.text()
            == "database connection error"@ && event.reported_under() == Some("error_message"@),
{
}

} // verus!
