//! The statements with which usage and limits are kept in a SQLite database.

use vstd::prelude::*;

verus! {

/// A statement of the database.
#[derive(Clone, Copy, PartialEq, Eq, Debug)]
pub enum Statement {
    /// The table of usage.
    CreateLogs,
    /// The table of daily limits, one for each user and application.
    CreateLimits,
    /// Lets readers go on while something is written.
    WriteAheadLog,
    /// Stores a stretch of use: the user, the application, the seconds and the time.
    SaveUsage,
    /// The use of each application today, the longest first.
    DailyUsage,
    /// The latest hundred stretches of use.
    UsageLogs,
    /// The use on each of the last seven days, the earliest first.
    WeeklyTrends,
    /// The daily limits.
    UsageLimits,
    /// Stores a daily limit, in place of an earlier one: the user, the application and the seconds.
    SaveLimit,
    /// Removes the daily limit of an application.
    DeleteLimit,
    /// The use of one application today.
    UsedToday,
    /// The daily limit of one application.
    LimitOf,
}

/// The text of a statement.
pub open spec fn sql_of(s: Statement) -> Seq<char> {
    match s {
        Statement::CreateLogs => "CREATE TABLE IF NOT EXISTS usage_logs (\n                    id INTEGER PRIMARY KEY AUTOINCREMENT,\n                    user_id TEXT NOT NULL,\n                    feature TEXT NOT NULL,\n                    duration INTEGER NOT NULL,\n                    created_at INTEGER NOT NULL\n                )"@,
        Statement::CreateLimits => "CREATE TABLE IF NOT EXISTS usage_limits (\n                    id INTEGER PRIMARY KEY AUTOINCREMENT,\n                    user_id TEXT NOT NULL,\n                    feature TEXT NOT NULL,\n                    daily_limit INTEGER NOT NULL,\n                    UNIQUE(user_id, feature)\n                )"@,
        Statement::WriteAheadLog => "PRAGMA journal_mode=WAL"@,
        Statement::SaveUsage => "INSERT INTO usage_logs (user_id, feature, duration, created_at) VALUES (?1, ?2, ?3, ?4)"@,
        Statement::DailyUsage => "SELECT feature, SUM(duration) as total_duration \n         FROM usage_logs \n         WHERE date(created_at, 'unixepoch', 'localtime') = date('now', 'localtime')\n         GROUP BY feature\n         ORDER BY total_duration DESC"@,
        Statement::UsageLogs => "SELECT id, user_id, feature, duration, created_at FROM usage_logs ORDER BY created_at DESC LIMIT 100"@,
        Statement::WeeklyTrends => "SELECT date(created_at, 'unixepoch', 'localtime') as day, SUM(duration) as total_duration \n         FROM usage_logs \n         WHERE created_at >= strftime('%s', 'now', '-7 days')\n         GROUP BY day\n         ORDER BY day ASC"@,
        Statement::UsageLimits => "SELECT feature, daily_limit FROM usage_limits"@,
        Statement::SaveLimit => "INSERT OR REPLACE INTO usage_limits (user_id, feature, daily_limit) VALUES (?1, ?2, ?3)"@,
        Statement::DeleteLimit => "DELETE FROM usage_limits WHERE feature = ?1"@,
        Statement::UsedToday => "SELECT SUM(duration) FROM usage_logs \n                                 WHERE feature = ?1 AND date(created_at, 'unixepoch', 'localtime') = date('now', 'localtime')"@,
        Statement::LimitOf => "SELECT daily_limit FROM usage_limits WHERE feature = ?1"@,
    }
}

/// The text of a statement.
pub fn sql(s: Statement) -> (r: &'static str)
    ensures
        r@ == sql_of(s),
{
    match s {
        Statement::CreateLogs => "CREATE TABLE IF NOT EXISTS usage_logs (\n                    id INTEGER PRIMARY KEY AUTOINCREMENT,\n                    user_id TEXT NOT NULL,\n                    feature TEXT NOT NULL,\n                    duration INTEGER NOT NULL,\n                    created_at INTEGER NOT NULL\n                )",
        Statement::CreateLimits => "CREATE TABLE IF NOT EXISTS usage_limits (\n                    id INTEGER PRIMARY KEY AUTOINCREMENT,\n                    user_id TEXT NOT NULL,\n                    feature TEXT NOT NULL,\n                    daily_limit INTEGER NOT NULL,\n                    UNIQUE(user_id, feature)\n                )",
        Statement::WriteAheadLog => "PRAGMA journal_mode=WAL",
        Statement::SaveUsage => "INSERT INTO usage_logs (user_id, feature, duration, created_at) VALUES (?1, ?2, ?3, ?4)",
        Statement::DailyUsage => "SELECT feature, SUM(duration) as total_duration \n         FROM usage_logs \n         WHERE date(created_at, 'unixepoch', 'localtime') = date('now', 'localtime')\n         GROUP BY feature\n         ORDER BY total_duration DESC",
        Statement::UsageLogs => "SELECT id, user_id, feature, duration, created_at FROM usage_logs ORDER BY created_at DESC LIMIT 100",
        Statement::WeeklyTrends => "SELECT date(created_at, 'unixepoch', 'localtime') as day, SUM(duration) as total_duration \n         FROM usage_logs \n         WHERE created_at >= strftime('%s', 'now', '-7 days')\n         GROUP BY day\n         ORDER BY day ASC",
        Statement::UsageLimits => "SELECT feature, daily_limit FROM usage_limits",
        Statement::SaveLimit => "INSERT OR REPLACE INTO usage_limits (user_id, feature, daily_limit) VALUES (?1, ?2, ?3)",
        Statement::DeleteLimit => "DELETE FROM usage_limits WHERE feature = ?1",
        Statement::UsedToday => "SELECT SUM(duration) FROM usage_logs \n                                 WHERE feature = ?1 AND date(created_at, 'unixepoch', 'localtime') = date('now', 'localtime')",
        Statement::LimitOf => "SELECT daily_limit FROM usage_limits WHERE feature = ?1",
    }
}

} // verus!
