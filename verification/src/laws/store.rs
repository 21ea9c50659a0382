//! What the queries of the usage tables ask for.

use vstd::prelude::*;
#[allow(unused_imports)]
use crate::store::{sql, sql_of, Statement};
#[allow(unused_imports)]
use crate::text::{has, stands_at};

verus! {

/// A row of the usage table.
pub struct Row {
    pub feature: Seq<char>,
    /// Seconds.
    pub duration: int,
    /// Seconds since the epoch.
    pub created_at: int,
}

/// The moment at which a query is asked, and the local date of every moment.
pub struct Calendar {
    pub now: int,
    pub date: spec_fn(int) -> int,
}

/// Which rows a query takes.
pub enum Condition {
    /// Those whose local date is that of today.
    Today,
    /// Those of one application whose local date is that of today.
    OfApplicationToday,
    /// Those of the last seven days.
    LastWeek,
}

/// By what a query puts rows together.
pub enum Grouping {
    /// One total for each application, the longest first.
    ByApplication,
    /// One total for each local date, the earliest first.
    ByDate,
    /// One total.
    Together,
}

/// A query for the totals of the durations of rows.
pub struct Query {
    pub grouping: Grouping,
    pub condition: Condition,
}

impl Query {
    /// How the query begins.
    pub open spec fn head(self) -> Seq<char> {
        match self.grouping {
            Grouping::ByApplication => "SELECT feature, SUM(duration) as total_duration \n         FROM usage_logs \n         WHERE "@,
            Grouping::ByDate => "SELECT date(created_at, 'unixepoch', 'localtime') as day, SUM(duration) as total_duration \n         FROM usage_logs \n         WHERE "@,
            Grouping::Together => "SELECT SUM(duration) FROM usage_logs \n                                 WHERE "@,
        }
    }

    /// How the query ends.
    pub open spec fn tail(self) -> Seq<char> {
        match self.grouping {
            Grouping::ByApplication => "\n         GROUP BY feature\n         ORDER BY total_duration DESC"@,
            Grouping::ByDate => "\n         GROUP BY day\n         ORDER BY day ASC"@,
            Grouping::Together => ""@,
        }
    }

    /// How the condition is written.
    pub open spec fn test(self) -> Seq<char> {
        match self.condition {
            Condition::Today => "date(created_at, 'unixepoch', 'localtime') = date('now', 'localtime')"@,
            Condition::OfApplicationToday => "feature = ?1 AND date(created_at, 'unixepoch', 'localtime') = date('now', 'localtime')"@,
            Condition::LastWeek => "created_at >= strftime('%s', 'now', '-7 days')"@,
        }
    }

    /// The text of the query.
    pub open spec fn text(self) -> Seq<char> {
        self.head() + self.test() + self.tail()
    }

    /// Whether the query takes a row; `application` is the one that it is asked for, if it is asked
    /// for one.
    pub open spec fn takes(self, row: Row, calendar: Calendar, application: Seq<char>) -> bool {
        match self.condition {
            Condition::Today => (calendar.date)(row.created_at) == (calendar.date)(calendar.now),
            Condition::OfApplicationToday => row.feature == application && (calendar.date)(
                row.created_at,
            ) == (calendar.date)(calendar.now),
            Condition::LastWeek => row.created_at >= calendar.now - 604800,
        }
    }

    /// Whether two rows go to the same total.
    pub open spec fn joins(self, a: Row, b: Row, calendar: Calendar) -> bool {
        match self.grouping {
            Grouping::ByApplication => a.feature == b.feature,
            Grouping::ByDate => (calendar.date)(a.created_at) == (calendar.date)(b.created_at),
            Grouping::Together => true,
        }
    }

    /// The total to which `like` goes, over the rows of the table.
    pub open spec fn total(
        self,
        rows: Seq<Row>,
        like: Row,
        calendar: Calendar,
        application: Seq<char>,
    ) -> int
        decreases rows.len(),
    {
        if rows.len() == 0 {
            0
        } else {
            self.total(rows.drop_last(), like, calendar, application) + (if self.takes(
                rows.last(),
                calendar,
                application,
            ) && self.joins(rows.last(), like, calendar) {
                rows.last().duration
            } else {
                0
            })
        }
    }
}

/// Whether `t` stands in `s` from a place on, for as many characters as `n` says.
pub open spec fn same_from(s: Seq<char>, t: Seq<char>, from: int, n: nat) -> bool
    decreases n,
{
    n == 0 || (same_from(s, t, from, (n - 1) as nat) && s[from + n - 1] == t[n - 1])
}

proof fn lemma_same_from(s: Seq<char>, t: Seq<char>, from: int, n: nat)
    requires
        same_from(s, t, from, n),
        0 <= from,
        from + n <= s.len(),
        n == t.len(),
    ensures
        s.subrange(from, from + n) == t,
{
    lemma_same_characters(s, t, from, n);
    assert(s.subrange(from, from + n) =~= t);
}

proof fn lemma_same_characters(s: Seq<char>, t: Seq<char>, from: int, n: nat)
    requires
        same_from(s, t, from, n),
    ensures
        forall|i: int| 0 <= i < n ==> s[from + i] == t[i],
    decreases n,
{
    if n > 0 {
        lemma_same_characters(s, t, from, (n - 1) as nat);
        assert forall|i: int| 0 <= i < n implies s[from + i] == t[i] by {
            if i == n - 1 {
                assert(s[from + n - 1] == t[n - 1]);
            }
        }
    }
}

/// The usage of the day is the total of each application over exactly those of its rows whose
/// local date is that of today; a row of another day changes no total.
pub proof fn law_query_of_daily_usage(
    r: &'static str,
    rows: Seq<Row>,
    row: Row,
    like: Row,
    calendar: Calendar,
    application: Seq<char>,
)
    requires
        call_ensures(sql, (Statement::DailyUsage,), r),
    ensures
        ({
            let q = Query { grouping: Grouping::ByApplication, condition: Condition::Today };
            &&& r@ == q.text()
            &&& q.total(Seq::empty(), like, calendar, application) == 0
            &&& q.total(rows.push(row), like, calendar, application) == q.total(
                rows,
                like,
                calendar,
                application,
            ) + (if row.feature == like.feature && (calendar.date)(row.created_at) == (
            calendar.date)(calendar.now) {
                row.duration
            } else {
                0
            })
        }),
        has(r@, "WHERE date(created_at, 'unixepoch', 'localtime') = date('now', 'localtime')"@),
        has(r@, "SUM(duration)"@),
        has(r@, "GROUP BY feature"@),
        has(r@, "ORDER BY total_duration DESC"@),
{
    let q = Query { grouping: Grouping::ByApplication, condition: Condition::Today };
    assert(rows.push(row).drop_last() =~= rows);
    reveal_strlit("SELECT feature, SUM(duration) as total_duration \n         FROM usage_logs \n         WHERE date(created_at, 'unixepoch', 'localtime') = date('now', 'localtime')\n         GROUP BY feature\n         ORDER BY total_duration DESC");
    reveal_strlit("SELECT feature, SUM(duration) as total_duration \n         FROM usage_logs \n         WHERE ");
    reveal_strlit("date(created_at, 'unixepoch', 'localtime') = date('now', 'localtime')");
    reveal_strlit("\n         GROUP BY feature\n         ORDER BY total_duration DESC");
    assert(same_from(r@, "SELECT feature, SUM(duration) as total_duration \n         FROM usage_logs \n         WHERE "@, 0, 30)) by {
        reveal_with_fuel(same_from, 31);
    }
    assert(same_from(r@, "SELECT feature, SUM(duration) as total_duration \n         FROM usage_logs \n         WHERE "@, 0, 60)) by {
        reveal_with_fuel(same_from, 31);
    }
    assert(same_from(r@, "SELECT feature, SUM(duration) as total_duration \n         FROM usage_logs \n         WHERE "@, 0, 90)) by {
        reveal_with_fuel(same_from, 31);
    }
    lemma_same_from(r@, "SELECT feature, SUM(duration) as total_duration \n         FROM usage_logs \n         WHERE "@, 0, 90);
    assert(same_from(r@, "date(created_at, 'unixepoch', 'localtime') = date('now', 'localtime')"@, 90, 30)) by {
        reveal_with_fuel(same_from, 31);
    }
    assert(same_from(r@, "date(created_at, 'unixepoch', 'localtime') = date('now', 'localtime')"@, 90, 60)) by {
        reveal_with_fuel(same_from, 31);
    }
    assert(same_from(r@, "date(created_at, 'unixepoch', 'localtime') = date('now', 'localtime')"@, 90, 69)) by {
        reveal_with_fuel(same_from, 10);
    }
    lemma_same_from(r@, "date(created_at, 'unixepoch', 'localtime') = date('now', 'localtime')"@, 90, 69);
    assert(same_from(r@, "\n         GROUP BY feature\n         ORDER BY total_duration DESC"@, 159, 30)) by {
        reveal_with_fuel(same_from, 31);
    }
    assert(same_from(r@, "\n         GROUP BY feature\n         ORDER BY total_duration DESC"@, 159, 60)) by {
        reveal_with_fuel(same_from, 31);
    }
    assert(same_from(r@, "\n         GROUP BY feature\n         ORDER BY total_duration DESC"@, 159, 64)) by {
        reveal_with_fuel(same_from, 5);
    }
    lemma_same_from(r@, "\n         GROUP BY feature\n         ORDER BY total_duration DESC"@, 159, 64);
    assert(r@ =~= q.text());
    reveal_strlit("WHERE date(created_at, 'unixepoch', 'localtime') = date('now', 'localtime')");
    assert(same_from(r@, "WHERE date(created_at, 'unixepoch', 'localtime') = date('now', 'localtime')"@, 84, 30)) by {
        reveal_with_fuel(same_from, 31);
    }
    assert(same_from(r@, "WHERE date(created_at, 'unixepoch', 'localtime') = date('now', 'localtime')"@, 84, 60)) by {
        reveal_with_fuel(same_from, 31);
    }
    assert(same_from(r@, "WHERE date(created_at, 'unixepoch', 'localtime') = date('now', 'localtime')"@, 84, 75)) by {
        reveal_with_fuel(same_from, 16);
    }
    lemma_same_from(r@, "WHERE date(created_at, 'unixepoch', 'localtime') = date('now', 'localtime')"@, 84, 75);
    assert(stands_at(r@, 84, "WHERE date(created_at, 'unixepoch', 'localtime') = date('now', 'localtime')"@));
    reveal_strlit("SUM(duration)");
    assert(same_from(r@, "SUM(duration)"@, 16, 13)) by {
        reveal_with_fuel(same_from, 14);
    }
    lemma_same_from(r@, "SUM(duration)"@, 16, 13);
    assert(stands_at(r@, 16, "SUM(duration)"@));
    reveal_strlit("GROUP BY feature");
    assert(same_from(r@, "GROUP BY feature"@, 169, 16)) by {
        reveal_with_fuel(same_from, 17);
    }
    lemma_same_from(r@, "GROUP BY feature"@, 169, 16);
    assert(stands_at(r@, 169, "GROUP BY feature"@));
    reveal_strlit("ORDER BY total_duration DESC");
    assert(same_from(r@, "ORDER BY total_duration DESC"@, 195, 28)) by {
        reveal_with_fuel(same_from, 29);
    }
    lemma_same_from(r@, "ORDER BY total_duration DESC"@, 195, 28);
    assert(stands_at(r@, 195, "ORDER BY total_duration DESC"@));
}

/// The trend of the week is the total of each local date over exactly those of its rows that are
/// no older than seven days; the dates come in their order.
pub proof fn law_query_of_weekly_trends(
    r: &'static str,
    rows: Seq<Row>,
    row: Row,
    like: Row,
    calendar: Calendar,
    application: Seq<char>,
)
    requires
        call_ensures(sql, (Statement::WeeklyTrends,), r),
    ensures
        ({
            let q = Query { grouping: Grouping::ByDate, condition: Condition::LastWeek };
            &&& r@ == q.text()
            &&& q.total(Seq::empty(), like, calendar, application) == 0
            &&& q.total(rows.push(row), like, calendar, application) == q.total(
                rows,
                like,
                calendar,
                application,
            ) + (if (calendar.date)(row.created_at) == (calendar.date)(like.created_at)
                && row.created_at >= calendar.now - 604800 {
                row.duration
            } else {
                0
            })
        }),
        has(r@, "WHERE created_at >= strftime('%s', 'now', '-7 days')"@),
        has(r@, "SUM(duration)"@),
        has(r@, "GROUP BY day"@),
        has(r@, "ORDER BY day ASC"@),
{
    let q = Query { grouping: Grouping::ByDate, condition: Condition::LastWeek };
    assert(rows.push(row).drop_last() =~= rows);
    reveal_strlit("SELECT date(created_at, 'unixepoch', 'localtime') as day, SUM(duration) as total_duration \n         FROM usage_logs \n         WHERE created_at >= strftime('%s', 'now', '-7 days')\n         GROUP BY day\n         ORDER BY day ASC");
    reveal_strlit("SELECT date(created_at, 'unixepoch', 'localtime') as day, SUM(duration) as total_duration \n         FROM usage_logs \n         WHERE ");
    reveal_strlit("created_at >= strftime('%s', 'now', '-7 days')");
    reveal_strlit("\n         GROUP BY day\n         ORDER BY day ASC");
    assert(same_from(r@, "SELECT date(created_at, 'unixepoch', 'localtime') as day, SUM(duration) as total_duration \n         FROM usage_logs \n         WHERE "@, 0, 30)) by {
        reveal_with_fuel(same_from, 31);
    }
    assert(same_from(r@, "SELECT date(created_at, 'unixepoch', 'localtime') as day, SUM(duration) as total_duration \n         FROM usage_logs \n         WHERE "@, 0, 60)) by {
        reveal_with_fuel(same_from, 31);
    }
    assert(same_from(r@, "SELECT date(created_at, 'unixepoch', 'localtime') as day, SUM(duration) as total_duration \n         FROM usage_logs \n         WHERE "@, 0, 90)) by {
        reveal_with_fuel(same_from, 31);
    }
    assert(same_from(r@, "SELECT date(created_at, 'unixepoch', 'localtime') as day, SUM(duration) as total_duration \n         FROM usage_logs \n         WHERE "@, 0, 120)) by {
        reveal_with_fuel(same_from, 31);
    }
    assert(same_from(r@, "SELECT date(created_at, 'unixepoch', 'localtime') as day, SUM(duration) as total_duration \n         FROM usage_logs \n         WHERE "@, 0, 132)) by {
        reveal_with_fuel(same_from, 13);
    }
    lemma_same_from(r@, "SELECT date(created_at, 'unixepoch', 'localtime') as day, SUM(duration) as total_duration \n         FROM usage_logs \n         WHERE "@, 0, 132);
    assert(same_from(r@, "created_at >= strftime('%s', 'now', '-7 days')"@, 132, 30)) by {
        reveal_with_fuel(same_from, 31);
    }
    assert(same_from(r@, "created_at >= strftime('%s', 'now', '-7 days')"@, 132, 46)) by {
        reveal_with_fuel(same_from, 17);
    }
    lemma_same_from(r@, "created_at >= strftime('%s', 'now', '-7 days')"@, 132, 46);
    assert(same_from(r@, "\n         GROUP BY day\n         ORDER BY day ASC"@, 178, 30)) by {
        reveal_with_fuel(same_from, 31);
    }
    assert(same_from(r@, "\n         GROUP BY day\n         ORDER BY day ASC"@, 178, 48)) by {
        reveal_with_fuel(same_from, 19);
    }
    lemma_same_from(r@, "\n         GROUP BY day\n         ORDER BY day ASC"@, 178, 48);
    assert(r@ =~= q.text());
    reveal_strlit("WHERE created_at >= strftime('%s', 'now', '-7 days')");
    assert(same_from(r@, "WHERE created_at >= strftime('%s', 'now', '-7 days')"@, 126, 30)) by {
        reveal_with_fuel(same_from, 31);
    }
    assert(same_from(r@, "WHERE created_at >= strftime('%s', 'now', '-7 days')"@, 126, 52)) by {
        reveal_with_fuel(same_from, 23);
    }
    lemma_same_from(r@, "WHERE created_at >= strftime('%s', 'now', '-7 days')"@, 126, 52);
    assert(stands_at(r@, 126, "WHERE created_at >= strftime('%s', 'now', '-7 days')"@));
    reveal_strlit("SUM(duration)");
    assert(same_from(r@, "SUM(duration)"@, 58, 13)) by {
        reveal_with_fuel(same_from, 14);
    }
    lemma_same_from(r@, "SUM(duration)"@, 58, 13);
    assert(stands_at(r@, 58, "SUM(duration)"@));
    reveal_strlit("GROUP BY day");
    assert(same_from(r@, "GROUP BY day"@, 188, 12)) by {
        reveal_with_fuel(same_from, 13);
    }
    lemma_same_from(r@, "GROUP BY day"@, 188, 12);
    assert(stands_at(r@, 188, "GROUP BY day"@));
    reveal_strlit("ORDER BY day ASC");
    assert(same_from(r@, "ORDER BY day ASC"@, 210, 16)) by {
        reveal_with_fuel(same_from, 17);
    }
    lemma_same_from(r@, "ORDER BY day ASC"@, 210, 16);
    assert(stands_at(r@, 210, "ORDER BY day ASC"@));
}

/// The use of an application today is the total over exactly those of its rows whose local date is
/// that of today; a row of another application or of another day changes nothing.
pub proof fn law_query_of_used_today(
    r: &'static str,
    rows: Seq<Row>,
    row: Row,
    like: Row,
    calendar: Calendar,
    application: Seq<char>,
)
    requires
        call_ensures(sql, (Statement::UsedToday,), r),
    ensures
        ({
            let q = Query { grouping: Grouping::Together, condition: Condition::OfApplicationToday };
            &&& r@ == q.text()
            &&& q.total(Seq::empty(), like, calendar, application) == 0
            &&& q.total(rows.push(row), like, calendar, application) == q.total(
                rows,
                like,
                calendar,
                application,
            ) + (if row.feature == application && (calendar.date)(row.created_at) == (
            calendar.date)(calendar.now) {
                row.duration
            } else {
                0
            })
        }),
        has(r@, "WHERE feature = ?1 AND date(created_at, 'unixepoch', 'localtime') = date('now', 'localtime')"@),
        has(r@, "SUM(duration)"@),
{
    let q = Query { grouping: Grouping::Together, condition: Condition::OfApplicationToday };
    assert(rows.push(row).drop_last() =~= rows);
    reveal_strlit("SELECT SUM(duration) FROM usage_logs \n                                 WHERE feature = ?1 AND date(created_at, 'unixepoch', 'localtime') = date('now', 'localtime')");
    reveal_strlit("");
    reveal_strlit("SELECT SUM(duration) FROM usage_logs \n                                 WHERE ");
    reveal_strlit("feature = ?1 AND date(created_at, 'unixepoch', 'localtime') = date('now', 'localtime')");
    assert(same_from(r@, "SELECT SUM(duration) FROM usage_logs \n                                 WHERE "@, 0, 30)) by {
        reveal_with_fuel(same_from, 31);
    }
    assert(same_from(r@, "SELECT SUM(duration) FROM usage_logs \n                                 WHERE "@, 0, 60)) by {
        reveal_with_fuel(same_from, 31);
    }
    assert(same_from(r@, "SELECT SUM(duration) FROM usage_logs \n                                 WHERE "@, 0, 77)) by {
        reveal_with_fuel(same_from, 18);
    }
    lemma_same_from(r@, "SELECT SUM(duration) FROM usage_logs \n                                 WHERE "@, 0, 77);
    assert(same_from(r@, "feature = ?1 AND date(created_at, 'unixepoch', 'localtime') = date('now', 'localtime')"@, 77, 30)) by {
        reveal_with_fuel(same_from, 31);
    }
    assert(same_from(r@, "feature = ?1 AND date(created_at, 'unixepoch', 'localtime') = date('now', 'localtime')"@, 77, 60)) by {
        reveal_with_fuel(same_from, 31);
    }
    assert(same_from(r@, "feature = ?1 AND date(created_at, 'unixepoch', 'localtime') = date('now', 'localtime')"@, 77, 86)) by {
        reveal_with_fuel(same_from, 27);
    }
    lemma_same_from(r@, "feature = ?1 AND date(created_at, 'unixepoch', 'localtime') = date('now', 'localtime')"@, 77, 86);
    assert(r@ =~= q.text());
    reveal_strlit("WHERE feature = ?1 AND date(created_at, 'unixepoch', 'localtime') = date('now', 'localtime')");
    assert(same_from(r@, "WHERE feature = ?1 AND date(created_at, 'unixepoch', 'localtime') = date('now', 'localtime')"@, 71, 30)) by {
        reveal_with_fuel(same_from, 31);
    }
    assert(same_from(r@, "WHERE feature = ?1 AND date(created_at, 'unixepoch', 'localtime') = date('now', 'localtime')"@, 71, 60)) by {
        reveal_with_fuel(same_from, 31);
    }
    assert(same_from(r@, "WHERE feature = ?1 AND date(created_at, 'unixepoch', 'localtime') = date('now', 'localtime')"@, 71, 90)) by {
        reveal_with_fuel(same_from, 31);
    }
    assert(same_from(r@, "WHERE feature = ?1 AND date(created_at, 'unixepoch', 'localtime') = date('now', 'localtime')"@, 71, 92)) by {
        reveal_with_fuel(same_from, 3);
    }
    lemma_same_from(r@, "WHERE feature = ?1 AND date(created_at, 'unixepoch', 'localtime') = date('now', 'localtime')"@, 71, 92);
    assert(stands_at(r@, 71, "WHERE feature = ?1 AND date(created_at, 'unixepoch', 'localtime') = date('now', 'localtime')"@));
    reveal_strlit("SUM(duration)");
    assert(same_from(r@, "SUM(duration)"@, 7, 13)) by {
        reveal_with_fuel(same_from, 14);
    }
    lemma_same_from(r@, "SUM(duration)"@, 7, 13);
    assert(stands_at(r@, 7, "SUM(duration)"@));
}

/// What is stored is stored whole: the user, the application, the seconds and the time of a
/// stretch of use, and the user, the application and the seconds of a limit, in place of an earlier
/// one for the same two.
pub proof fn law_writing_statements(r: (&'static str, &'static str, &'static str, &'static str, &'static str, &'static str))
    requires
        call_ensures(sql, (Statement::CreateLogs,), r.0),
        call_ensures(sql, (Statement::CreateLimits,), r.1),
        call_ensures(sql, (Statement::WriteAheadLog,), r.2),
        call_ensures(sql, (Statement::SaveUsage,), r.3),
        call_ensures(sql, (Statement::SaveLimit,), r.4),
        call_ensures(sql, (Statement::DeleteLimit,), r.5),
    ensures
        r.0@ == "CREATE TABLE IF NOT EXISTS usage_logs (\n                    id INTEGER PRIMARY KEY AUTOINCREMENT,\n                    user_id TEXT NOT NULL,\n                    feature TEXT NOT NULL,\n                    duration INTEGER NOT NULL,\n                    created_at INTEGER NOT NULL\n                )"@,
        r.1@ == "CREATE TABLE IF NOT EXISTS usage_limits (\n                    id INTEGER PRIMARY KEY AUTOINCREMENT,\n                    user_id TEXT NOT NULL,\n                    feature TEXT NOT NULL,\n                    daily_limit INTEGER NOT NULL,\n                    UNIQUE(user_id, feature)\n                )"@,
        r.2@ == "PRAGMA journal_mode=WAL"@,
        r.3@ == "INSERT INTO usage_logs (user_id, feature, duration, created_at) VALUES (?1, ?2, ?3, ?4)"@,
        r.4@ == "INSERT OR REPLACE INTO usage_limits (user_id, feature, daily_limit) VALUES (?1, ?2, ?3)"@,
        r.5@ == "DELETE FROM usage_limits WHERE feature = ?1"@,
{
}

/// The log is the latest hundred rows, the newest first; the limits are all of them, and the limit
/// of an application is its own.
pub proof fn law_reading_statements(r: (&'static str, &'static str, &'static str))
    requires
        call_ensures(sql, (Statement::UsageLogs,), r.0),
        call_ensures(sql, (Statement::UsageLimits,), r.1),
        call_ensures(sql, (Statement::LimitOf,), r.2),
    ensures
        r.0@ == "SELECT id, user_id, feature, duration, created_at FROM usage_logs ORDER BY created_at DESC LIMIT 100"@,
        r.1@ == "SELECT feature, daily_limit FROM usage_limits"@,
        r.2@ == "SELECT daily_limit FROM usage_limits WHERE feature = ?1"@,
{
}

} // verus!
