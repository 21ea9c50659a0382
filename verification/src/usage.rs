//! How long each application is used: the watch over the foreground application, the daily
//! limits, and the rows of the usage tables.

use crate::text::same_text;
use vstd::prelude::*;

verus! {

/// A stretch of time that is to be recorded.
#[derive(Debug, PartialEq)]
pub struct UsageRecord {
    pub user_id: String,
    pub feature: String,
    /// Seconds.
    pub duration: u64,
}

/// The contents of a [`UsageRecord`].
pub struct RecordView {
    pub user_id: Seq<char>,
    pub feature: Seq<char>,
    pub duration: nat,
}

impl View for UsageRecord {
    type V = RecordView;

    open spec fn view(&self) -> RecordView {
        RecordView {
            user_id: self.user_id@,
            feature: self.feature@,
            duration: self.duration as nat,
        }
    }
}

/// What is to be done after a tick of the watch, in this order.
#[derive(Debug, PartialEq)]
pub struct Tick {
    /// The application whose daily limit is to be checked.
    pub check: Option<String>,
    /// What is to be recorded.
    pub record: Option<UsageRecord>,
    /// Whether the time is to be counted from now on.
    pub restart: bool,
}

/// The contents of a [`Tick`].
pub struct TickView {
    pub check: Option<Seq<char>>,
    pub record: Option<RecordView>,
    pub restart: bool,
}

impl View for Tick {
    type V = TickView;

    open spec fn view(&self) -> TickView {
        TickView {
            check: match self.check {
                Some(s) => Some(s@),
                None => None,
            },
            record: match self.record {
                Some(r) => Some(r@),
                None => None,
            },
            restart: self.restart,
        }
    }
}

/// The watch over the foreground application.
pub struct UsageTracker {
    current_app: String,
    check_counter: u32,
}

/// The state of a [`UsageTracker`].
pub struct TrackerView {
    /// The application whose time is counted.
    pub current_app: Seq<char>,
    /// The ticks since a limit was checked last.
    pub ticks: nat,
}

impl View for UsageTracker {
    type V = TrackerView;

    closed spec fn view(&self) -> TrackerView {
        TrackerView { current_app: self.current_app@, ticks: self.check_counter as nat }
    }
}

impl TrackerView {
    /// A limit is checked at every fifth tick.
    pub open spec fn wf(self) -> bool {
        self.ticks < 5
    }

    /// Whether the next tick checks a limit.
    pub open spec fn checks(self) -> bool {
        self.ticks + 1 >= 5
    }

    /// Whether a tick ends the stretch of time: another application is in front, or a minute is
    /// over.
    pub open spec fn ends(self, now_app: Seq<char>, elapsed: nat) -> bool {
        now_app != self.current_app || elapsed >= 60
    }

    /// The state after a tick.
    pub open spec fn next(self, now_app: Seq<char>, elapsed: nat) -> TrackerView {
        TrackerView {
            current_app: if self.ends(now_app, elapsed) {
                now_app
            } else {
                self.current_app
            },
            ticks: if self.checks() {
                0
            } else {
                self.ticks + 1
            },
        }
    }

    /// What is to be done after a tick.
    pub open spec fn actions(self, now_app: Seq<char>, elapsed: nat) -> TickView {
        TickView {
            check: if self.checks() {
                Some(self.current_app)
            } else {
                None
            },
            record: if self.ends(now_app, elapsed) && elapsed > 0 {
                Some(
                    RecordView {
                        user_id: "system_user"@,
                        feature: self.current_app,
                        duration: elapsed,
                    },
                )
            } else {
                None
            },
            restart: self.ends(now_app, elapsed),
        }
    }
}

impl UsageTracker {
    #[verifier::type_invariant]
    closed spec fn inv(self) -> bool {
        self@.wf()
    }

    /// Begins to watch, with the given application in front.
    pub fn new(current_app: String) -> (r: UsageTracker)
        ensures
            r@ == (TrackerView { current_app: current_app@, ticks: 0 }),
    {
        UsageTracker { current_app, check_counter: 0 }
    }

    /// A tick of the watch: the application that is in front now, and the whole seconds since the
    /// time was last counted from the start.
    pub fn tick(&mut self, now_app: String, elapsed: u64) -> (r: Tick)
        ensures
            old(self)@.wf(),
            final(self)@ == old(self)@.next(now_app@, elapsed as nat),
            r@ == old(self)@.actions(now_app@, elapsed as nat),
    {
        proof {
            use_type_invariant(&*self);
        }
        let checks: bool = self.check_counter + 1 >= 5;
        let check: Option<String> = if checks {
            Some(self.current_app.clone())
        } else {
            None
        };
        let next: u32 = if checks {
            0
        } else {
            self.check_counter + 1
        };
        self.check_counter = next;
        let restart: bool = !same_text(now_app.as_str(), self.current_app.as_str()) || elapsed
            >= 60;
        let mut record: Option<UsageRecord> = None;
        if restart {
            if elapsed > 0 {
                record = Some(
                    UsageRecord {
                        user_id: "system_user".to_string(),
                        feature: self.current_app.clone(),
                        duration: elapsed,
                    },
                );
            }
            self.current_app = now_app;
        }
        Tick { check, record, restart }
    }
}

/// What a watch meets between two ticks: the seconds that pass, and the application that is in
/// front at their end.
pub struct Step {
    pub seconds: nat,
    pub app: Seq<char>,
}

/// A watch together with the seconds that it has counted for the application in front.
pub struct Clock {
    pub tracker: TrackerView,
    pub elapsed: nat,
}

impl Clock {
    /// The clock after a step.
    pub open spec fn after(self, step: Step) -> Clock {
        let elapsed = self.elapsed + step.seconds;
        Clock {
            tracker: self.tracker.next(step.app, elapsed),
            elapsed: if self.tracker.actions(step.app, elapsed).restart {
                0
            } else {
                elapsed
            },
        }
    }

    /// The clock after several steps.
    pub open spec fn after_all(self, steps: Seq<Step>) -> Clock
        decreases steps.len(),
    {
        if steps.len() == 0 {
            self
        } else {
            self.after_all(steps.drop_last()).after(steps.last())
        }
    }

    /// What the last of several steps has done.
    pub open spec fn last_actions(self, steps: Seq<Step>) -> TickView {
        let before = self.after_all(steps.drop_last());
        before.tracker.actions(steps.last().app, before.elapsed + steps.last().seconds)
    }

    /// The seconds that several steps record.
    pub open spec fn recorded(self, steps: Seq<Step>) -> nat
        decreases steps.len(),
    {
        if steps.len() == 0 {
            0
        } else {
            self.recorded(steps.drop_last()) + (match self.last_actions(steps).record {
                Some(r) => r.duration,
                None => 0,
            })
        }
    }

    /// The number of limit checks in several steps.
    pub open spec fn checked(self, steps: Seq<Step>) -> nat
        decreases steps.len(),
    {
        if steps.len() == 0 {
            0
        } else {
            self.checked(steps.drop_last()) + (if self.last_actions(steps).check is Some {
                1nat
            } else {
                0
            })
        }
    }
}

/// The seconds that several steps take.
pub open spec fn seconds_in(steps: Seq<Step>) -> nat
    decreases steps.len(),
{
    if steps.len() == 0 {
        0
    } else {
        seconds_in(steps.drop_last()) + steps.last().seconds
    }
}

/// No second is lost or counted twice: what has been recorded and what is still being counted is
/// the time that has passed.
pub proof fn law_no_second_is_lost(clock: Clock, steps: Seq<Step>)
    ensures
        clock.recorded(steps) + clock.after_all(steps).elapsed == clock.elapsed + seconds_in(
            steps,
        ),
    decreases steps.len(),
{
    if steps.len() > 0 {
        law_no_second_is_lost(clock, steps.drop_last());
    }
}

/// A limit is checked at every fifth tick, and at no other.
pub proof fn law_every_fifth_tick_checks(clock: Clock, steps: Seq<Step>)
    requires
        clock.tracker.wf(),
    ensures
        clock.checked(steps) == (clock.tracker.ticks + steps.len()) / 5,
        clock.after_all(steps).tracker.ticks == (clock.tracker.ticks + steps.len()) % 5,
    decreases steps.len(),
{
    if steps.len() > 0 {
        law_every_fifth_tick_checks(clock, steps.drop_last());
    }
}

/// Whatever happens, the watch stays within five ticks, and an application is counted for less
/// than a minute between two ticks.
pub proof fn law_watch_stays_in_bounds(clock: Clock, steps: Seq<Step>)
    requires
        clock.tracker.wf(),
        clock.elapsed < 60,
    ensures
        clock.after_all(steps).tracker.wf(),
        clock.after_all(steps).elapsed < 60,
    decreases steps.len(),
{
    if steps.len() > 0 {
        law_watch_stays_in_bounds(clock, steps.drop_last());
    }
}

/// A record is never empty, and it is made for the application that was in front until then; the
/// one in front now is counted from the start.
pub proof fn law_record_is_for_the_application_before(t: TrackerView, now_app: Seq<char>, elapsed: nat)
    ensures
        t.actions(now_app, elapsed).record matches Some(r) ==> r.duration == elapsed && elapsed > 0
            && r.feature == t.current_app && t.actions(now_app, elapsed).restart,
        t.actions(now_app, elapsed).restart ==> t.next(now_app, elapsed).current_app == now_app,
        !t.actions(now_app, elapsed).restart ==> t.current_app == now_app && t.next(
            now_app,
            elapsed,
        ).current_app == t.current_app,
{
}

/// The seconds for which an application may be used on one day.
#[derive(Debug, PartialEq)]
pub struct AppLimit {
    pub feature: String,
    pub daily_limit: u64,
}

/// The seconds for which an application was used today: those recorded before, where they are
/// known, and those that are being counted.
pub open spec fn used_today(past_today: Option<u64>, elapsed: u64) -> int {
    elapsed + (match past_today {
        Some(n) => n as int,
        None => 0,
    })
}

/// The limit that an application has reached, if it has one and was used for as long today.
pub fn limit_reached(
    feature: &str,
    past_today: Option<u64>,
    elapsed: u64,
    limit: Option<u64>,
) -> (r: Option<AppLimit>)
    requires
        used_today(past_today, elapsed) <= u64::MAX,
    ensures
        match r {
            Some(reached) => {
                &&& limit == Some(reached.daily_limit)
                &&& reached.feature@ == feature@
                &&& used_today(past_today, elapsed) >= reached.daily_limit
            },
            None => limit is None || used_today(past_today, elapsed) < limit->0,
        },
{
    let past: u64 = match past_today {
        Some(n) => n,
        None => 0,
    };
    let total_today: u64 = past + elapsed;
    match limit {
        Some(daily_limit) => if total_today >= daily_limit {
            Some(AppLimit { feature: feature.to_string(), daily_limit })
        } else {
            None
        },
        None => None,
    }
}

/// The row that stores a limit: it belongs to the one user of the system.
#[derive(Debug, PartialEq)]
pub struct LimitRow {
    pub user_id: String,
    pub feature: String,
    pub daily_limit: u64,
}

/// The row that stores a limit.
pub fn save_usage_limit(feature: String, daily_limit: u64) -> (r: LimitRow)
    ensures
        r.user_id@ == "system_user"@,
        r.feature@ == feature@,
        r.daily_limit == daily_limit,
{
    LimitRow { user_id: "system_user".to_string(), feature, daily_limit }
}

/// A row of the usage table.
#[derive(Debug, PartialEq)]
pub struct UsageLog {
    pub id: Option<i32>,
    pub user_id: String,
    pub feature: String,
    pub duration: i64,
    pub created_at: i64,
}

/// The time for which an application was used today.
#[derive(Debug, PartialEq)]
pub struct DailyUsage {
    pub feature: String,
    pub total_duration: i64,
}

/// The time for which the machine was used on one day.
#[derive(Debug, PartialEq)]
pub struct WeeklyTrend {
    pub date: String,
    pub total_duration: i64,
}

/// Whether the first `n` rows could be read.
pub open spec fn rows_ok<T>(rows: Seq<Result<T, String>>, n: int) -> bool {
    forall|i: int| 0 <= i < n ==> (#[trigger] rows[i]) is Ok
}

/// Whether `r` is what reading all the rows gives: every row, in order, where all could be read,
/// and else the message of the first that could not.
pub open spec fn all_rows<T>(rows: Seq<Result<T, String>>, r: Result<Vec<T>, String>) -> bool {
    match r {
        Ok(items) => {
            &&& rows_ok(rows, rows.len() as int)
            &&& items@.len() == rows.len()
            &&& forall|i: int| 0 <= i < rows.len() ==> items@[i] == (#[trigger] rows[i])->Ok_0
        },
        Err(message) => exists|i: int|
            0 <= i < rows.len() && rows_ok(rows, i) && (#[trigger] rows[i]) == Err::<T, String>(
                message,
            ),
    }
}

/// The rows that could be read, in order.
pub open spec fn good_rows<T>(rows: Seq<Result<T, String>>) -> Seq<T>
    decreases rows.len(),
{
    if rows.len() == 0 {
        Seq::empty()
    } else {
        match rows.last() {
            Ok(item) => good_rows(rows.drop_last()).push(item),
            Err(_) => good_rows(rows.drop_last()),
        }
    }
}

fn read_all<T>(rows: Vec<Result<T, String>>) -> (r: Result<Vec<T>, String>)
    ensures
        all_rows(rows@, r),
{
    let mut items: Vec<T> = Vec::new();
    let ghost all = rows@;
    for row in it: rows
        invariant
            it.seq() == all,
            items@.len() == it.index(),
            rows_ok(all, it.index() as int),
            forall|i: int| 0 <= i < it.index() ==> items@[i] == (#[trigger] all[i])->Ok_0,
    {
        match row {
            Ok(item) => {
                items.push(item);
            },
            Err(message) => {
                return Err(message);
            },
        }
    }
    Ok(items)
}

fn read_good<T>(rows: Vec<Result<T, String>>) -> (r: Vec<T>)
    ensures
        r@ == good_rows(rows@),
{
    let mut items: Vec<T> = Vec::new();
    let ghost all = rows@;
    for row in it: rows
        invariant
            it.seq() == all,
            items@ == good_rows(all.take(it.index() as int)),
    {
        assert(all.take(it.index() + 1).drop_last() =~= all.take(it.index() as int));
        match row {
            Ok(item) => {
                items.push(item);
            },
            Err(_) => {},
        }
    }
    assert(all.take(all.len() as int) =~= all);
    items
}

/// The usage of the day, from the rows of its query.
pub fn get_daily_usage(rows: Vec<Result<DailyUsage, String>>) -> (r: Result<Vec<DailyUsage>, String>)
    ensures
        all_rows(rows@, r),
{
    read_all(rows)
}

/// The usage of the week, from the rows of its query.
pub fn get_weekly_trends(rows: Vec<Result<WeeklyTrend, String>>) -> (r: Result<
    Vec<WeeklyTrend>,
    String,
>)
    ensures
        all_rows(rows@, r),
{
    read_all(rows)
}

/// The daily limits, from the rows of their query.
pub fn get_usage_limits(rows: Vec<Result<AppLimit, String>>) -> (r: Result<Vec<AppLimit>, String>)
    ensures
        all_rows(rows@, r),
{
    read_all(rows)
}

/// The latest rows of the usage table. A row that cannot be read is left out.
pub fn get_usage_logs(rows: Vec<Result<UsageLog, String>>) -> (r: Vec<UsageLog>)
    ensures
        r@ == good_rows(rows@),
{
    read_good(rows)
}

} // verus!
