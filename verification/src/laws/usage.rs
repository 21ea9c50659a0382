//! How the use of applications is counted, limited and read back.

use vstd::prelude::*;
#[allow(unused_imports)]
use crate::usage::{
    all_rows, get_daily_usage, get_usage_limits, get_usage_logs, get_weekly_trends, good_rows,
    limit_reached, rows_ok, save_usage_limit, seconds_in, used_today, AppLimit, Clock, DailyUsage,
    LimitRow, RecordView, Step, Tick, TickView, TrackerView, UsageLog, UsageRecord, UsageTracker, WeeklyTrend,
};

verus! {

/// A stretch of use ends when another application comes to the front, or after a minute, and not
/// before. It is recorded then, with all its seconds and for the application that was in front,
/// unless no second has passed. A limit is checked when four ticks have gone by without a check.
pub proof fn law_when_a_stretch_ends(t: TrackerView, now_app: Seq<char>, elapsed: nat)
    ensures
        t.actions(now_app, elapsed).restart <==> now_app != t.current_app || elapsed >= 60,
        t.actions(now_app, elapsed).record is Some <==> elapsed > 0 && (now_app != t.current_app
            || elapsed >= 60),
        t.actions(now_app, elapsed).record matches Some(r) ==> r.user_id == "system_user"@
            && r.feature == t.current_app && r.duration == elapsed,
        t.ticks >= 4 <==> t.actions(now_app, elapsed).check is Some,
        t.actions(now_app, elapsed).check matches Some(app) ==> app == t.current_app,
        t.next(now_app, elapsed).current_app == now_app,
        t.next(now_app, elapsed).ticks == (if t.ticks >= 4 {
            0
        } else {
            t.ticks + 1
        }),
{
}

/// A watch begins with the application that is in front, and with no tick gone by.
pub proof fn law_new_watch(current_app: String, r: UsageTracker)
    requires
        call_ensures(UsageTracker::new, (current_app,), r),
    ensures
        r@.current_app == current_app@,
        r@.ticks == 0,
{
}

/// A tick ends the stretch of use when another application is in front or a minute is over, and
/// then tells to record all the seconds for the application that was in front before. It tells to
/// check the limit of that application when four ticks have gone by without a check. The one in
/// front now is the one that is watched from then on.
pub proof fn law_tick(tracker: &mut UsageTracker, now_app: String, elapsed: u64, r: Tick)
    requires
        call_ensures(UsageTracker::tick, (tracker, now_app, elapsed), r),
    ensures
        r.restart <==> now_app@ != old(tracker)@.current_app || elapsed >= 60,
        r.record is Some <==> r.restart && elapsed > 0,
        r.record matches Some(record) ==> record.user_id@ == "system_user"@ && record.feature@
            == old(tracker)@.current_app && record.duration == elapsed,
        r.check is Some <==> old(tracker)@.ticks >= 4,
        r.check matches Some(app) ==> app@ == old(tracker)@.current_app,
        final(tracker)@.current_app == now_app@,
        final(tracker)@.ticks == (if old(tracker)@.ticks >= 4 {
            0
        } else {
            old(tracker)@.ticks + 1
        }),
{
    law_what_a_tick_says(r);
}

/// What is to be done after a tick is what its fields say.
pub proof fn law_what_a_tick_says(tick: Tick)
    ensures
        tick@.restart == tick.restart,
        tick@.check is Some <==> tick.check is Some,
        tick.check matches Some(app) ==> tick@.check == Some(app@),
        tick@.record is Some <==> tick.record is Some,
        tick.record matches Some(r) ==> tick@.record->0.user_id == r.user_id@
            && tick@.record->0.feature == r.feature@ && tick@.record->0.duration == r.duration,
{
}

/// The application in front before the step at place `i`.
pub open spec fn front_before(clock: Clock, steps: Seq<Step>, i: int) -> Seq<char> {
    if i <= 0 {
        clock.tracker.current_app
    } else {
        steps[i - 1].app
    }
}

/// The seconds of several steps during which an application was in front.
pub open spec fn seconds_in_front(clock: Clock, steps: Seq<Step>, app: Seq<char>) -> nat
    decreases steps.len(),
{
    if steps.len() == 0 {
        0
    } else {
        seconds_in_front(clock, steps.drop_last(), app) + (if front_before(
            clock,
            steps,
            steps.len() - 1,
        ) == app {
            steps.last().seconds
        } else {
            0
        })
    }
}

/// The seconds that several steps record for an application.
pub open spec fn seconds_recorded(clock: Clock, steps: Seq<Step>, app: Seq<char>) -> nat
    decreases steps.len(),
{
    if steps.len() == 0 {
        0
    } else {
        seconds_recorded(clock, steps.drop_last(), app) + (match clock.last_actions(steps).record {
            Some(r) => if r.feature == app {
                r.duration
            } else {
                0
            },
            None => 0,
        })
    }
}

/// The seconds that are being counted for an application.
pub open spec fn seconds_counting(clock: Clock, app: Seq<char>) -> nat {
    if clock.tracker.current_app == app {
        clock.elapsed
    } else {
        0
    }
}

/// Every second goes to the application that was in front: what has been recorded for an
/// application and what is being counted for it is the time that it was in front.
pub proof fn law_seconds_go_to_the_application_in_front(
    clock: Clock,
    steps: Seq<Step>,
    app: Seq<char>,
)
    ensures
        seconds_recorded(clock, steps, app) + seconds_counting(clock.after_all(steps), app)
            == seconds_in_front(clock, steps, app) + seconds_counting(clock, app),
        clock.after_all(steps).tracker.current_app == front_before(
            clock,
            steps,
            steps.len() as int,
        ),
    decreases steps.len(),
{
    if steps.len() > 0 {
        let init = steps.drop_last();
        law_seconds_go_to_the_application_in_front(clock, init, app);
        if init.len() > 0 {
            assert(init[init.len() - 1] == steps[steps.len() - 2]);
        }
        let before = clock.after_all(init);
        law_when_a_stretch_ends(
            before.tracker,
            steps.last().app,
            before.elapsed + steps.last().seconds,
        );
    }
}

/// A limit is reached when the use of the day, what is recorded and what is being counted, is as
/// long as the limit or longer; without a limit it never is.
pub proof fn law_limit(
    feature: &str,
    past_today: Option<u64>,
    elapsed: u64,
    limit: Option<u64>,
    r: Option<AppLimit>,
)
    requires
        call_ensures(limit_reached, (feature, past_today, elapsed, limit), r),
    ensures
        limit is None ==> r is None,
        limit matches Some(l) ==> (r is Some <==> (match past_today {
            Some(past) => past as int,
            None => 0,
        }) + elapsed >= l),
        r matches Some(reached) ==> reached.feature@ == feature@ && Some(reached.daily_limit)
            == limit,
{
}

/// A limit is stored for the user of the system, with the application and the seconds as they were
/// given.
pub proof fn law_stored_limit(feature: String, daily_limit: u64, r: LimitRow)
    requires
        call_ensures(save_usage_limit, (feature, daily_limit), r),
    ensures
        r.user_id@ == "system_user"@,
        r.feature@ == feature@,
        r.daily_limit == daily_limit,
{
}

/// Whether the result of reading rows is what the rows give, up to the first that cannot be read.
pub open spec fn reads<T>(rows: Seq<Result<T, String>>, r: Result<Vec<T>, String>, k: int) -> bool {
    if k < rows.len() {
        r matches Err(m) && Err::<T, String>(m) == rows[k]
    } else {
        r matches Ok(items) && items@.len() == rows.len() && forall|i: int|
            0 <= i < rows.len() ==> Ok::<T, String>(items@[i]) == #[trigger] rows[i]
    }
}

proof fn lemma_reads<T>(rows: Seq<Result<T, String>>, r: Result<Vec<T>, String>, k: int)
    requires
        all_rows(rows, r),
        0 <= k <= rows.len(),
        forall|i: int| 0 <= i < k ==> (#[trigger] rows[i]) is Ok,
        k < rows.len() ==> rows[k] is Err,
    ensures
        reads(rows, r, k),
{
    match r {
        Ok(items) => {
            if k < rows.len() {
                assert(rows[k] is Ok);
            }
            assert forall|i: int| 0 <= i < rows.len() implies Ok::<T, String>(items@[i])
                == #[trigger] rows[i] by {
                assert(rows[i] is Ok);
                assert(items@[i] == rows[i]->Ok_0);
            }
        },
        Err(message) => {
            let j = choose|j: int|
                0 <= j < rows.len() && rows_ok(rows, j) && (#[trigger] rows[j]) == Err::<T, String>(
                    message,
                );
            if k < j {
                assert(rows[k] is Ok);
            } else if j < k {
                assert(rows[j] is Ok);
            }
        },
    }
}

/// The usage of the day is every row in order, or the message of the first that cannot be read.
pub proof fn law_daily_rows(
    rows: Vec<Result<DailyUsage, String>>,
    r: Result<Vec<DailyUsage>, String>,
    k: int,
)
    requires
        call_ensures(get_daily_usage, (rows,), r),
        0 <= k <= rows@.len(),
        forall|i: int| 0 <= i < k ==> (#[trigger] rows@[i]) is Ok,
        k < rows@.len() ==> rows@[k] is Err,
    ensures
        reads(rows@, r, k),
{
    lemma_reads(rows@, r, k);
}

/// The usage of the week is every row in order, or the message of the first that cannot be read.
pub proof fn law_weekly_rows(
    rows: Vec<Result<WeeklyTrend, String>>,
    r: Result<Vec<WeeklyTrend>, String>,
    k: int,
)
    requires
        call_ensures(get_weekly_trends, (rows,), r),
        0 <= k <= rows@.len(),
        forall|i: int| 0 <= i < k ==> (#[trigger] rows@[i]) is Ok,
        k < rows@.len() ==> rows@[k] is Err,
    ensures
        reads(rows@, r, k),
{
    lemma_reads(rows@, r, k);
}

/// The limits are every row in order, or the message of the first that cannot be read.
pub proof fn law_limit_rows(
    rows: Vec<Result<AppLimit, String>>,
    r: Result<Vec<AppLimit>, String>,
    k: int,
)
    requires
        call_ensures(get_usage_limits, (rows,), r),
        0 <= k <= rows@.len(),
        forall|i: int| 0 <= i < k ==> (#[trigger] rows@[i]) is Ok,
        k < rows@.len() ==> rows@[k] is Err,
    ensures
        reads(rows@, r, k),
{
    lemma_reads(rows@, r, k);
}

proof fn lemma_good_rows_concat<T>(a: Seq<Result<T, String>>, b: Seq<Result<T, String>>)
    ensures
        good_rows(a + b) == good_rows(a) + good_rows(b),
    decreases b.len(),
{
    if b.len() == 0 {
        assert(a + b =~= a);
        assert(good_rows(a) + good_rows(b) =~= good_rows(a));
    } else {
        lemma_good_rows_concat(a, b.drop_last());
        assert((a + b).drop_last() =~= a + b.drop_last());
        assert((a + b).last() == b.last());
        assert(good_rows(a + b) =~= good_rows(a) + good_rows(b));
    }
}

/// The log of several rows is that of the first of them and then that of the others.
pub proof fn law_joined_logs(
    rows: (Vec<Result<UsageLog, String>>, Vec<Result<UsageLog, String>>, Vec<Result<UsageLog, String>>),
    r: (Vec<UsageLog>, Vec<UsageLog>, Vec<UsageLog>),
)
    requires
        call_ensures(get_usage_logs, (rows.0,), r.0),
        call_ensures(get_usage_logs, (rows.1,), r.1),
        call_ensures(get_usage_logs, (rows.2,), r.2),
        rows.2@ == rows.0@ + rows.1@,
    ensures
        r.2@ == r.0@ + r.1@,
{
    lemma_good_rows_concat(rows.0@, rows.1@);
}

/// A row of the log is kept as it is where it can be read, and left out where it cannot.
pub proof fn law_one_row_of_the_log(
    rows: Vec<Result<UsageLog, String>>,
    r: Vec<UsageLog>,
)
    requires
        call_ensures(get_usage_logs, (rows,), r),
        rows@.len() <= 1,
    ensures
        rows@.len() == 1 && rows@[0] is Ok ==> r@ == seq![rows@[0]->Ok_0],
        rows@.len() == 0 || rows@[0] is Err ==> r@.len() == 0,
{
    if rows@.len() == 1 {
        assert(rows@.drop_last() =~= Seq::empty());
        assert(good_rows(rows@.drop_last()) =~= Seq::empty());
        assert(rows@.last() == rows@[0]);
        if rows@[0] is Ok {
            assert(r@ =~= seq![rows@[0]->Ok_0]);
        }
    }
}

} // verus!
