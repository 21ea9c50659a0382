use zoh_monitor::usage::{
    get_daily_usage, get_usage_limits, get_usage_logs, get_weekly_trends, limit_reached,
    save_usage_limit, AppLimit, DailyUsage, LimitRow, UsageLog, UsageRecord, UsageTracker,
    WeeklyTrend,
};

fn record(feature: &str, duration: u64) -> Option<UsageRecord> {
    Some(UsageRecord {
        user_id: "system_user".to_string(),
        feature: feature.to_string(),
        duration,
    })
}

#[test]
fn a_change_of_application_is_recorded() {
    let mut tracker = UsageTracker::new("code".to_string());
    let tick = tracker.tick("code".to_string(), 1);
    assert_eq!((tick.check, tick.record, tick.restart), (None, None, false));
    let tick = tracker.tick("chrome".to_string(), 2);
    assert_eq!((tick.record, tick.restart), (record("code", 2), true));
    let tick = tracker.tick("code".to_string(), 0);
    assert_eq!((tick.record, tick.restart), (None, true));
    let tick = tracker.tick("chrome".to_string(), 7);
    assert_eq!(tick.record, record("code", 7));
}

#[test]
fn a_minute_is_recorded() {
    let mut tracker = UsageTracker::new("code".to_string());
    assert_eq!(tracker.tick("code".to_string(), 59).record, None);
    let tick = tracker.tick("code".to_string(), 60);
    assert_eq!((tick.record, tick.restart), (record("code", 60), true));
}

#[test]
fn every_fifth_tick_checks_the_limit_of_the_application_before() {
    let mut tracker = UsageTracker::new("code".to_string());
    let mut checks = Vec::new();
    for n in 1..=15u64 {
        let app = if n == 10 { "chrome" } else { "code" };
        checks.push(tracker.tick(app.to_string(), 1).check);
    }
    for (i, check) in checks.iter().enumerate() {
        if (i + 1) % 5 == 0 {
            assert_eq!(check.as_deref(), Some("code"));
        } else {
            assert!(check.is_none());
        }
    }
}

#[test]
fn no_second_is_lost() {
    let apps = ["a", "a", "b", "a", "a", "c", "c", "c", "c", "b"];
    let mut tracker = UsageTracker::new("a".to_string());
    let (mut elapsed, mut recorded, mut passed) = (0u64, 0u64, 0u64);
    for n in 0..1000u64 {
        let step = n * 7 % 5;
        elapsed += step;
        passed += step;
        let tick = tracker.tick(apps[(n * n % 10) as usize].to_string(), elapsed);
        if let Some(r) = tick.record {
            recorded += r.duration;
        }
        if tick.restart {
            elapsed = 0;
        }
        assert!(elapsed < 60);
        assert_eq!(recorded + elapsed, passed);
    }
}

#[test]
fn limits_are_reached() {
    let limit = |daily_limit| Some(AppLimit { feature: "code".to_string(), daily_limit });
    assert_eq!(limit_reached("code", Some(50), 10, Some(60)), limit(60));
    assert_eq!(limit_reached("code", Some(50), 9, Some(60)), None);
    assert_eq!(limit_reached("code", None, 60, Some(60)), limit(60));
    assert_eq!(limit_reached("code", Some(50), 10, None), None);
    assert_eq!(limit_reached("code", None, 0, Some(0)), limit(0));
}

#[test]
fn limits_belong_to_the_user_of_the_system() {
    assert_eq!(
        save_usage_limit("code".to_string(), 3600),
        LimitRow {
            user_id: "system_user".to_string(),
            feature: "code".to_string(),
            daily_limit: 3600,
        }
    );
}

fn daily(feature: &str, total_duration: i64) -> DailyUsage {
    DailyUsage { feature: feature.to_string(), total_duration }
}

#[test]
fn rows_of_the_day() {
    assert_eq!(
        get_daily_usage(vec![Ok(daily("a", 2)), Ok(daily("b", 1))]),
        Ok(vec![daily("a", 2), daily("b", 1)])
    );
    assert_eq!(
        get_daily_usage(vec![
            Ok(daily("a", 2)),
            Err("first".to_string()),
            Err("second".to_string())
        ]),
        Err("first".to_string())
    );
    assert_eq!(get_daily_usage(vec![]), Ok(vec![]));
}

#[test]
fn rows_of_the_week_and_of_the_limits() {
    let day = || WeeklyTrend { date: "2024-01-02".to_string(), total_duration: 5 };
    assert_eq!(get_weekly_trends(vec![Ok(day())]), Ok(vec![day()]));
    assert_eq!(get_weekly_trends(vec![Ok(day()), Err("x".to_string())]), Err("x".to_string()));
    let limit = || AppLimit { feature: "a".to_string(), daily_limit: 5 };
    assert_eq!(get_usage_limits(vec![Ok(limit())]), Ok(vec![limit()]));
    assert_eq!(get_usage_limits(vec![Err("x".to_string())]), Err("x".to_string()));
}

#[test]
fn unreadable_rows_of_the_log_are_left_out() {
    let log = |id| UsageLog {
        id: Some(id),
        user_id: "u".to_string(),
        feature: "f".to_string(),
        duration: 1,
        created_at: 2,
    };
    assert_eq!(
        get_usage_logs(vec![Ok(log(3)), Err("x".to_string()), Ok(log(1))]),
        vec![log(3), log(1)]
    );
}
