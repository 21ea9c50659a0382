use zoh_monitor::commands::{arguments, program, SystemCommand};
use zoh_monitor::desktop::{
    app_name, cleanup_gaming_memory, get_active_app, greet, kill_process, open_project_folder,
    power_plan_arguments, report_error, toggle_gaming_boost, ForegroundProbe,
};
use zoh_monitor::store::{sql, Statement};

fn module(name: &str) -> String {
    get_active_app(&ForegroundProbe::Module(name.encode_utf16().collect()))
}

#[test]
fn the_application_in_front() {
    assert_eq!(module("Code.exe"), "Code");
    assert_eq!(module("SETUP.EXE"), "SETUP");
    assert_eq!(module("Überprüfung.Exe"), "Überprüfung");
    assert_eq!(module("𝄞.exe"), "𝄞");
    assert_eq!(module(".exe"), "");
    assert_eq!(module("explorer"), "explorer");
    assert_eq!(module("a.exe.bak"), "a.exe.bak");
    assert_eq!(module("exe"), "exe");
}

#[test]
fn no_application_in_front() {
    assert_eq!(get_active_app(&ForegroundProbe::NoWindow), "Idle / System");
    assert_eq!(get_active_app(&ForegroundProbe::NoProcess), "Idle / System");
    assert_eq!(get_active_app(&ForegroundProbe::NoAccess), "Unknown / System");
    assert_eq!(module(""), "Unknown / System");
}

fn without_lower_case_extension(name: &str) -> &str {
    if name.to_lowercase().ends_with(".exe") {
        &name[..name.len() - 4]
    } else {
        name
    }
}

#[test]
fn programs_are_those_whose_lower_case_name_has_the_extension() {
    for n in 0..=0x1ffffu32 {
        if let Some(c) = char::from_u32(n) {
            for name in [
                format!("{}.eXe", c),
                format!("a{}exe", c),
                format!("a.{}xe", c),
                format!("a.e{}e", c),
                format!("a.ex{}", c),
                format!("a.exe{}", c),
            ] {
                assert_eq!(app_name(&name), without_lower_case_extension(&name), "{}", name);
            }
        }
    }
}

#[test]
fn a_program_loses_its_extension() {
    assert_eq!(app_name("Code.exe"), "Code");
    assert_eq!(app_name("Code.com"), "Code.com");
    assert_eq!(app_name("\u{391}\u{3a3}.EXE"), "\u{391}\u{3a3}");
    assert_eq!(app_name("a.exe.exe"), "a.exe");
    assert_eq!(app_name("exe"), "exe");
}

#[test]
fn answers() {
    assert_eq!(greet("Ada"), "Hello, Ada!");
    assert_eq!(report_error("boom"), "[ZOH ERROR REPORT] boom");
    assert_eq!(kill_process(Some(true)), Ok(()));
    assert_eq!(kill_process(Some(false)), Err("Failed to kill process".to_string()));
    assert_eq!(kill_process(None), Err("Process not found".to_string()));
    assert_eq!(open_project_folder(Some("/x".to_string())), Ok("/x".to_string()));
    assert_eq!(
        open_project_folder(None),
        Err("Could not find project folder for this process".to_string())
    );
}

#[test]
fn gaming_boost() {
    assert_eq!(
        power_plan_arguments(true),
        vec!["-setactive", "8c5e7fda-e8bf-4a96-9a85-a6e23a8c635c"]
    );
    assert_eq!(
        power_plan_arguments(false),
        vec!["-setactive", "381b4222-f694-41f0-9685-ff5bb260df2e"]
    );
    assert_eq!(
        toggle_gaming_boost(true, Some(Ok(()))),
        Ok("High Performance Mode Active".to_string())
    );
    assert_eq!(
        toggle_gaming_boost(false, Some(Ok(()))),
        Ok("Balanced Mode Resumed".to_string())
    );
    assert_eq!(
        toggle_gaming_boost(false, None),
        Ok("Feature only available on Windows".to_string())
    );
    assert_eq!(toggle_gaming_boost(true, Some(Err("e".to_string()))), Err("e".to_string()));
    assert_eq!(
        cleanup_gaming_memory(Some(Ok(()))),
        Ok("Memory working set optimization complete".to_string())
    );
    assert_eq!(cleanup_gaming_memory(None), Ok("Not implemented for this OS".to_string()));
    assert_eq!(cleanup_gaming_memory(Some(Err("e".to_string()))), Err("e".to_string()));
}

#[test]
fn system_commands() {
    assert_eq!(program(SystemCommand::Wifi), "netsh");
    assert_eq!(arguments(SystemCommand::Wifi), vec!["wlan", "show", "interfaces"]);
    assert_eq!(arguments(SystemCommand::Connections), vec!["-ano"]);
    assert_eq!(program(SystemCommand::GoVersion), "go");
    assert_eq!(arguments(SystemCommand::GoVersion), vec!["version"]);
    assert!(arguments(SystemCommand::GpuLoad)[1].starts_with("(Get-Counter '\\GPU Engine(*)\\"));
    assert_eq!(
        arguments(SystemCommand::Containers)[3],
        "{{.ID}}|{{.Names}}|{{.Image}}|{{.Status}}|{{.State}}|{{.Ports}}"
    );
}

#[test]
fn texts_keep_their_lines() {
    assert_eq!(
        arguments(SystemCommand::CleanupMemory)[1],
        r#"
            Get-Process | Where-Object { $_.MainWindowTitle -eq "" -and $_.CPU -lt 1 } | ForEach-Object { 
                try { [Runtime.InteropServices.Marshal]::FreeHGlobal(0) } catch {}
            }
        "#
    );
    assert_eq!(
        sql(Statement::CreateLimits),
        "CREATE TABLE IF NOT EXISTS usage_limits (
                    id INTEGER PRIMARY KEY AUTOINCREMENT,
                    user_id TEXT NOT NULL,
                    feature TEXT NOT NULL,
                    daily_limit INTEGER NOT NULL,
                    UNIQUE(user_id, feature)
                )"
    );
}

#[test]
fn statements_run_on_sqlite() {
    let db = rusqlite::Connection::open_in_memory().unwrap();
    db.execute(sql(Statement::CreateLogs), []).unwrap();
    db.execute(sql(Statement::CreateLimits), []).unwrap();
    db.execute(sql(Statement::SaveLimit), ("system_user", "code", 60i64)).unwrap();
    db.execute(sql(Statement::SaveLimit), ("system_user", "code", 90i64)).unwrap();
    let limit: i64 = db.query_row(sql(Statement::LimitOf), ["code"], |r| r.get(0)).unwrap();
    assert_eq!(limit, 90);
    db.execute(sql(Statement::DeleteLimit), ["code"]).unwrap();
    assert!(db.query_row(sql(Statement::LimitOf), ["code"], |r| r.get::<_, i64>(0)).is_err());
    for statement in [
        Statement::DailyUsage,
        Statement::UsageLogs,
        Statement::WeeklyTrends,
        Statement::UsageLimits,
        Statement::UsedToday,
        Statement::SaveUsage,
    ] {
        db.prepare(sql(statement)).unwrap();
    }
}
