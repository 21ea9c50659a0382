use zoh_monitor::health::calculate_health_score;
use zoh_monitor::stats::{
    battery_stats, disk_totals, get_crash_reports_count, get_latency, get_system_stats,
    hardware_refresh_due, network_totals, scan_sensors, sensor_kind, total, BatteryReading,
    BatteryState, BatteryStats, ComponentInfo, ComponentReading, CpuReading, DiskActivity,
    DiskInfo, NetworkReading, ProcessInfo, ProcessReading, Snapshot, Temperature,
};

#[test]
fn a_healthy_system() {
    assert_eq!(calculate_health_score(70, 100, 80, Some(75), Some(85)), 100);
    assert_eq!(calculate_health_score(0, 0, 100, None, None), 100);
}

#[test]
fn every_reading_lowers_the_score() {
    assert_eq!(calculate_health_score(71, 100, 0, None, None), 90);
    assert_eq!(calculate_health_score(91, 100, 0, None, None), 80);
    assert_eq!(calculate_health_score(0, 100, 81, None, None), 85);
    assert_eq!(calculate_health_score(0, 100, 96, None, None), 75);
    assert_eq!(calculate_health_score(0, 100, 0, Some(76), None), 90);
    assert_eq!(calculate_health_score(0, 100, 0, Some(91), None), 80);
    assert_eq!(calculate_health_score(0, 100, 0, None, Some(84)), 95);
    assert_eq!(calculate_health_score(0, 100, 0, None, Some(69)), 85);
    assert_eq!(calculate_health_score(i64::MAX, 1, i64::MAX, Some(i64::MAX), Some(i64::MIN)), 20);
}

#[test]
fn worse_readings_never_raise_the_score() {
    let mut last = 100;
    for n in 0..120i64 {
        let score = calculate_health_score(n, 1, n, Some(n), Some(100 - n));
        assert!(score <= last && score >= 20);
        last = score;
    }
}

#[test]
fn the_hardware_is_asked_every_ten_seconds() {
    assert!(!hardware_refresh_due(9, false, false));
    assert!(!hardware_refresh_due(9, false, true));
    assert!(!hardware_refresh_due(9, true, false));
    assert!(hardware_refresh_due(10, false, false));
    assert!(hardware_refresh_due(10, true, true));
}

#[test]
fn empty_lists_are_filled_at_the_first_request() {
    assert!(hardware_refresh_due(0, true, true));
    assert!(hardware_refresh_due(9, true, true));
}

#[test]
fn latency_and_crash_reports() {
    assert_eq!(get_latency(Some(37)), 37);
    assert_eq!(get_latency(Some(0x1_0000_0005)), 5);
    assert_eq!(get_latency(None), 0);
    assert_eq!(get_crash_reports_count(Some(3)), 3);
    assert_eq!(get_crash_reports_count(None), 0);
}

#[test]
fn counters_are_added() {
    assert_eq!(total(&vec![]), Some(0));
    assert_eq!(total(&vec![1, 2, 3]), Some(6));
    assert_eq!(total(&vec![u64::MAX, 0]), Some(u64::MAX));
    assert_eq!(total(&vec![u64::MAX, 1]), None);
    let networks = vec![
        NetworkReading { total_received: 1, total_transmitted: 10 },
        NetworkReading { total_received: 2, total_transmitted: 20 },
    ];
    assert_eq!(network_totals(&networks), Some((3, 30)));
}

#[test]
fn disk_traffic() {
    let mut activity = DiskActivity::new();
    let first = activity.sample(100, 0, true);
    assert_eq!((first.read, first.write), (None, None));
    let second = activity.sample(160, 40, true);
    assert_eq!((second.read, second.write), (Some(60), None));
    let third = activity.sample(150, 45, true);
    assert_eq!((third.read, third.write), (Some(0), Some(5)));
    let fourth = activity.sample(170, 50, false);
    assert_eq!((fourth.read, fourth.write), (None, None));
    assert_eq!((activity.last_read, activity.last_write), (170, 50));
}

#[test]
fn disk_traffic_adds_up() {
    let mut activity = DiskActivity::new();
    activity.sample(7, 7, true);
    let mut counted = 0;
    for n in [7u64, 9, 9, 30, 31, 100] {
        counted += activity.sample(n, n, true).read.unwrap();
    }
    assert_eq!(counted, 93);
}

fn sensor(label: &str, temp: Option<f32>) -> ComponentReading<f32> {
    ComponentReading {
        label: label.to_string(),
        temp: temp.map(|value| Temperature {
            value,
            ceiling: value.ceil() as i64,
            whole: value as u32,
        }),
        max_temp: Some(100.0),
        critical_temp: None,
    }
}

#[test]
fn sensors_by_label() {
    let kind = sensor_kind("package id 0");
    assert!(kind.cpu && !kind.gpu && !kind.fan);
    let kind = sensor_kind("amdgpu fan1");
    assert!(!kind.cpu && kind.gpu && kind.fan);
    let kind = sensor_kind("intel graphics");
    assert!(!kind.cpu && kind.gpu && !kind.fan);
    assert!(sensor_kind("nvidia").gpu);
}

#[test]
fn the_first_reading_counts() {
    let scan = scan_sensors(&vec![
        sensor("CPU A", None),
        sensor("NVIDIA X", None),
        sensor("Package id 0", Some(51.5)),
        sensor("CPU B", Some(99.0)),
        sensor("GPU Y", Some(40.25)),
        sensor("gpu fan", Some(1200.9)),
    ]);
    assert_eq!(scan.cpu_temp.map(|t| t.value), Some(51.5));
    assert_eq!(scan.gpu_name, "NVIDIA X");
    assert_eq!(scan.gpu_temp.map(|t| t.value), Some(40.25));
    assert_eq!(scan.gpu_fan_speed, Some(1200));
}

#[test]
fn the_last_fan_counts() {
    let scan = scan_sensors(&vec![sensor("gpu fan", Some(5.0)), sensor("gpu fan 2", None)]);
    assert_eq!(scan.gpu_fan_speed, None);
    let scan = scan_sensors(&vec![sensor("fan", Some(5.0))]);
    assert_eq!(scan.gpu_fan_speed, None);
    assert_eq!(scan.gpu_name, "N/A");
}

#[test]
fn the_first_temperature_of_the_card_counts() {
    let scan = scan_sensors(&vec![
        sensor("GPU A", None),
        sensor("CPU", Some(70.0)),
        sensor("AMD edge", Some(41.5)),
        sensor("nvidia", Some(99.0)),
    ]);
    assert_eq!(scan.gpu_temp.map(|t| t.value), Some(41.5));
    let scan = scan_sensors(&vec![sensor("GPU A", None), sensor("CPU", Some(70.0))]);
    assert!(scan.gpu_temp.is_none());
}

#[test]
fn the_last_of_two_fans_counts() {
    let scan = scan_sensors(&vec![
        sensor("gpu fan 1", Some(900.5)),
        sensor("gpu fan 2", Some(1300.9)),
        sensor("gpu", Some(50.0)),
        sensor("fan", Some(5.0)),
    ]);
    assert_eq!(scan.gpu_fan_speed, Some(1300));
}

fn battery(state: BatteryState) -> BatteryReading<f32> {
    BatteryReading {
        percentage: 50.0,
        state,
        time_to_full: None,
        time_to_empty: Some(7200),
        health: Some(69.5),
        health_floor: Some(69),
        power_usage: 12.5,
        cycle_count: Some(300),
    }
}

#[test]
fn the_battery() {
    let expected = BatteryStats {
        percentage: 50.0,
        is_charging: false,
        status: "Discharging".to_string(),
        time_remaining: Some(7200),
        health: Some(69.5),
        power_usage: Some(12.5),
        cycle_count: Some(300),
    };
    assert_eq!(battery_stats(&battery(BatteryState::Discharging)), expected);
    for (state, text, charging) in [
        (BatteryState::Charging, "Charging", true),
        (BatteryState::Full, "Full", true),
        (BatteryState::Empty, "Empty", false),
        (BatteryState::Unknown, "Unknown", false),
    ] {
        let stats = battery_stats(&battery(state));
        assert_eq!((stats.status.as_str(), stats.is_charging), (text, charging));
    }
    let mut charging = battery(BatteryState::Charging);
    charging.time_to_full = Some(60);
    assert_eq!(battery_stats(&charging).time_remaining, Some(60));
}

fn process(pid: u32, read: u64, written: u64) -> ProcessReading<f32> {
    ProcessReading {
        info: ProcessInfo {
            name: format!("p{}", pid),
            pid,
            parent_pid: Some(1),
            cpu_usage: 1.5,
            memory: 10,
            run_duration: 20,
        },
        total_read_bytes: read,
        total_written_bytes: written,
    }
}

fn snapshot() -> Snapshot<f32, f64> {
    Snapshot {
        cpu_usage: 90.5,
        cpu_usage_ceiling: 91,
        cpus: vec![
            CpuReading { brand: "Ryzen".to_string(), frequency: 3600, usage: 80.0 },
            CpuReading { brand: "Other".to_string(), frequency: 1, usage: 20.0 },
        ],
        physical_cores: None,
        cpu_arch: "x86_64".to_string(),
        memory_used: 50,
        memory_total: 100,
        memory_pct_ceiling: 50,
        memory_free: 30,
        memory_available: 40,
        swap_total: 8,
        swap_used: 4,
        os_name: None,
        os_version: Some("11".to_string()),
        uptime: 1000,
        last_boot_time: 2000,
        disks: vec![DiskInfo {
            name: "C:".to_string(),
            total_space: 5,
            available_space: 4,
            kind: "SSD".to_string(),
        }],
        networks: vec![
            NetworkReading { total_received: 3, total_transmitted: 4 },
            NetworkReading { total_received: 30, total_transmitted: 40 },
        ],
        components: vec![sensor("CPU", Some(76.0)), sensor("Disk", Some(30.0))],
        processes: vec![process(7, 1, 2), process(8, 10, 20)],
        battery: Some(battery(BatteryState::Full)),
        disk_read_speed: 11,
        disk_write_speed: 12,
        known_gpu: "GeForce".to_string(),
        gpu_usage: 33.0,
        vram_used: 1,
        vram_total: 2,
        ping: 21,
        wifi_signal: 77,
        load_average: [0.1, 0.2, 0.3],
        local_ip: None,
        crash_reports: Some(2),
    }
}

#[test]
fn statistics_are_put_together() {
    let stats = get_system_stats(snapshot()).unwrap();
    assert_eq!(stats.cpu_usage, 90.5);
    assert_eq!((stats.cpu_cores, stats.physical_cores), (2, 2));
    assert_eq!(stats.cpu_model, "Ryzen");
    assert_eq!(stats.cpu_arch, "x86_64");
    assert_eq!(stats.cpu_freq, 3600);
    assert_eq!(stats.cpus, vec![80.0, 20.0]);
    assert_eq!(stats.cpu_temp, Some(76.0));
    assert_eq!((stats.memory_used, stats.memory_total), (50, 100));
    assert_eq!((stats.memory_free, stats.memory_available), (30, 40));
    assert_eq!((stats.swap_total, stats.swap_used), (8, 4));
    assert_eq!((stats.os_name.as_str(), stats.os_version.as_str()), ("", "11"));
    assert_eq!((stats.uptime, stats.last_boot_time), (1000, 2000));
    assert_eq!(stats.disks[0].name, "C:");
    assert_eq!((stats.net_received, stats.net_transmitted), (33, 44));
    assert_eq!(stats.processes.len(), 2);
    assert_eq!(stats.processes[1], process(8, 0, 0).info);
    assert_eq!(stats.active_connections, 2);
    assert_eq!(stats.gpu_name, "GeForce");
    assert_eq!(stats.gpu_usage, 33.0);
    assert_eq!((stats.gpu_temp, stats.gpu_clock, stats.gpu_fan_speed), (None, None, None));
    assert_eq!((stats.vram_used, stats.vram_total), (1, 2));
    assert!(stats.battery.unwrap().is_charging);
    assert_eq!((stats.disk_read_speed, stats.disk_write_speed), (11, 12));
    assert_eq!((stats.ping, stats.wifi_signal), (21, 77));
    assert_eq!(stats.load_average, [0.1, 0.2, 0.3]);
    assert_eq!(
        stats.sensors[1],
        ComponentInfo {
            label: "Disk".to_string(),
            temp: Some(30.0),
            max_temp: Some(100.0),
            critical_temp: None,
        }
    );
    assert_eq!(stats.local_ip, "Unknown");
    assert_eq!(stats.health_score, 100 - 20 - 10 - 15);
    assert_eq!(stats.crash_reports_count, 2);
}

#[test]
fn statistics_of_a_bare_system() {
    let mut s = snapshot();
    s.cpus.clear();
    s.physical_cores = Some(4);
    s.components = vec![sensor("AMD GPU", Some(50.0))];
    s.battery = None;
    s.local_ip = Some("10.0.0.2".to_string());
    let stats = get_system_stats(s).unwrap();
    assert_eq!((stats.cpu_cores, stats.physical_cores, stats.cpu_freq), (0, 4, 0));
    assert_eq!(stats.cpu_model, "Unknown");
    assert_eq!(stats.gpu_name, "AMD GPU");
    assert_eq!(stats.gpu_temp, Some(50.0));
    assert!(stats.battery.is_none());
    assert_eq!(stats.local_ip, "10.0.0.2");
    assert_eq!(stats.health_score, 80);
}

#[test]
fn too_much_traffic_to_count() {
    let mut s = snapshot();
    s.networks.push(NetworkReading { total_received: u64::MAX, total_transmitted: 0 });
    assert!(get_system_stats(s).is_none());
}

#[test]
fn disk_totals_over_processes() {
    assert_eq!(disk_totals(&vec![process(1, 1, 2), process(2, 10, 20)]), Some((11, 22)));
    assert_eq!(disk_totals(&vec![process(1, u64::MAX, 0), process(2, 1, 0)]), None);
}

#[test]
fn a_reading_that_was_missing_never_raises_the_score() {
    for worn in [0i64, 69, 70, 84, 85, 100] {
        for hot in [0i64, 75, 76, 90, 91] {
            let without = calculate_health_score(80, 1, 85, None, None);
            assert!(calculate_health_score(80, 1, 85, Some(hot), None) <= without);
            assert!(calculate_health_score(80, 1, 85, None, Some(worn)) <= without);
            assert!(calculate_health_score(80, 1, 85, Some(hot), Some(worn)) <= without);
        }
    }
}
