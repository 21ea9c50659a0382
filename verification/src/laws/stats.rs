//! How the statistics of the system are put together and scored.

#[allow(unused_imports)]
use crate::health::{calculate_health_score, health_score};
#[allow(unused_imports)]
use crate::stats::{
    battery_stats, bytes_read, bytes_written, delta, disk_totals, get_crash_reports_count,
    get_latency, get_system_stats, hardware_refresh_due, network_totals, of_gpu, of_gpu_fan,
    reads_cpu, reads_gpu, received, scan, scan_sensors, sensor_kind, sum, total, transmitted,
    BatteryReading, BatteryState, BatteryStats, ComponentReading, DiskActivity, DiskDelta,
    NetworkReading, ProcessReading,
    SensorKind, SensorScan, Snapshot, SystemStats,
};
#[allow(unused_imports)]
use crate::encoding::lowered;
#[allow(unused_imports)]
use crate::text::has;
use vstd::prelude::*;

verus! {

/// The score is a hundred where nothing is amiss: the load is at most 70, the memory in use at
/// most 80 and the temperature at most 75, and the battery has at least 85 left; readings that are
/// missing do no harm.
pub proof fn law_healthy_system(
    cpu_usage: i64,
    memory_total: u64,
    memory_pct: i64,
    cpu_temp: Option<i64>,
    battery_health: Option<i64>,
    r: u8,
)
    requires
        call_ensures(
            calculate_health_score,
            (cpu_usage, memory_total, memory_pct, cpu_temp, battery_health),
            r,
        ),
        cpu_usage <= 70,
        memory_total == 0 || memory_pct <= 80,
        cpu_temp is None || cpu_temp->0 <= 75,
        battery_health is None || battery_health->0 >= 85,
    ensures
        r == 100,
{
}

/// A load above 70 takes ten off the score, and one above 90 twenty, whatever the other readings
/// are.
pub proof fn law_load_lowers_the_score(
    cpu_usage: (i64, i64),
    memory_total: u64,
    memory_pct: i64,
    cpu_temp: Option<i64>,
    battery_health: Option<i64>,
    r: (u8, u8),
)
    requires
        call_ensures(
            calculate_health_score,
            (cpu_usage.0, memory_total, memory_pct, cpu_temp, battery_health),
            r.0,
        ),
        call_ensures(
            calculate_health_score,
            (cpu_usage.1, memory_total, memory_pct, cpu_temp, battery_health),
            r.1,
        ),
        cpu_usage.0 <= 70,
    ensures
        cpu_usage.1 <= 70 ==> r.1 == r.0,
        70 < cpu_usage.1 <= 90 ==> r.1 == r.0 - 10,
        90 < cpu_usage.1 ==> r.1 == r.0 - 20,
{
}

/// More than 80 percent of memory in use takes fifteen off the score, and more than 95 percent
/// twenty-five, where there is memory at all.
pub proof fn law_memory_lowers_the_score(
    cpu_usage: i64,
    memory_total: u64,
    memory_pct: (i64, i64),
    cpu_temp: Option<i64>,
    battery_health: Option<i64>,
    r: (u8, u8),
)
    requires
        call_ensures(
            calculate_health_score,
            (cpu_usage, memory_total, memory_pct.0, cpu_temp, battery_health),
            r.0,
        ),
        call_ensures(
            calculate_health_score,
            (cpu_usage, memory_total, memory_pct.1, cpu_temp, battery_health),
            r.1,
        ),
        memory_pct.0 <= 80,
    ensures
        memory_total == 0 || memory_pct.1 <= 80 ==> r.1 == r.0,
        memory_total > 0 && 80 < memory_pct.1 <= 95 ==> r.1 == r.0 - 15,
        memory_total > 0 && 95 < memory_pct.1 ==> r.1 == r.0 - 25,
{
}

/// A temperature above 75 takes ten off the score, and one above 90 twenty.
pub proof fn law_temperature_lowers_the_score(
    cpu_usage: i64,
    memory_total: u64,
    memory_pct: i64,
    cpu_temp: i64,
    battery_health: Option<i64>,
    r: (u8, u8),
)
    requires
        call_ensures(
            calculate_health_score,
            (cpu_usage, memory_total, memory_pct, None, battery_health),
            r.0,
        ),
        call_ensures(
            calculate_health_score,
            (cpu_usage, memory_total, memory_pct, Some(cpu_temp), battery_health),
            r.1,
        ),
    ensures
        cpu_temp <= 75 ==> r.1 == r.0,
        75 < cpu_temp <= 90 ==> r.1 == r.0 - 10,
        90 < cpu_temp ==> r.1 == r.0 - 20,
{
}

/// A battery with less than 85 left takes five off the score, and one with less than 70 fifteen.
pub proof fn law_worn_battery_lowers_the_score(
    cpu_usage: i64,
    memory_total: u64,
    memory_pct: i64,
    cpu_temp: Option<i64>,
    battery_health: i64,
    r: (u8, u8),
)
    requires
        call_ensures(
            calculate_health_score,
            (cpu_usage, memory_total, memory_pct, cpu_temp, None),
            r.0,
        ),
        call_ensures(
            calculate_health_score,
            (cpu_usage, memory_total, memory_pct, cpu_temp, Some(battery_health)),
            r.1,
        ),
    ensures
        battery_health >= 85 ==> r.1 == r.0,
        70 <= battery_health < 85 ==> r.1 == r.0 - 5,
        battery_health < 70 ==> r.1 == r.0 - 15,
{
}

/// The hardware is asked again after ten seconds, and before that only at the first request where
/// a list is empty.
pub proof fn law_hardware_refresh(seconds: u64, first_run: bool, list_empty: bool, r: bool)
    requires
        call_ensures(hardware_refresh_due, (seconds, first_run, list_empty), r),
    ensures
        seconds >= 10 ==> r,
        seconds < 10 ==> r == (first_run && list_empty),
{
}

/// The time to connect and the number of crash reports are told as they are, as long as they fit
/// 32 bits, and higher bits are lost; where there is none it is zero.
pub proof fn law_small_counts(
    millis: Option<u128>,
    latency: u32,
    entries: Option<usize>,
    reports: u32,
)
    requires
        call_ensures(get_latency, (millis,), latency),
        call_ensures(get_crash_reports_count, (entries,), reports),
    ensures
        millis is None ==> latency == 0,
        millis matches Some(n) ==> (n <= u32::MAX ==> latency == n) && (n - latency)
            % 0x1_0000_0000 == 0,
        entries is None ==> reports == 0,
        entries matches Some(n) ==> (n <= u32::MAX ==> reports == n) && (n - reports)
            % 0x1_0000_0000 == 0,
{
}

proof fn lemma_sum_concat(a: Seq<u64>, b: Seq<u64>)
    ensures
        sum(a + b) == sum(a) + sum(b),
    decreases b.len(),
{
    if b.len() == 0 {
        assert(a + b =~= a);
    } else {
        lemma_sum_concat(a, b.drop_last());
        assert((a + b).drop_last() =~= a + b.drop_last());
    }
}

/// Counters are added: those of two lists together come to what each comes to, and a sum that is
/// more than 64 bits hold is none.
pub proof fn law_joined_counters(
    counters: (&Vec<u64>, &Vec<u64>, &Vec<u64>),
    r: (Option<u64>, Option<u64>, Option<u64>),
)
    requires
        call_ensures(total, (counters.0,), r.0),
        call_ensures(total, (counters.1,), r.1),
        call_ensures(total, (counters.2,), r.2),
        counters.2@ == counters.0@ + counters.1@,
    ensures
        r.0 is None || r.1 is None ==> r.2 is None,
        (r.0 matches Some(x) && r.1 matches Some(y)) ==> r.2 == (if r.0->0 + r.1->0 <= u64::MAX {
            Some((r.0->0 + r.1->0) as u64)
        } else {
            None
        }),
{
    lemma_sum_concat(counters.0@, counters.1@);
}

/// A single counter comes to its own count, and none to nothing.
pub proof fn law_one_counter(counters: &Vec<u64>, r: Option<u64>)
    requires
        call_ensures(total, (counters,), r),
        counters@.len() <= 1,
    ensures
        counters@.len() == 0 ==> r == Some(0u64),
        counters@.len() == 1 ==> r == Some(counters@[0]),
{
    if counters@.len() == 1 {
        assert(counters@.drop_last() =~= Seq::empty());
        assert(sum(counters@.drop_last()) == 0);
    }
}

/// What the network has received is the sum over the interfaces of what each has received, and
/// what it has transmitted that of what each has transmitted.
pub proof fn law_network_traffic(
    networks: &Vec<NetworkReading>,
    r: Option<(u64, u64)>,
    counters: (&Vec<u64>, &Vec<u64>),
    sums: (Option<u64>, Option<u64>),
)
    requires
        call_ensures(network_totals, (networks,), r),
        call_ensures(total, (counters.0,), sums.0),
        call_ensures(total, (counters.1,), sums.1),
        counters.0@.len() == networks@.len(),
        counters.1@.len() == networks@.len(),
        forall|i: int|
            0 <= i < networks@.len() ==> counters.0@[i] == (
            #[trigger] networks@[i]).total_received && counters.1@[i]
                == networks@[i].total_transmitted,
    ensures
        r is Some <==> sums.0 is Some && sums.1 is Some,
        r matches Some((received, transmitted)) ==> sums.0 == Some(received) && sums.1 == Some(
            transmitted,
        ),
{
    assert(networks@.map_values(|n: NetworkReading| n.total_received) =~= counters.0@);
    assert(networks@.map_values(|n: NetworkReading| n.total_transmitted) =~= counters.1@);
}

/// What is read from disks is the sum over the processes of what each has read, and what is
/// written that of what each has written.
pub proof fn law_disk_traffic<F>(
    processes: &Vec<ProcessReading<F>>,
    r: Option<(u64, u64)>,
    counters: (&Vec<u64>, &Vec<u64>),
    sums: (Option<u64>, Option<u64>),
)
    requires
        call_ensures(disk_totals::<F>, (processes,), r),
        call_ensures(total, (counters.0,), sums.0),
        call_ensures(total, (counters.1,), sums.1),
        counters.0@.len() == processes@.len(),
        counters.1@.len() == processes@.len(),
        forall|i: int|
            0 <= i < processes@.len() ==> counters.0@[i] == (
            #[trigger] processes@[i]).total_read_bytes && counters.1@[i]
                == processes@[i].total_written_bytes,
    ensures
        r is Some <==> sums.0 is Some && sums.1 is Some,
        r matches Some((read, written)) ==> sums.0 == Some(read) && sums.1 == Some(written),
{
    assert(processes@.map_values(|p: ProcessReading<F>| p.total_read_bytes) =~= counters.0@);
    assert(processes@.map_values(|p: ProcessReading<F>| p.total_written_bytes) =~= counters.1@);
}

/// Between two counts as many bytes were moved as the count has grown by, and none where it has
/// fallen; without a count before, or without time, nothing can be told.
pub proof fn law_bytes_between_counts(last: u64, current: u64, time_passed: bool)
    ensures
        delta(last, current, time_passed) is Some <==> time_passed && last > 0,
        delta(last, current, time_passed) matches Some(n) ==> (current >= last ==> n == current
            - last) && (current < last ==> n == 0),
{
}

/// Nothing is counted at first. A sample tells how much each of the two counts has grown since the
/// last one, and keeps both counts for the next.
pub proof fn law_samples(
    first: DiskActivity,
    activity: &mut DiskActivity,
    read_total: u64,
    write_total: u64,
    time_passed: bool,
    r: DiskDelta,
)
    requires
        call_ensures(DiskActivity::new, (), first),
        call_ensures(DiskActivity::sample, (activity, read_total, write_total, time_passed), r),
    ensures
        first.last_read == 0 && first.last_write == 0,
        final(activity).last_read == read_total,
        final(activity).last_write == write_total,
        r.read is Some <==> time_passed && old(activity).last_read > 0,
        r.write is Some <==> time_passed && old(activity).last_write > 0,
        r.read matches Some(n) ==> n == (if read_total >= old(activity).last_read {
            read_total - old(activity).last_read
        } else {
            0
        }),
        r.write matches Some(n) ==> n == (if write_total >= old(activity).last_write {
            write_total - old(activity).last_write
        } else {
            0
        }),
{
}

/// A sensor belongs to the processor where its label speaks of `cpu` or `package`, to the graphics
/// card where it speaks of `gpu`, `nvidia`, `amd` or `graphics`, and to a fan where it speaks of
/// `fan`.
pub proof fn law_sensor_kinds(label: &str, r: SensorKind)
    requires
        call_ensures(sensor_kind, (label,), r),
    ensures
        r.cpu <==> has(label@, "cpu"@) || has(label@, "package"@),
        r.gpu <==> has(label@, "gpu"@) || has(label@, "nvidia"@) || has(label@, "amd"@) || has(
            label@,
            "graphics"@,
        ),
        r.fan <==> has(label@, "fan"@),
{
}

/// Which sensors are read for what goes by the kind of their lower-case label.
pub proof fn law_sensors_by_kind<F>(c: ComponentReading<F>, label: &str, kind: SensorKind)
    requires
        label@ == lowered(c.label@),
        call_ensures(sensor_kind, (label,), kind),
    ensures
        reads_cpu(c) <==> c.temp is Some && kind.cpu,
        of_gpu(c) <==> kind.gpu,
        reads_gpu(c) <==> c.temp is Some && kind.gpu,
        of_gpu_fan(c) <==> kind.gpu && kind.fan,
{
}

/// What the sensors tell is what they tell one after the other.
pub proof fn law_sensors_are_read_in_order<F: Copy>(
    components: &Vec<ComponentReading<F>>,
    r: SensorScan<F>,
)
    requires
        call_ensures(scan_sensors::<F>, (components,), r),
    ensures
        r.cpu_temp == scan(components@).cpu_temp,
        r.gpu_name@ == scan(components@).gpu_name,
        r.gpu_temp == scan(components@).gpu_temp,
        r.gpu_fan_speed == scan(components@).gpu_fan_speed,
{
}

/// The battery counts as charging when it is charged or full. The time that remains is the time
/// until it is full, or else the time until it is empty. All else is told as it was read.
pub proof fn law_battery<F: Copy>(b: &BatteryReading<F>, r: BatteryStats<F>)
    requires
        call_ensures(battery_stats::<F>, (b,), r),
    ensures
        r.is_charging <==> b.state is Charging || b.state is Full,
        b.state is Unknown ==> r.status@ == "Unknown"@,
        b.state is Charging ==> r.status@ == "Charging"@,
        b.state is Discharging ==> r.status@ == "Discharging"@,
        b.state is Empty ==> r.status@ == "Empty"@,
        b.state is Full ==> r.status@ == "Full"@,
        b.time_to_full is Some ==> r.time_remaining == b.time_to_full,
        b.time_to_full is None ==> r.time_remaining == b.time_to_empty,
        r.percentage == b.percentage,
        r.health == b.health,
        r.power_usage == Some(b.power_usage),
        r.cycle_count == b.cycle_count,
{
}

/// The statistics are refused only where the network traffic is more than 64 bits count, and hold
/// it otherwise.
pub proof fn law_statistics_of_the_network<F: Copy, D: Copy>(
    s: Snapshot<F, D>,
    r: Option<SystemStats<F, D>>,
    networks: &Vec<NetworkReading>,
    traffic: Option<(u64, u64)>,
)
    requires
        call_ensures(get_system_stats::<F, D>, (s,), r),
        networks@ == s.networks@,
        call_ensures(network_totals, (networks,), traffic),
    ensures
        r is Some <==> traffic is Some,
        r matches Some(stats) ==> traffic == Some((stats.net_received, stats.net_transmitted)),
{
}

/// The processor is told by its first core and the load of every core; where the number of
/// physical cores is not known that of all cores stands for it.
pub proof fn law_statistics_of_the_processor<F: Copy, D: Copy>(
    s: Snapshot<F, D>,
    r: Option<SystemStats<F, D>>,
    i: int,
)
    requires
        call_ensures(get_system_stats::<F, D>, (s,), r),
    ensures
        r matches Some(stats) ==> {
            &&& stats.cpu_usage == s.cpu_usage
            &&& stats.cpu_arch@ == s.cpu_arch@
            &&& stats.cpu_cores == s.cpus@.len()
            &&& stats.cpus@.len() == s.cpus@.len()
            &&& s.physical_cores matches Some(n) ==> stats.physical_cores == n
            &&& s.physical_cores is None ==> stats.physical_cores == s.cpus@.len()
            &&& 0 <= i < s.cpus@.len() ==> stats.cpus@[i] == s.cpus@[i].usage
            &&& s.cpus@.len() > 0 ==> stats.cpu_model@ == s.cpus@[0].brand@ && stats.cpu_freq
                == s.cpus@[0].frequency
            &&& s.cpus@.len() == 0 ==> stats.cpu_model@ == "Unknown"@ && stats.cpu_freq == 0
        },
{
}

/// The temperatures, the fan and the name of the graphics card are those that the sensors tell;
/// a card that no sensor names is the one that was found when the program started.
pub proof fn law_statistics_of_the_sensors<F: Copy, D: Copy>(
    s: Snapshot<F, D>,
    r: Option<SystemStats<F, D>>,
    components: &Vec<ComponentReading<F>>,
    sensed: SensorScan<F>,
    i: int,
)
    requires
        call_ensures(get_system_stats::<F, D>, (s,), r),
        components@ == s.components@,
        call_ensures(scan_sensors::<F>, (components,), sensed),
    ensures
        r matches Some(stats) ==> {
            &&& stats.cpu_temp is Some <==> sensed.cpu_temp is Some
            &&& sensed.cpu_temp matches Some(t) ==> stats.cpu_temp == Some(t.value)
            &&& stats.gpu_temp is Some <==> sensed.gpu_temp is Some
            &&& sensed.gpu_temp matches Some(t) ==> stats.gpu_temp == Some(t.value)
            &&& stats.gpu_fan_speed == sensed.gpu_fan_speed
            &&& sensed.gpu_name@ != "N/A"@ ==> stats.gpu_name@ == sensed.gpu_name@
            &&& sensed.gpu_name@ == "N/A"@ ==> stats.gpu_name@ == s.known_gpu@
            &&& stats.sensors@.len() == s.components@.len()
            &&& 0 <= i < s.components@.len() ==> {
                let shown = stats.sensors@[i];
                let read = s.components@[i];
                &&& shown.label@ == read.label@
                &&& shown.max_temp == read.max_temp
                &&& shown.critical_temp == read.critical_temp
                &&& shown.temp is Some <==> read.temp is Some
                &&& read.temp matches Some(t) ==> shown.temp == Some(t.value)
            }
        },
{
}

/// The score is that of the load, the memory, the temperature of the processor and the wear of the
/// battery; the battery is shown as it was read, and not where there is none.
pub proof fn law_statistics_of_health<F: Copy, D: Copy>(
    s: Snapshot<F, D>,
    r: Option<SystemStats<F, D>>,
    components: &Vec<ComponentReading<F>>,
    sensed: SensorScan<F>,
    cpu_temp: Option<i64>,
    battery_health: Option<i64>,
    score: u8,
)
    requires
        call_ensures(get_system_stats::<F, D>, (s,), r),
        components@ == s.components@,
        call_ensures(scan_sensors::<F>, (components,), sensed),
        match sensed.cpu_temp {
            Some(t) => cpu_temp == Some(t.ceiling),
            None => cpu_temp is None,
        },
        match s.battery {
            Some(b) => battery_health == b.health_floor,
            None => battery_health is None,
        },
        call_ensures(
            calculate_health_score,
            (
                s.cpu_usage_ceiling,
                s.memory_total,
                s.memory_pct_ceiling,
                cpu_temp,
                battery_health,
            ),
            score,
        ),
    ensures
        r matches Some(stats) ==> stats.health_score == score && (stats.battery is Some
            <==> s.battery is Some),
{
}

/// The battery of the statistics is told as a battery is told.
pub proof fn law_statistics_of_the_battery<F: Copy, D: Copy>(
    s: Snapshot<F, D>,
    r: Option<SystemStats<F, D>>,
    b: &BatteryReading<F>,
    told: BatteryStats<F>,
)
    requires
        call_ensures(get_system_stats::<F, D>, (s,), r),
        s.battery == Some(*b),
        call_ensures(battery_stats::<F>, (b,), told),
    ensures
        r matches Some(stats) ==> (stats.battery matches Some(shown) && shown.percentage
            == told.percentage && shown.is_charging == told.is_charging && shown.status@
            == told.status@ && shown.time_remaining == told.time_remaining && shown.health
            == told.health && shown.power_usage == told.power_usage && shown.cycle_count
            == told.cycle_count),
{
}

/// Memory, swap, disks, times and background readings are told as they were read, and every
/// process is listed once, in order.
pub proof fn law_statistics_of_the_system<F: Copy, D: Copy>(
    s: Snapshot<F, D>,
    r: Option<SystemStats<F, D>>,
    reports: u32,
    i: int,
)
    requires
        call_ensures(get_system_stats::<F, D>, (s,), r),
        call_ensures(get_crash_reports_count, (s.crash_reports,), reports),
    ensures
        r matches Some(stats) ==> {
            &&& stats.memory_used == s.memory_used
            &&& stats.memory_total == s.memory_total
            &&& stats.memory_free == s.memory_free
            &&& stats.memory_available == s.memory_available
            &&& stats.swap_total == s.swap_total
            &&& stats.swap_used == s.swap_used
            &&& stats.disks@ == s.disks@
            &&& stats.disk_read_speed == s.disk_read_speed
            &&& stats.disk_write_speed == s.disk_write_speed
            &&& stats.uptime == s.uptime
            &&& stats.last_boot_time == s.last_boot_time
            &&& stats.ping == s.ping
            &&& stats.wifi_signal == s.wifi_signal
            &&& stats.load_average == s.load_average
            &&& stats.gpu_usage == s.gpu_usage
            &&& stats.gpu_clock is None
            &&& stats.vram_used == s.vram_used
            &&& stats.vram_total == s.vram_total
            &&& stats.active_connections == s.processes@.len()
            &&& stats.processes@.len() == s.processes@.len()
            &&& 0 <= i < s.processes@.len() ==> stats.processes@[i] == s.processes@[i].info
            &&& s.os_name matches Some(n) ==> stats.os_name@ == n@
            &&& s.os_name is None ==> stats.os_name@.len() == 0
            &&& s.os_version matches Some(v) ==> stats.os_version@ == v@
            &&& s.os_version is None ==> stats.os_version@.len() == 0
            &&& s.local_ip matches Some(ip) ==> stats.local_ip@ == ip@
            &&& s.local_ip is None ==> stats.local_ip@ == "Unknown"@
            &&& stats.crash_reports_count == reports
        },
{
}

} // verus!
