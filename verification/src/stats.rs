//! The statistics of the system, put together from what the hardware and the operating system
//! report. `F` and `D` are the number types in which single and double precision readings are
//! carried through; nothing here computes with them.

use crate::encoding::lower;
#[allow(unused_imports)]
use crate::encoding::lowered;
#[allow(unused_imports)]
use crate::environment::or_empty;
use crate::health::calculate_health_score;
#[allow(unused_imports)]
use crate::health::health_score;
#[allow(unused_imports)]
use crate::text::{has, stands_at};
use crate::text::{chars_of, has_text, same_text};
use vstd::prelude::*;

verus! {

/// A disk.
#[derive(Debug, PartialEq)]
pub struct DiskInfo {
    pub name: String,
    pub total_space: u64,
    pub available_space: u64,
    pub kind: String,
}

/// A sensor.
#[derive(Debug, PartialEq)]
pub struct ComponentInfo<F> {
    pub label: String,
    pub temp: Option<F>,
    pub max_temp: Option<F>,
    pub critical_temp: Option<F>,
}

/// The battery.
#[derive(Debug, PartialEq)]
pub struct BatteryStats<F> {
    pub percentage: F,
    pub is_charging: bool,
    pub status: String,
    /// Seconds.
    pub time_remaining: Option<u64>,
    /// Percent of the energy that the battery was made for.
    pub health: Option<F>,
    pub power_usage: Option<F>,
    pub cycle_count: Option<u32>,
}

/// A running process.
#[derive(Debug, PartialEq)]
pub struct ProcessInfo<F> {
    pub name: String,
    pub pid: u32,
    pub parent_pid: Option<u32>,
    pub cpu_usage: F,
    pub memory: u64,
    pub run_duration: u64,
}

/// The statistics of the system.
pub struct SystemStats<F, D> {
    pub cpu_usage: F,
    pub cpu_cores: usize,
    pub physical_cores: usize,
    pub cpu_model: String,
    pub cpu_arch: String,
    pub cpu_freq: u64,
    pub cpus: Vec<F>,
    pub cpu_temp: Option<F>,
    pub memory_used: u64,
    pub memory_total: u64,
    pub os_name: String,
    pub os_version: String,
    pub uptime: u64,
    pub disks: Vec<DiskInfo>,
    pub net_received: u64,
    pub net_transmitted: u64,
    pub processes: Vec<ProcessInfo<F>>,
    pub gpu_name: String,
    pub gpu_usage: F,
    pub gpu_temp: Option<F>,
    pub gpu_clock: Option<u32>,
    pub gpu_fan_speed: Option<u32>,
    pub vram_used: u64,
    pub vram_total: u64,
    pub battery: Option<BatteryStats<F>>,
    pub disk_read_speed: u64,
    pub disk_write_speed: u64,
    pub ping: u32,
    pub wifi_signal: u32,
    pub load_average: [D; 3],
    pub memory_free: u64,
    pub memory_available: u64,
    pub swap_total: u64,
    pub swap_used: u64,
    pub sensors: Vec<ComponentInfo<F>>,
    pub local_ip: String,
    pub active_connections: usize,
    pub last_boot_time: u64,
    pub health_score: u8,
    pub crash_reports_count: u32,
}

/// A temperature, or whatever else a sensor measures.
pub struct Temperature<F> {
    pub value: F,
    /// The value, rounded up to a whole number.
    pub ceiling: i64,
    /// The value without its fraction.
    pub whole: u32,
}

impl<F: Copy> Clone for Temperature<F> {
    fn clone(&self) -> (r: Self)
        ensures
            r == *self,
    {
        *self
    }
}

impl<F: Copy> Copy for Temperature<F> {

}

/// What a sensor reports.
pub struct ComponentReading<F> {
    pub label: String,
    pub temp: Option<Temperature<F>>,
    pub max_temp: Option<F>,
    pub critical_temp: Option<F>,
}

/// What a core of the processor reports.
pub struct CpuReading<F> {
    pub brand: String,
    pub frequency: u64,
    pub usage: F,
}

/// What is known of a running process.
pub struct ProcessReading<F> {
    pub info: ProcessInfo<F>,
    /// The bytes that the process has read from disks.
    pub total_read_bytes: u64,
    /// The bytes that the process has written to disks.
    pub total_written_bytes: u64,
}

/// Whether the battery is being charged.
#[derive(Clone, Copy, PartialEq, Eq, Debug)]
pub enum BatteryState {
    Unknown,
    Charging,
    Discharging,
    Empty,
    Full,
}

/// What the battery reports.
pub struct BatteryReading<F> {
    pub percentage: F,
    pub state: BatteryState,
    /// Seconds.
    pub time_to_full: Option<u64>,
    /// Seconds.
    pub time_to_empty: Option<u64>,
    pub health: Option<F>,
    /// The health, rounded down to a whole number.
    pub health_floor: Option<i64>,
    pub power_usage: F,
    pub cycle_count: Option<u32>,
}

/// What a network interface has received and transmitted, in bytes.
#[derive(Clone, Copy)]
pub struct NetworkReading {
    pub total_received: u64,
    pub total_transmitted: u64,
}

/// All that is read at one moment.
pub struct Snapshot<F, D> {
    pub cpu_usage: F,
    /// The load of the processor in percent, rounded up.
    pub cpu_usage_ceiling: i64,
    pub cpus: Vec<CpuReading<F>>,
    pub physical_cores: Option<usize>,
    pub cpu_arch: String,
    pub memory_used: u64,
    pub memory_total: u64,
    /// The share of memory in use in percent, rounded up.
    pub memory_pct_ceiling: i64,
    pub memory_free: u64,
    pub memory_available: u64,
    pub swap_total: u64,
    pub swap_used: u64,
    pub os_name: Option<String>,
    pub os_version: Option<String>,
    pub uptime: u64,
    pub last_boot_time: u64,
    pub disks: Vec<DiskInfo>,
    pub networks: Vec<NetworkReading>,
    pub components: Vec<ComponentReading<F>>,
    pub processes: Vec<ProcessReading<F>>,
    pub battery: Option<BatteryReading<F>>,
    pub disk_read_speed: u64,
    pub disk_write_speed: u64,
    /// The graphics card that was found when the program started.
    pub known_gpu: String,
    pub gpu_usage: F,
    pub vram_used: u64,
    pub vram_total: u64,
    pub ping: u32,
    pub wifi_signal: u32,
    pub load_average: [D; 3],
    pub local_ip: Option<String>,
    /// The number of crash reports, where they can be counted.
    pub crash_reports: Option<usize>,
}

/// Whether the hardware is to be asked again, so many seconds after the last time: every ten
/// seconds, and at the first request where a list of it is still empty.
pub fn hardware_refresh_due(seconds: u64, first_run: bool, list_empty: bool) -> (r: bool)
    ensures
        r == (seconds >= 10 || (first_run && list_empty)),
{
    seconds >= 10 || (first_run && list_empty)
}

/// The milliseconds that it took to connect, in the low 32 bits; zero where no connection was
/// made.
pub fn get_latency(millis: Option<u128>) -> (r: u32)
    ensures
        r == (match millis {
            Some(n) => n % 0x1_0000_0000,
            None => 0,
        }),
{
    match millis {
        Some(n) => (n % 0x1_0000_0000) as u32,
        None => 0,
    }
}

/// The number of crash reports, in the low 32 bits; zero where they cannot be counted.
pub open spec fn crash_count(entries: Option<usize>) -> int {
    match entries {
        Some(n) => n as int % 0x1_0000_0000,
        None => 0,
    }
}

/// The number of crash reports, in the low 32 bits; zero where they cannot be counted.
pub fn get_crash_reports_count(entries: Option<usize>) -> (r: u32)
    ensures
        r == crash_count(entries),
{
    match entries {
        Some(n) => (n as u64 % 0x1_0000_0000) as u32,
        None => 0,
    }
}

/// The sum of several counters.
pub open spec fn sum(counters: Seq<u64>) -> nat
    decreases counters.len(),
{
    if counters.len() == 0 {
        0
    } else {
        sum(counters.drop_last()) + counters.last() as nat
    }
}

proof fn lemma_sum_grows(counters: Seq<u64>, n: int)
    requires
        0 <= n <= counters.len(),
    ensures
        sum(counters.take(n)) <= sum(counters),
    decreases counters.len() - n,
{
    if n < counters.len() {
        lemma_sum_grows(counters, n + 1);
        assert(counters.take(n + 1).drop_last() =~= counters.take(n));
    } else {
        assert(counters.take(n) =~= counters);
    }
}

/// The sum of several counters. `None` where it is more than a `u64` counts.
pub fn total(counters: &Vec<u64>) -> (r: Option<u64>)
    ensures
        match r {
            Some(n) => n == sum(counters@),
            None => sum(counters@) > u64::MAX,
        },
{
    let mut n: u64 = 0;
    let mut i: usize = 0;
    assert(counters@.take(0) =~= Seq::empty());
    while i < counters.len()
        invariant
            i <= counters.len(),
            n == sum(counters@.take(i as int)),
        decreases counters.len() - i,
    {
        proof {
            assert(counters@.take(i + 1).drop_last() =~= counters@.take(i as int));
            lemma_sum_grows(counters@, i + 1);
        }
        if counters[i] > u64::MAX - n {
            return None;
        }
        n += counters[i];
        i += 1;
    }
    assert(counters@.take(i as int) =~= counters@);
    Some(n)
}

/// What the network interfaces have received together.
pub open spec fn received(networks: Seq<NetworkReading>) -> nat {
    sum(networks.map_values(|n: NetworkReading| n.total_received))
}

/// What the network interfaces have transmitted together.
pub open spec fn transmitted(networks: Seq<NetworkReading>) -> nat {
    sum(networks.map_values(|n: NetworkReading| n.total_transmitted))
}

/// What the network interfaces have received and transmitted together. `None` where one of the two
/// is more than a `u64` counts.
pub fn network_totals(networks: &Vec<NetworkReading>) -> (r: Option<(u64, u64)>)
    ensures
        match r {
            Some((a, b)) => a == received(networks@) && b == transmitted(networks@),
            None => received(networks@) > u64::MAX || transmitted(networks@) > u64::MAX,
        },
{
    let mut a: Vec<u64> = Vec::new();
    let mut b: Vec<u64> = Vec::new();
    let mut i: usize = 0;
    while i < networks.len()
        invariant
            i <= networks.len(),
            a@ == networks@.take(i as int).map_values(|n: NetworkReading| n.total_received),
            b@ == networks@.take(i as int).map_values(|n: NetworkReading| n.total_transmitted),
        decreases networks.len() - i,
    {
        a.push(networks[i].total_received);
        b.push(networks[i].total_transmitted);
        i += 1;
    }
    assert(networks@.take(i as int) =~= networks@);
    match (total(&a), total(&b)) {
        (Some(x), Some(y)) => Some((x, y)),
        _ => None,
    }
}

/// What the processes have read from disks together.
pub open spec fn bytes_read<F>(processes: Seq<ProcessReading<F>>) -> nat {
    sum(processes.map_values(|p: ProcessReading<F>| p.total_read_bytes))
}

/// What the processes have written to disks together.
pub open spec fn bytes_written<F>(processes: Seq<ProcessReading<F>>) -> nat {
    sum(processes.map_values(|p: ProcessReading<F>| p.total_written_bytes))
}

/// What the processes have read from and written to disks together. `None` where one of the two is
/// more than a `u64` counts.
pub fn disk_totals<F>(processes: &Vec<ProcessReading<F>>) -> (r: Option<(u64, u64)>)
    ensures
        match r {
            Some((a, b)) => a == bytes_read(processes@) && b == bytes_written(processes@),
            None => bytes_read(processes@) > u64::MAX || bytes_written(processes@) > u64::MAX,
        },
{
    let mut a: Vec<u64> = Vec::new();
    let mut b: Vec<u64> = Vec::new();
    let mut i: usize = 0;
    while i < processes.len()
        invariant
            i <= processes.len(),
            a@ == processes@.take(i as int).map_values(|p: ProcessReading<F>| p.total_read_bytes),
            b@ == processes@.take(i as int).map_values(
                |p: ProcessReading<F>| p.total_written_bytes,
            ),
        decreases processes.len() - i,
    {
        a.push(processes[i].total_read_bytes);
        b.push(processes[i].total_written_bytes);
        i += 1;
    }
    assert(processes@.take(i as int) =~= processes@);
    match (total(&a), total(&b)) {
        (Some(x), Some(y)) => Some((x, y)),
        _ => None,
    }
}

/// The counters of disk traffic at the last sample.
pub struct DiskActivity {
    pub last_read: u64,
    pub last_write: u64,
}

/// The bytes that were moved since the last sample, to be divided by the time between. None
/// where there is nothing to divide: no time has passed, or nothing was counted before.
#[derive(Debug, PartialEq)]
pub struct DiskDelta {
    pub read: Option<u64>,
    pub write: Option<u64>,
}

/// The bytes between two counts. A count that has fallen gives none.
pub open spec fn delta(last: u64, current: u64, time_passed: bool) -> Option<u64> {
    if time_passed && last > 0 {
        Some(
            if current >= last {
                (current - last) as u64
            } else {
                0
            },
        )
    } else {
        None
    }
}

impl DiskActivity {
    /// Nothing has been counted yet.
    pub fn new() -> (r: DiskActivity)
        ensures
            r.last_read == 0,
            r.last_write == 0,
    {
        DiskActivity { last_read: 0, last_write: 0 }
    }

    /// Takes a sample: the bytes read and written so far, and whether time has passed since the
    /// last sample.
    pub fn sample(&mut self, read_total: u64, write_total: u64, time_passed: bool) -> (r: DiskDelta)
        ensures
            r.read == delta(old(self).last_read, read_total, time_passed),
            r.write == delta(old(self).last_write, write_total, time_passed),
            final(self).last_read == read_total,
            final(self).last_write == write_total,
    {
        let read: Option<u64> = if time_passed && self.last_read > 0 {
            Some(
                if read_total >= self.last_read {
                    read_total - self.last_read
                } else {
                    0
                },
            )
        } else {
            None
        };
        let write: Option<u64> = if time_passed && self.last_write > 0 {
            Some(
                if write_total >= self.last_write {
                    write_total - self.last_write
                } else {
                    0
                },
            )
        } else {
            None
        };
        self.last_read = read_total;
        self.last_write = write_total;
        DiskDelta { read, write }
    }
}

/// The bytes that a row of samples counts, from the given count on.
pub open spec fn counted(last: u64, samples: Seq<u64>) -> nat
    decreases samples.len(),
{
    if samples.len() == 0 {
        0
    } else {
        (match delta(last, samples[0], true) {
            Some(d) => d as nat,
            None => 0,
        }) + counted(samples[0], samples.drop_first())
    }
}

/// As long as a counter does not fall, a row of samples counts every byte once: what it counts is
/// the difference between its last count and the count before it.
pub proof fn law_disk_traffic_adds_up(last: u64, samples: Seq<u64>)
    requires
        last > 0,
        samples.len() > 0,
        last <= samples[0],
        forall|i: int, j: int| 0 <= i <= j < samples.len() ==> samples[i] <= samples[j],
    ensures
        counted(last, samples) == samples.last() - last,
    decreases samples.len(),
{
    let rest = samples.drop_first();
    if rest.len() > 0 {
        assert(rest[0] == samples[1]);
        law_disk_traffic_adds_up(samples[0], rest);
        assert(rest.last() == samples.last());
    } else {
        assert(counted(samples[0], rest) == 0);
    }
}

/// Whether a lower-case label is one of the processor.
pub open spec fn is_cpu_label(label: Seq<char>) -> bool {
    has(label, "cpu"@) || has(label, "package"@)
}

/// Whether a lower-case label is one of the graphics card.
pub open spec fn is_gpu_label(label: Seq<char>) -> bool {
    has(label, "gpu"@) || has(label, "nvidia"@) || has(label, "amd"@) || has(label, "graphics"@)
}

/// What a sensor measures.
#[derive(Clone, Copy)]
pub struct SensorKind {
    pub cpu: bool,
    pub gpu: bool,
    pub fan: bool,
}

/// What a sensor measures, by its lower-case label.
pub fn sensor_kind(label: &str) -> (r: SensorKind)
    ensures
        r.cpu == is_cpu_label(label@),
        r.gpu == is_gpu_label(label@),
        r.fan == has(label@, "fan"@),
{
    let cs: Vec<char> = chars_of(label);
    let cs: &[char] = cs.as_slice();
    SensorKind {
        cpu: has_text(cs, "cpu") || has_text(cs, "package"),
        gpu: has_text(cs, "gpu") || has_text(cs, "nvidia") || has_text(cs, "amd") || has_text(
            cs,
            "graphics",
        ),
        fan: has_text(cs, "fan"),
    }
}

/// What the sensors tell of the processor and the graphics card.
pub struct SensorScan<F> {
    pub cpu_temp: Option<Temperature<F>>,
    pub gpu_name: String,
    pub gpu_temp: Option<Temperature<F>>,
    pub gpu_fan_speed: Option<u32>,
}

/// The contents of a [`SensorScan`].
pub struct ScanView<F> {
    pub cpu_temp: Option<Temperature<F>>,
    pub gpu_name: Seq<char>,
    pub gpu_temp: Option<Temperature<F>>,
    pub gpu_fan_speed: Option<u32>,
}

impl<F> View for SensorScan<F> {
    type V = ScanView<F>;

    open spec fn view(&self) -> ScanView<F> {
        ScanView {
            cpu_temp: self.cpu_temp,
            gpu_name: self.gpu_name@,
            gpu_temp: self.gpu_temp,
            gpu_fan_speed: self.gpu_fan_speed,
        }
    }
}

/// The part of a reading that counts the turns of a fan.
pub open spec fn whole_of<F>(temp: Option<Temperature<F>>) -> Option<u32> {
    match temp {
        Some(t) => Some(t.whole),
        None => None,
    }
}

/// What the sensors tell, after one more sensor.
pub open spec fn scan_step<F>(before: ScanView<F>, c: ComponentReading<F>) -> ScanView<F> {
    let label = lowered(c.label@);
    let gpu = is_gpu_label(label);
    ScanView {
        cpu_temp: if before.cpu_temp is None && is_cpu_label(label) {
            c.temp
        } else {
            before.cpu_temp
        },
        gpu_name: if gpu && before.gpu_name == "N/A"@ {
            c.label@
        } else {
            before.gpu_name
        },
        gpu_temp: if gpu && before.gpu_temp is None {
            c.temp
        } else {
            before.gpu_temp
        },
        gpu_fan_speed: if gpu && has(label, "fan"@) {
            whole_of(c.temp)
        } else {
            before.gpu_fan_speed
        },
    }
}

/// What several sensors tell, one after the other.
pub open spec fn scan<F>(components: Seq<ComponentReading<F>>) -> ScanView<F>
    decreases components.len(),
{
    if components.len() == 0 {
        ScanView { cpu_temp: None, gpu_name: "N/A"@, gpu_temp: None, gpu_fan_speed: None }
    } else {
        scan_step(scan(components.drop_last()), components.last())
    }
}

/// What the sensors tell of the processor and the graphics card.
pub fn scan_sensors<F: Copy>(components: &Vec<ComponentReading<F>>) -> (r: SensorScan<F>)
    ensures
        r@ == scan(components@),
{
    let mut r: SensorScan<F> = SensorScan {
        cpu_temp: None,
        gpu_name: "N/A".to_string(),
        gpu_temp: None,
        gpu_fan_speed: None,
    };
    let mut i: usize = 0;
    assert(components@.take(0) =~= Seq::empty());
    while i < components.len()
        invariant
            i <= components.len(),
            r@ == scan(components@.take(i as int)),
        decreases components.len() - i,
    {
        let c: &ComponentReading<F> = &components[i];
        assert(components@.take(i + 1).drop_last() =~= components@.take(i as int));
        let label: String = lower(c.label.as_str());
        let kind: SensorKind = sensor_kind(label.as_str());
        if r.cpu_temp.is_none() && kind.cpu {
            r.cpu_temp = c.temp;
        }
        if kind.gpu {
            if same_text(r.gpu_name.as_str(), "N/A") {
                r.gpu_name = c.label.clone();
            }
            if r.gpu_temp.is_none() {
                r.gpu_temp = c.temp;
            }
            if kind.fan {
                r.gpu_fan_speed = match c.temp {
                    Some(t) => Some(t.whole),
                    None => None,
                };
            }
        }
        i += 1;
    }
    assert(components@.take(i as int) =~= components@);
    r
}

/// Whether a sensor measures the temperature of the processor.
pub open spec fn reads_cpu<F>(c: ComponentReading<F>) -> bool {
    c.temp is Some && is_cpu_label(lowered(c.label@))
}

/// The temperature of the processor is what the first sensor that measures it reads, and it is
/// missing only where no sensor does.
pub proof fn law_cpu_temperature_is_the_first_reading<F>(
    components: Seq<ComponentReading<F>>,
    first: int,
)
    requires
        0 <= first <= components.len(),
        forall|i: int| 0 <= i < first ==> !reads_cpu(#[trigger] components[i]),
        first < components.len() ==> reads_cpu(components[first]),
    ensures
        scan(components).cpu_temp == (if first < components.len() {
            components[first].temp
        } else {
            None
        }),
    decreases components.len(),
{
    if components.len() > 0 {
        let before = components.drop_last();
        assert(forall|i: int| 0 <= i < before.len() ==> before[i] == components[i]);
        if first < components.len() {
            law_cpu_temperature_is_the_first_reading(before, first);
        } else {
            assert(!reads_cpu(components[components.len() - 1]));
            law_cpu_temperature_is_the_first_reading(before, first - 1);
        }
    }
}

/// Whether a sensor belongs to the graphics card.
pub open spec fn of_gpu<F>(c: ComponentReading<F>) -> bool {
    is_gpu_label(lowered(c.label@))
}

proof fn lemma_missing_name_is_no_gpu_label()
    ensures
        !is_gpu_label(lowered("N/A"@)),
{
    reveal_strlit("N/A");
    reveal_strlit("gpu");
    reveal_strlit("nvidia");
    reveal_strlit("amd");
    reveal_strlit("graphics");
    let label = lowered("N/A"@);
    assert(label[0] == 'n');
    assert forall|i: int| !stands_at(label, i, "gpu"@) by {
        if stands_at(label, i, "gpu"@) {
            assert(label.subrange(i, i + 3)[0] == 'g');
        }
    }
    assert forall|i: int| !stands_at(label, i, "amd"@) by {
        if stands_at(label, i, "amd"@) {
            assert(label.subrange(i, i + 3)[0] == 'a');
        }
    }
}

/// The graphics card is named by its first sensor, and it has no name only where no sensor
/// belongs to it.
pub proof fn law_graphics_card_is_named_by_its_first_sensor<F>(
    components: Seq<ComponentReading<F>>,
    first: int,
)
    requires
        0 <= first <= components.len(),
        forall|i: int| 0 <= i < first ==> !of_gpu(#[trigger] components[i]),
        first < components.len() ==> of_gpu(components[first]),
    ensures
        scan(components).gpu_name == (if first < components.len() {
            components[first].label@
        } else {
            "N/A"@
        }),
    decreases components.len(),
{
    lemma_missing_name_is_no_gpu_label();
    if components.len() > 0 {
        let before = components.drop_last();
        assert(forall|i: int| 0 <= i < before.len() ==> before[i] == components[i]);
        if first < components.len() {
            law_graphics_card_is_named_by_its_first_sensor(before, first);
        } else {
            assert(!of_gpu(components[components.len() - 1]));
            law_graphics_card_is_named_by_its_first_sensor(before, first - 1);
        }
    }
}

/// Whether a sensor measures the temperature of the graphics card.
pub open spec fn reads_gpu<F>(c: ComponentReading<F>) -> bool {
    c.temp is Some && of_gpu(c)
}

/// The temperature of the graphics card is what the first of its sensors with a reading reads, and
/// it is missing only where none of them has one.
pub proof fn law_gpu_temperature_is_the_first_reading<F>(
    components: Seq<ComponentReading<F>>,
    first: int,
)
    requires
        0 <= first <= components.len(),
        forall|i: int| 0 <= i < first ==> !reads_gpu(#[trigger] components[i]),
        first < components.len() ==> reads_gpu(components[first]),
    ensures
        scan(components).gpu_temp == (if first < components.len() {
            components[first].temp
        } else {
            None
        }),
    decreases components.len(),
{
    if components.len() > 0 {
        let before = components.drop_last();
        assert(forall|i: int| 0 <= i < before.len() ==> before[i] == components[i]);
        if first < components.len() {
            law_gpu_temperature_is_the_first_reading(before, first);
        } else {
            assert(!reads_gpu(components[components.len() - 1]));
            law_gpu_temperature_is_the_first_reading(before, first - 1);
        }
    }
}

/// Whether a sensor counts the turns of a fan of the graphics card.
pub open spec fn of_gpu_fan<F>(c: ComponentReading<F>) -> bool {
    of_gpu(c) && has(lowered(c.label@), "fan"@)
}

/// The speed of the fan of the graphics card is what the last of its fan sensors reads, and it is
/// missing where that sensor has no reading or there is no such sensor.
pub proof fn law_fan_speed_is_the_last_reading<F>(components: Seq<ComponentReading<F>>, last: int)
    requires
        -1 <= last < components.len(),
        forall|i: int| last < i < components.len() ==> !of_gpu_fan(#[trigger] components[i]),
        last >= 0 ==> of_gpu_fan(components[last]),
    ensures
        scan(components).gpu_fan_speed == (if last >= 0 {
            whole_of(components[last].temp)
        } else {
            None
        }),
    decreases components.len(),
{
    if components.len() > 0 && last < components.len() - 1 {
        let before = components.drop_last();
        assert(!of_gpu_fan(components[components.len() - 1]));
        assert(forall|i: int| 0 <= i < before.len() ==> before[i] == components[i]);
        law_fan_speed_is_the_last_reading(before, last);
    }
}

/// How a state of the battery is written.
pub open spec fn state_text(state: BatteryState) -> Seq<char> {
    match state {
        BatteryState::Unknown => "Unknown"@,
        BatteryState::Charging => "Charging"@,
        BatteryState::Discharging => "Discharging"@,
        BatteryState::Empty => "Empty"@,
        BatteryState::Full => "Full"@,
    }
}

/// Whether `s` tells what the battery reports.
pub open spec fn tells_battery<F>(s: BatteryStats<F>, b: BatteryReading<F>) -> bool {
    &&& s.percentage == b.percentage
    &&& s.is_charging == (b.state is Charging || b.state is Full)
    &&& s.status@ == state_text(b.state)
    &&& s.time_remaining == (if b.time_to_full is Some {
        b.time_to_full
    } else {
        b.time_to_empty
    })
    &&& s.health == b.health
    &&& s.power_usage == Some(b.power_usage)
    &&& s.cycle_count == b.cycle_count
}

/// The statistics of the battery: it counts as charging when it is full, and the time that remains
/// is that until it is full, or else that until it is empty.
pub fn battery_stats<F: Copy>(b: &BatteryReading<F>) -> (r: BatteryStats<F>)
    ensures
        tells_battery(r, *b),
{
    let is_charging: bool = match b.state {
        BatteryState::Charging | BatteryState::Full => true,
        _ => false,
    };
    let status: &str = match b.state {
        BatteryState::Unknown => "Unknown",
        BatteryState::Charging => "Charging",
        BatteryState::Discharging => "Discharging",
        BatteryState::Empty => "Empty",
        BatteryState::Full => "Full",
    };
    let time_remaining: Option<u64> = if b.time_to_full.is_some() {
        b.time_to_full
    } else {
        b.time_to_empty
    };
    BatteryStats {
        percentage: b.percentage,
        is_charging,
        status: status.to_string(),
        time_remaining,
        health: b.health,
        power_usage: Some(b.power_usage),
        cycle_count: b.cycle_count,
    }
}

/// The value of a temperature.
pub open spec fn value_of<F>(temp: Option<Temperature<F>>) -> Option<F> {
    match temp {
        Some(t) => Some(t.value),
        None => None,
    }
}

/// A temperature, rounded up.
pub open spec fn ceiling_of<F>(temp: Option<Temperature<F>>) -> Option<i64> {
    match temp {
        Some(t) => Some(t.ceiling),
        None => None,
    }
}

/// The sensor that a reading describes.
pub open spec fn component_of<F>(c: ComponentReading<F>) -> ComponentInfo<F> {
    ComponentInfo {
        label: c.label,
        temp: value_of(c.temp),
        max_temp: c.max_temp,
        critical_temp: c.critical_temp,
    }
}

/// Whether `r` tells what a snapshot holds of the processor and the sensors.
pub open spec fn tells_hardware<F, D>(r: SystemStats<F, D>, s: Snapshot<F, D>) -> bool {
    &&& r.cpu_usage == s.cpu_usage
    &&& r.cpu_cores == s.cpus@.len()
    &&& r.physical_cores == (match s.physical_cores {
        Some(n) => n as int,
        None => s.cpus@.len() as int,
    })
    &&& r.cpu_model@ == (if s.cpus@.len() > 0 {
        s.cpus@[0].brand@
    } else {
        "Unknown"@
    })
    &&& r.cpu_arch@ == s.cpu_arch@
    &&& r.cpu_freq == (if s.cpus@.len() > 0 {
        s.cpus@[0].frequency
    } else {
        0
    })
    &&& r.cpus@ == s.cpus@.map_values(|c: CpuReading<F>| c.usage)
    &&& r.cpu_temp == value_of(scan(s.components@).cpu_temp)
    &&& r.gpu_name@ == (if scan(s.components@).gpu_name == "N/A"@ {
        s.known_gpu@
    } else {
        scan(s.components@).gpu_name
    })
    &&& r.gpu_usage == s.gpu_usage
    &&& r.gpu_temp == value_of(scan(s.components@).gpu_temp)
    &&& r.gpu_clock is None
    &&& r.gpu_fan_speed == scan(s.components@).gpu_fan_speed
    &&& r.vram_used == s.vram_used
    &&& r.vram_total == s.vram_total
    &&& r.sensors@ == s.components@.map_values(|c: ComponentReading<F>| component_of(c))
    &&& match (r.battery, s.battery) {
        (Some(b), Some(reading)) => tells_battery(b, reading),
        (None, None) => true,
        _ => false,
    }
}

/// Whether `r` tells what a snapshot holds of memory, disks, networks, processes and the operating
/// system.
pub open spec fn tells_system<F, D>(r: SystemStats<F, D>, s: Snapshot<F, D>) -> bool {
    &&& r.memory_used == s.memory_used
    &&& r.memory_total == s.memory_total
    &&& r.memory_free == s.memory_free
    &&& r.memory_available == s.memory_available
    &&& r.swap_total == s.swap_total
    &&& r.swap_used == s.swap_used
    &&& r.os_name@ == or_empty(s.os_name)
    &&& r.os_version@ == or_empty(s.os_version)
    &&& r.uptime == s.uptime
    &&& r.last_boot_time == s.last_boot_time
    &&& r.disks == s.disks
    &&& r.disk_read_speed == s.disk_read_speed
    &&& r.disk_write_speed == s.disk_write_speed
    &&& r.net_received == received(s.networks@)
    &&& r.net_transmitted == transmitted(s.networks@)
    &&& r.processes@ == s.processes@.map_values(|p: ProcessReading<F>| p.info)
    &&& r.active_connections == s.processes@.len()
    &&& r.ping == s.ping
    &&& r.wifi_signal == s.wifi_signal
    &&& r.load_average == s.load_average
    &&& r.local_ip@ == (match s.local_ip {
        Some(ip) => ip@,
        None => "Unknown"@,
    })
    &&& r.health_score == health_score(
        s.cpu_usage_ceiling,
        s.memory_total,
        s.memory_pct_ceiling,
        ceiling_of(scan(s.components@).cpu_temp),
        match s.battery {
            Some(b) => b.health_floor,
            None => None,
        },
    )
    &&& r.crash_reports_count == crash_count(s.crash_reports)
}

fn sensors_of<F: Copy>(components: Vec<ComponentReading<F>>) -> (r: Vec<ComponentInfo<F>>)
    ensures
        r@ == components@.map_values(|c: ComponentReading<F>| component_of(c)),
{
    let mut r: Vec<ComponentInfo<F>> = Vec::new();
    let ghost all = components@;
    for c in it: components
        invariant
            it.seq() == all,
            r@ == all.take(it.index() as int).map_values(|c: ComponentReading<F>| component_of(c)),
    {
        let temp: Option<F> = match c.temp {
            Some(t) => Some(t.value),
            None => None,
        };
        r.push(
            ComponentInfo {
                label: c.label,
                temp,
                max_temp: c.max_temp,
                critical_temp: c.critical_temp,
            },
        );
    }
    assert(all.take(all.len() as int) =~= all);
    r
}

fn processes_of<F>(processes: Vec<ProcessReading<F>>) -> (r: Vec<ProcessInfo<F>>)
    ensures
        r@ == processes@.map_values(|p: ProcessReading<F>| p.info),
{
    let mut r: Vec<ProcessInfo<F>> = Vec::new();
    let ghost all = processes@;
    for p in it: processes
        invariant
            it.seq() == all,
            r@ == all.take(it.index() as int).map_values(|p: ProcessReading<F>| p.info),
    {
        r.push(p.info);
    }
    assert(all.take(all.len() as int) =~= all);
    r
}

fn usages_of<F: Copy>(cpus: &Vec<CpuReading<F>>) -> (r: Vec<F>)
    ensures
        r@ == cpus@.map_values(|c: CpuReading<F>| c.usage),
{
    let mut r: Vec<F> = Vec::new();
    let mut i: usize = 0;
    while i < cpus.len()
        invariant
            i <= cpus.len(),
            r@ == cpus@.take(i as int).map_values(|c: CpuReading<F>| c.usage),
        decreases cpus.len() - i,
    {
        r.push(cpus[i].usage);
        i += 1;
    }
    assert(cpus@.take(i as int) =~= cpus@);
    r
}

fn or_default(s: Option<String>) -> (r: String)
    ensures
        r@ == or_empty(s),
{
    match s {
        Some(t) => t,
        None => String::new(),
    }
}

/// Puts the statistics of the system together. `None` where the network interfaces have received
/// or transmitted more bytes than a `u64` counts.
pub fn get_system_stats<F: Copy, D: Copy>(s: Snapshot<F, D>) -> (r: Option<SystemStats<F, D>>)
    ensures
        r is Some <==> received(s.networks@) <= u64::MAX && transmitted(s.networks@) <= u64::MAX,
        r matches Some(stats) ==> tells_hardware(stats, s) && tells_system(stats, s),
{
    let (net_received, net_transmitted) = match network_totals(&s.networks) {
        Some(totals) => totals,
        None => {
            return None;
        },
    };
    let cpu_cores: usize = s.cpus.len();
    let physical_cores: usize = match s.physical_cores {
        Some(n) => n,
        None => cpu_cores,
    };
    let (cpu_model, cpu_freq): (String, u64) = if cpu_cores > 0 {
        (s.cpus[0].brand.clone(), s.cpus[0].frequency)
    } else {
        ("Unknown".to_string(), 0)
    };
    let cpus: Vec<F> = usages_of(&s.cpus);
    let sensed: SensorScan<F> = scan_sensors(&s.components);
    let cpu_temp_ceiling: Option<i64> = match sensed.cpu_temp {
        Some(t) => Some(t.ceiling),
        None => None,
    };
    let cpu_temp: Option<F> = match sensed.cpu_temp {
        Some(t) => Some(t.value),
        None => None,
    };
    let gpu_temp: Option<F> = match sensed.gpu_temp {
        Some(t) => Some(t.value),
        None => None,
    };
    let battery: Option<BatteryStats<F>> = match &s.battery {
        Some(b) => Some(battery_stats(b)),
        None => None,
    };
    let battery_health: Option<i64> = match &s.battery {
        Some(b) => b.health_floor,
        None => None,
    };
    let score: u8 = calculate_health_score(
        s.cpu_usage_ceiling,
        s.memory_total,
        s.memory_pct_ceiling,
        cpu_temp_ceiling,
        battery_health,
    );
    let gpu_name: String = if same_text(sensed.gpu_name.as_str(), "N/A") {
        s.known_gpu
    } else {
        sensed.gpu_name
    };
    let local_ip: String = match s.local_ip {
        Some(ip) => ip,
        None => "Unknown".to_string(),
    };
    let active_connections: usize = s.processes.len();
    Some(
        SystemStats {
            cpu_usage: s.cpu_usage,
            cpu_cores,
            physical_cores,
            cpu_model,
            cpu_arch: s.cpu_arch,
            cpu_freq,
            cpus,
            cpu_temp,
            memory_used: s.memory_used,
            memory_total: s.memory_total,
            os_name: or_default(s.os_name),
            os_version: or_default(s.os_version),
            uptime: s.uptime,
            disks: s.disks,
            net_received,
            net_transmitted,
            processes: processes_of(s.processes),
            gpu_name,
            gpu_usage: s.gpu_usage,
            gpu_temp,
            gpu_clock: None,
            gpu_fan_speed: sensed.gpu_fan_speed,
            vram_used: s.vram_used,
            vram_total: s.vram_total,
            battery,
            disk_read_speed: s.disk_read_speed,
            disk_write_speed: s.disk_write_speed,
            ping: s.ping,
            wifi_signal: s.wifi_signal,
            load_average: s.load_average,
            memory_free: s.memory_free,
            memory_available: s.memory_available,
            swap_total: s.swap_total,
            swap_used: s.swap_used,
            sensors: sensors_of(s.components),
            local_ip,
            active_connections,
            last_boot_time: s.last_boot_time,
            health_score: score,
            crash_reports_count: get_crash_reports_count(s.crash_reports),
        },
    )
}

} // verus!
