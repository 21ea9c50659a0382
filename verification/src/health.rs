//! The health score of the system.

use vstd::prelude::*;

verus! {

/// What the load of the processor takes off the score.
pub open spec fn cpu_penalty(usage: int) -> int {
    if usage > 90 {
        20
    } else if usage > 70 {
        10
    } else {
        0
    }
}

/// What the use of memory takes off the score; nothing where the size of memory is not known.
pub open spec fn memory_penalty(memory_total: int, memory_pct: int) -> int {
    if memory_total > 0 {
        if memory_pct > 95 {
            25
        } else if memory_pct > 80 {
            15
        } else {
            0
        }
    } else {
        0
    }
}

/// What the temperature of the processor takes off the score; nothing where it is not known.
pub open spec fn temperature_penalty(cpu_temp: Option<i64>) -> int {
    match cpu_temp {
        Some(t) => if t > 90 {
            20
        } else if t > 75 {
            10
        } else {
            0
        },
        None => 0,
    }
}

/// What the wear of the battery takes off the score; nothing where it is not known.
pub open spec fn battery_penalty(battery_health: Option<i64>) -> int {
    match battery_health {
        Some(h) => if h < 70 {
            15
        } else if h < 85 {
            5
        } else {
            0
        },
        None => 0,
    }
}

/// The health score: a hundred, less what the readings take off.
pub open spec fn health_score(
    cpu_usage: i64,
    memory_total: u64,
    memory_pct: i64,
    cpu_temp: Option<i64>,
    battery_health: Option<i64>,
) -> int {
    100 - cpu_penalty(cpu_usage as int) - memory_penalty(memory_total as int, memory_pct as int)
        - temperature_penalty(cpu_temp) - battery_penalty(battery_health)
}

/// The health score of the system. The load of the processor, the share of memory in use and the
/// temperature of the processor are rounded up to whole numbers, and the health of the battery is
/// rounded down, which changes no comparison with a whole number.
pub fn calculate_health_score(
    cpu_usage: i64,
    memory_total: u64,
    memory_pct: i64,
    cpu_temp: Option<i64>,
    battery_health: Option<i64>,
) -> (r: u8)
    ensures
        r == health_score(cpu_usage, memory_total, memory_pct, cpu_temp, battery_health),
{
    let mut score: i16 = 100;
    if cpu_usage > 90 {
        score -= 20;
    } else if cpu_usage > 70 {
        score -= 10;
    }
    if memory_total > 0 {
        if memory_pct > 95 {
            score -= 25;
        } else if memory_pct > 80 {
            score -= 15;
        }
    }
    if let Some(t) = cpu_temp {
        if t > 90 {
            score -= 20;
        } else if t > 75 {
            score -= 10;
        }
    }
    if let Some(h) = battery_health {
        if h < 70 {
            score -= 15;
        } else if h < 85 {
            score -= 5;
        }
    }
    score as u8
}

/// The score stays between twenty and a hundred, and is a hundred where nothing is amiss.
pub proof fn law_score_in_range(
    cpu_usage: i64,
    memory_total: u64,
    memory_pct: i64,
    cpu_temp: Option<i64>,
    battery_health: Option<i64>,
)
    ensures
        20 <= health_score(cpu_usage, memory_total, memory_pct, cpu_temp, battery_health) <= 100,
        health_score(cpu_usage, memory_total, memory_pct, cpu_temp, battery_health) == 100 <==> (
        cpu_usage <= 70 && (memory_total == 0 || memory_pct <= 80) && (cpu_temp is None
            || cpu_temp->0 <= 75) && (battery_health is None || battery_health->0 >= 85)),
{
}

/// Whether a temperature that may be missing is no better than another: it is known and no lower,
/// or the other is not known.
pub open spec fn no_cooler(temp: Option<i64>, than: Option<i64>) -> bool {
    than is None || (temp is Some && temp->0 >= than->0)
}

/// Whether the health of a battery that may be missing is no better than another: it is known and
/// no higher, or the other is not known.
pub open spec fn no_healthier(health: Option<i64>, than: Option<i64>) -> bool {
    than is None || (health is Some && health->0 <= than->0)
}

/// A higher load, a fuller memory, a hotter processor or a more worn battery never raises the
/// score, nor does a reading that was missing before.
pub proof fn law_score_never_rises_with_worse_readings(
    cpu_usage: (i64, i64),
    memory_total: u64,
    memory_pct: (i64, i64),
    cpu_temp: (Option<i64>, Option<i64>),
    battery_health: (Option<i64>, Option<i64>),
)
    requires
        cpu_usage.1 >= cpu_usage.0,
        memory_pct.1 >= memory_pct.0,
        no_cooler(cpu_temp.1, cpu_temp.0),
        no_healthier(battery_health.1, battery_health.0),
    ensures
        health_score(cpu_usage.1, memory_total, memory_pct.1, cpu_temp.1, battery_health.1)
            <= health_score(cpu_usage.0, memory_total, memory_pct.0, cpu_temp.0, battery_health.0),
{
}

} // verus!
