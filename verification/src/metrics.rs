//! The single-round-trip metrics protocol: the composite remote probe
//! command and the two-tier parser for its one-line output. The shape
//! check (exactly five `|`-separated fields) is fatal; each numeric
//! sub-field is tolerant and falls back to a safe default on its own.
//!
//! Numeric fields carry two decimal places on the wire, so every value
//! is held in hundredths (`*_centi`) of its unit: a cpu reading of
//! `12.5` percent is stored as `1250`.

use vstd::prelude::*;
use crate::text::{
    all_digits, dec_val, field_centi, parse_centi, parse_digits, split_on, split_str, split_ws,
    split_whitespace_str, trim, trimmed,
};

verus! {

/// A fresh metrics snapshot; transient, never persisted by this core.
#[derive(Debug, Clone)]
pub struct SystemMetrics {
    pub cpu_usage_centi: i64,
    pub memory_used_mb_centi: i64,
    pub memory_total_mb_centi: i64,
    pub memory_percent_centi: i64,
    pub disk_used_gb_centi: i64,
    pub disk_total_gb_centi: i64,
    pub disk_percent_centi: i64,
    pub uptime_seconds: u64,
    pub load_average: String,
    pub timestamp: i64,
}

/// A metrics call fails only structurally: the remote output did not
/// split into exactly five fields. The raw output is carried along.
#[derive(Debug)]
pub enum CollectionError {
    UnexpectedFormat { output: String },
}

impl CollectionError {
    /// The descriptive failure text, naming the raw output.
    pub fn message(&self) -> (r: String)
        ensures
            (self matches CollectionError::UnexpectedFormat { output }
                ==> r@ == "Unexpected metrics output format: "@ + output@),
    {
        match self {
            CollectionError::UnexpectedFormat { output } => {
                let mut out = "Unexpected metrics output format: ".to_owned();
                out.append(output.as_str());
                out
            },
        }
    }
}

/// The shell probe: one composite command whose single output line is
/// `cpu|used total percent|used total percent|uptime|load1,load5,load15`.
pub open spec fn spec_metrics_command() -> Seq<char> {
    "
        cpu=$(top -bn2 -d 0.5 | grep \"Cpu(s)\" | tail -1 | awk '{print 100 - $8}')

        mem=$(free -m | awk 'NR==2{printf \"%.2f %.2f %.2f\", $3, $2, $3*100/$2}')

        disk=$(df -BG / | awk 'NR==2{gsub(/G/, \"\", $3); gsub(/G/, \"\", $2); printf \"%.2f %.2f %.2f\", $3, $2, $3*100/$2}')

        uptime=$(awk '{print int($1)}' /proc/uptime)

        loadavg=$(cat /proc/loadavg | awk '{print $1\",\"$2\",\"$3}')

        echo \"$cpu|$mem|$disk|$uptime|$loadavg\"
    "@
}

/// The probe command handed to the remote shell.
pub fn metrics_command() -> (r: &'static str)
    ensures
        r@ == spec_metrics_command(),
{
    "
        cpu=$(top -bn2 -d 0.5 | grep \"Cpu(s)\" | tail -1 | awk '{print 100 - $8}')

        mem=$(free -m | awk 'NR==2{printf \"%.2f %.2f %.2f\", $3, $2, $3*100/$2}')

        disk=$(df -BG / | awk 'NR==2{gsub(/G/, \"\", $3); gsub(/G/, \"\", $2); printf \"%.2f %.2f %.2f\", $3, $2, $3*100/$2}')

        uptime=$(awk '{print int($1)}' /proc/uptime)

        loadavg=$(cat /proc/loadavg | awk '{print $1\",\"$2\",\"$3}')

        echo \"$cpu|$mem|$disk|$uptime|$loadavg\"
    "
}

/// The five top-level fields of a probe output: the whole line is
/// trimmed, then cut at every `|`.
pub open spec fn metrics_fields(s: Seq<char>) -> Seq<Seq<char>> {
    split_on(trimmed(s), '|')
}

/// Structural validity: exactly five top-level fields.
pub open spec fn structurally_valid(s: Seq<char>) -> bool {
    metrics_fields(s).len() == 5
}

/// Tolerant reading of the `k`-th whitespace-separated sub-value of a
/// field; a missing sub-value counts as unparsable.
pub open spec fn sub_centi(parts: Seq<Seq<char>>, k: int, default: int) -> int {
    if 0 <= k < parts.len() {
        field_centi(parts[k], default)
    } else {
        default
    }
}

/// Tolerant reading of the uptime field: a plain digit string that
/// fits a `u64`, anything else counting as zero.
pub open spec fn spec_uptime(s: Seq<char>) -> u64 {
    if s.len() > 0 && all_digits(s) && dec_val(s) <= u64::MAX {
        dec_val(s) as u64
    } else {
        0
    }
}

/// What each field of a successful parse holds, given the probe output
/// and the collector's completion time.
pub open spec fn parses_to(m: SystemMetrics, s: Seq<char>, timestamp: i64) -> bool {
    let fields = metrics_fields(s);
    let mem = split_ws(fields[1]);
    let disk = split_ws(fields[2]);
    &&& m.cpu_usage_centi == field_centi(trimmed(fields[0]), 0)
    &&& m.memory_used_mb_centi == sub_centi(mem, 0, 0)
    &&& m.memory_total_mb_centi == sub_centi(mem, 1, 100)
    &&& m.memory_percent_centi == sub_centi(mem, 2, 0)
    &&& m.disk_used_gb_centi == sub_centi(disk, 0, 0)
    &&& m.disk_total_gb_centi == sub_centi(disk, 1, 100)
    &&& m.disk_percent_centi == sub_centi(disk, 2, 0)
    &&& m.uptime_seconds == spec_uptime(trimmed(fields[3]))
    &&& m.load_average@ == trimmed(fields[4])
    &&& m.timestamp == timestamp
}

/// Parses one probe output line. The call succeeds exactly when the
/// trimmed output splits into five `|`-separated fields; a malformed
/// numeric sub-field never fails the call but falls back to its
/// default (zero, or one hundred — that is, `1.00` — for totals).
pub fn parse_system_metrics(output: &str, timestamp: i64) -> (r: Result<
    SystemMetrics,
    CollectionError,
>)
    ensures
        r is Ok <==> structurally_valid(output@),
        r matches Ok(m) ==> parses_to(m, output@, timestamp),
        r matches Err(e) ==> (e matches CollectionError::UnexpectedFormat { output: o }
            && o@ == output@),
{
    let t = trim(output);
    let parts = split_str(t, '|');
    if parts.len() != 5 {
        return Err(CollectionError::UnexpectedFormat { output: output.to_owned() });
    }
    let cpu_usage_centi = parse_centi(trim(parts[0].as_str()), 0);
    let mem_parts = split_whitespace_str(parts[1].as_str());
    let memory_used_mb_centi = if mem_parts.len() > 0 {
        parse_centi(mem_parts[0].as_str(), 0)
    } else {
        0
    };
    let memory_total_mb_centi = if mem_parts.len() > 1 {
        parse_centi(mem_parts[1].as_str(), 100)
    } else {
        100
    };
    let memory_percent_centi = if mem_parts.len() > 2 {
        parse_centi(mem_parts[2].as_str(), 0)
    } else {
        0
    };
    let disk_parts = split_whitespace_str(parts[2].as_str());
    let disk_used_gb_centi = if disk_parts.len() > 0 {
        parse_centi(disk_parts[0].as_str(), 0)
    } else {
        0
    };
    let disk_total_gb_centi = if disk_parts.len() > 1 {
        parse_centi(disk_parts[1].as_str(), 100)
    } else {
        100
    };
    let disk_percent_centi = if disk_parts.len() > 2 {
        parse_centi(disk_parts[2].as_str(), 0)
    } else {
        0
    };
    let uptime_seconds = match parse_digits(trim(parts[3].as_str()), u64::MAX) {
        Some(v) => v,
        None => 0,
    };
    let load_average = trim(parts[4].as_str()).to_owned();
    Ok(
        SystemMetrics {
            cpu_usage_centi,
            memory_used_mb_centi,
            memory_total_mb_centi,
            memory_percent_centi,
            disk_used_gb_centi,
            disk_total_gb_centi,
            disk_percent_centi,
            uptime_seconds,
            load_average,
            timestamp,
        },
    )
}

} // verus!
