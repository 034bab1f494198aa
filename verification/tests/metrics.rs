use ssedge::metrics::{metrics_command, parse_system_metrics, CollectionError};

#[test]
fn canonical_line_parses_field_by_field() {
    let line = "12.5|2048.00 4096.00 50.00|20.00 40.00 50.00|3600|0.1,0.2,0.3";
    let m = parse_system_metrics(line, 1700000000).unwrap();
    assert_eq!(m.cpu_usage_centi, 1250);
    assert_eq!(m.memory_used_mb_centi, 204800);
    assert_eq!(m.memory_total_mb_centi, 409600);
    assert_eq!(m.memory_percent_centi, 5000);
    assert_eq!(m.disk_used_gb_centi, 2000);
    assert_eq!(m.disk_total_gb_centi, 4000);
    assert_eq!(m.disk_percent_centi, 5000);
    assert_eq!(m.uptime_seconds, 3600);
    assert_eq!(m.load_average, "0.1,0.2,0.3");
    assert_eq!(m.timestamp, 1700000000);
}

#[test]
fn four_segments_fail_structurally() {
    let line = "12.5|2048.00 4096.00 50.00|20.00 40.00 50.00|3600";
    let r = parse_system_metrics(line, 0);
    let e = r.err().expect("four segments must not yield a record");
    let CollectionError::UnexpectedFormat { output } = e;
    assert_eq!(output, line);
}

#[test]
fn six_segments_fail_structurally() {
    let line = "1|2|3|4|5|6";
    assert!(parse_system_metrics(line, 0).is_err());
}

#[test]
fn empty_output_fails_structurally() {
    assert!(parse_system_metrics("", 0).is_err());
}

#[test]
fn format_error_message_names_the_raw_output() {
    let e = parse_system_metrics("a|b", 0).err().unwrap();
    assert_eq!(e.message(), "Unexpected metrics output format: a|b");
}

#[test]
fn non_numeric_cpu_defaults_to_zero_and_call_succeeds() {
    let line = "garbage|2048.00 4096.00 50.00|20.00 40.00 50.00|3600|0.1,0.2,0.3";
    let m = parse_system_metrics(line, 7).unwrap();
    assert_eq!(m.cpu_usage_centi, 0);
    assert_eq!(m.memory_used_mb_centi, 204800);
    assert_eq!(m.memory_total_mb_centi, 409600);
    assert_eq!(m.memory_percent_centi, 5000);
    assert_eq!(m.disk_used_gb_centi, 2000);
    assert_eq!(m.disk_total_gb_centi, 4000);
    assert_eq!(m.disk_percent_centi, 5000);
    assert_eq!(m.uptime_seconds, 3600);
    assert_eq!(m.load_average, "0.1,0.2,0.3");
}

#[test]
fn surrounding_whitespace_is_trimmed() {
    let line = "\n  12.5|1.00 2.00 50.00|1.00 2.00 50.00|60|0.0,0.0,0.0  \n";
    let m = parse_system_metrics(line, 0).unwrap();
    assert_eq!(m.cpu_usage_centi, 1250);
    assert_eq!(m.uptime_seconds, 60);
    assert_eq!(m.load_average, "0.0,0.0,0.0");
}

#[test]
fn missing_sub_values_fall_back_to_defaults() {
    let line = "5|2048.00|20.00 40.00|x|load";
    let m = parse_system_metrics(line, 0).unwrap();
    assert_eq!(m.cpu_usage_centi, 500);
    assert_eq!(m.memory_used_mb_centi, 204800);
    assert_eq!(m.memory_total_mb_centi, 100);
    assert_eq!(m.memory_percent_centi, 0);
    assert_eq!(m.disk_used_gb_centi, 2000);
    assert_eq!(m.disk_total_gb_centi, 4000);
    assert_eq!(m.disk_percent_centi, 0);
    assert_eq!(m.uptime_seconds, 0);
    assert_eq!(m.load_average, "load");
}

#[test]
fn bad_totals_fall_back_to_one_unit() {
    let line = "0|1.00 bad 2.00|1.00 - 2.00|1|l";
    let m = parse_system_metrics(line, 0).unwrap();
    assert_eq!(m.memory_total_mb_centi, 100);
    assert_eq!(m.disk_total_gb_centi, 100);
    assert_eq!(m.memory_used_mb_centi, 100);
    assert_eq!(m.memory_percent_centi, 200);
}

#[test]
fn negative_and_signed_values_parse() {
    let line = "-12.5|+3.5 4 50|1 2 3|1|l";
    let m = parse_system_metrics(line, 0).unwrap();
    assert_eq!(m.cpu_usage_centi, -1250);
    assert_eq!(m.memory_used_mb_centi, 350);
    assert_eq!(m.memory_total_mb_centi, 400);
}

#[test]
fn long_fractions_truncate_to_hundredths() {
    let line = "1.239|0.999 1.001 2|1 2 3|1|l";
    let m = parse_system_metrics(line, 0).unwrap();
    assert_eq!(m.cpu_usage_centi, 123);
    assert_eq!(m.memory_used_mb_centi, 99);
    assert_eq!(m.memory_total_mb_centi, 100);
}

#[test]
fn oversized_values_fall_back_to_defaults() {
    let line = "99999999999999999999|1 2 3|1 2 3|99999999999999999999999|l";
    let m = parse_system_metrics(line, 0).unwrap();
    assert_eq!(m.cpu_usage_centi, 0);
    assert_eq!(m.uptime_seconds, 0);
}

#[test]
fn malformed_numerals_fall_back_to_defaults() {
    let line = "1.2.3|.5 5. 1,5|- + 12a|12 |l";
    let m = parse_system_metrics(line, 0).unwrap();
    assert_eq!(m.cpu_usage_centi, 0);
    assert_eq!(m.memory_used_mb_centi, 0);
    assert_eq!(m.memory_total_mb_centi, 100);
    assert_eq!(m.memory_percent_centi, 0);
    assert_eq!(m.disk_used_gb_centi, 0);
    assert_eq!(m.disk_total_gb_centi, 100);
    assert_eq!(m.disk_percent_centi, 0);
    assert_eq!(m.uptime_seconds, 12);
}

#[test]
fn probe_command_emits_the_five_field_line() {
    let cmd = metrics_command();
    assert!(cmd.contains("echo \"$cpu|$mem|$disk|$uptime|$loadavg\""));
    assert!(cmd.contains("/proc/uptime"));
    assert!(cmd.contains("/proc/loadavg"));
}
