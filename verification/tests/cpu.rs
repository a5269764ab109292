use pulse::cpu::{
    count_cpus_with, cpu_count_from_probes, cpu_directory_path, cpu_enable_state_from, cpu_online_path,
    get_cpu_count, get_cpu_stats, read_cpu_stats, get_cpu_usage, init_infos, parse_cpu_max_frequency,
    parse_stat_line, usage_is_defined, CPUInfo, CPUStat, CpuUsage, FrequencyError, StatError,
    MAX_CPUS,
};
use pulse::system::directory_exists;
use pulse::text::chars_of;

fn stat(v: [u32; 10]) -> CPUStat {
    CPUStat {
        user: v[0],
        nice: v[1],
        system: v[2],
        idle: v[3],
        iowait: v[4],
        irq: v[5],
        softirq: v[6],
        steal: v[7],
        guest: v[8],
        guest_nice: v[9],
    }
}

fn zero() -> CPUStat {
    stat([0; 10])
}

#[test]
fn cpu_paths_are_decimal() {
    assert_eq!(cpu_directory_path(0), "/sys/devices/system/cpu/cpu0");
    assert_eq!(cpu_directory_path(17), "/sys/devices/system/cpu/cpu17");
    assert_eq!(cpu_directory_path(4294967295), "/sys/devices/system/cpu/cpu4294967295");
    assert_eq!(cpu_online_path(3), "/sys/devices/system/cpu/cpu3/online");
    assert_eq!(cpu_online_path(120), "/sys/devices/system/cpu/cpu120/online");
}

#[test]
fn cpu_count_counts_leading_directories() {
    assert_eq!(cpu_count_from_probes(&vec![]), Some(1));
    assert_eq!(cpu_count_from_probes(&vec![false]), Some(1));
    assert_eq!(cpu_count_from_probes(&vec![true, true, true, false]), Some(4));
    // answers after the first missing directory do not count
    assert_eq!(cpu_count_from_probes(&vec![true, false, true, true]), Some(2));
}

#[test]
fn cpu_count_limit() {
    let mut probes = vec![true; 255];
    probes.push(false);
    assert_eq!(cpu_count_from_probes(&probes), Some(MAX_CPUS));
    assert_eq!(cpu_count_from_probes(&vec![true; 255]), Some(256));
    assert_eq!(cpu_count_from_probes(&vec![true; 256]), None);
    assert_eq!(cpu_count_from_probes(&vec![true; 300]), None);
}

#[test]
fn cpu_count_of_this_machine_is_in_range() {
    if let Some(n) = get_cpu_count() {
        assert!(n >= 1 && n <= MAX_CPUS);
    }
}

#[test]
fn directory_exists_checks_the_file_system() {
    assert!(directory_exists(&"/".to_string()));
    assert!(!directory_exists(&"/no/such/directory/anywhere".to_string()));
}

#[test]
fn max_frequency_first_line() {
    assert_eq!(parse_cpu_max_frequency("3600000\n"), Ok(3600000));
    assert_eq!(parse_cpu_max_frequency("3600000"), Ok(3600000));
    assert_eq!(parse_cpu_max_frequency("2400000\r\nignored\n"), Ok(2400000));
    assert_eq!(parse_cpu_max_frequency("+42\n"), Ok(42));
    assert_eq!(parse_cpu_max_frequency("0004294967295\n"), Ok(4294967295));
    assert_eq!(parse_cpu_max_frequency("0\n"), Ok(0));
}

#[test]
fn max_frequency_errors() {
    assert_eq!(parse_cpu_max_frequency(""), Err(FrequencyError::MissingLine));
    assert_eq!(parse_cpu_max_frequency("\n"), Err(FrequencyError::InvalidNumber));
    assert_eq!(parse_cpu_max_frequency("4294967296\n"), Err(FrequencyError::InvalidNumber));
    assert_eq!(parse_cpu_max_frequency("12 \n"), Err(FrequencyError::InvalidNumber));
    assert_eq!(parse_cpu_max_frequency("-1\n"), Err(FrequencyError::InvalidNumber));
    assert_eq!(parse_cpu_max_frequency("+\n"), Err(FrequencyError::InvalidNumber));
    assert_eq!(parse_cpu_max_frequency("abc"), Err(FrequencyError::InvalidNumber));
    // a bare '\r' at the end of the text stays in the line
    assert_eq!(parse_cpu_max_frequency("5\r"), Err(FrequencyError::InvalidNumber));
}

#[test]
fn enable_state() {
    assert!(cpu_enable_state_from(None));
    assert!(cpu_enable_state_from(Some("1\n")));
    assert!(!cpu_enable_state_from(Some("0\n")));
    assert!(!cpu_enable_state_from(Some("")));
    assert!(!cpu_enable_state_from(Some(" 1")));
}

#[test]
fn stat_line_parses_eleven_fields() {
    let line = chars_of("cpu3 10 20 30 40 50 60 70 80 90 100");
    assert_eq!(
        parse_stat_line(&line),
        Some(stat([10, 20, 30, 40, 50, 60, 70, 80, 90, 100]))
    );
    let line = chars_of("cpu0 +1 4294967295 0 0 0 0 0 0 0 0");
    assert_eq!(parse_stat_line(&line), Some(stat([1, 4294967295, 0, 0, 0, 0, 0, 0, 0, 0])));
}

#[test]
fn stat_line_rejects_other_shapes() {
    let bad = [
        "cpu 1 2 3 4 5 6 7 8 9 10",
        "cpu  1 2 3 4 5 6 7 8 9 10",
        "cpu0 1 2 3 4 5 6 7 8 9",
        "cpu0 1 2 3 4 5 6 7 8 9 10 11",
        "cpu0 1 2 3 4 5 6 7 8 9 10 ",
        "cpu0 1  2 3 4 5 6 7 8 9 10",
        "cpu0 1 2 3 4 5 6 7 8 9 4294967296",
        "cpu0 1 2 3 4 5 6 7 8 9 00000000001",
        "cpu0 -1 2 3 4 5 6 7 8 9 10",
        "CPU0 1 2 3 4 5 6 7 8 9 10",
        "intr 1 2 3 4 5 6 7 8 9 10",
        "cp",
    ];
    for b in bad.iter() {
        assert_eq!(parse_stat_line(&chars_of(b)), None, "{}", b);
    }
    // ten digits with leading zeros are still accepted
    assert_eq!(
        parse_stat_line(&chars_of("cpu0 0000000001 2 3 4 5 6 7 8 9 10")),
        Some(stat([1, 2, 3, 4, 5, 6, 7, 8, 9, 10]))
    );
}

const PROC_STAT: &str = "cpu  100 0 100 100 0 0 0 0 0 0
cpu0 10 1 2 30 4 5 6 7 8 9
cpu1 11 12 13 14 15 16 17 18 19 20
intr 1234 0 0
ctxt 42
";

#[test]
fn stats_shift_current_to_previous() {
    let mut infos = init_infos(&vec![true, false]);
    infos[0].curr_stat = stat([1; 10]);
    infos[0].usage = Some(CpuUsage { work: 3, idle: 4 });
    assert!(read_cpu_stats(infos.len(), PROC_STAT).is_ok());
    get_cpu_stats(&mut infos, PROC_STAT);
    assert_eq!(infos[0].prev_stat, stat([1; 10]));
    assert_eq!(infos[0].curr_stat, stat([10, 1, 2, 30, 4, 5, 6, 7, 8, 9]));
    assert_eq!(infos[0].usage, Some(CpuUsage { work: 3, idle: 4 }));
    assert!(infos[0].enabled);
    assert_eq!(infos[1].prev_stat, zero());
    assert_eq!(infos[1].curr_stat, stat([11, 12, 13, 14, 15, 16, 17, 18, 19, 20]));
    assert!(!infos[1].enabled);
}

#[test]
fn stats_with_no_processor_need_no_line() {
    let mut infos: Vec<CPUInfo> = Vec::new();
    assert_eq!(read_cpu_stats(0, ""), Ok(vec![]));
    get_cpu_stats(&mut infos, "");
    assert!(infos.is_empty());
}

#[test]
fn stats_read_and_errors() {
    assert_eq!(
        read_cpu_stats(2, PROC_STAT),
        Ok(vec![
            stat([10, 1, 2, 30, 4, 5, 6, 7, 8, 9]),
            stat([11, 12, 13, 14, 15, 16, 17, 18, 19, 20])
        ])
    );
    assert_eq!(read_cpu_stats(3, PROC_STAT), Err(StatError::MalformedLine));
    assert_eq!(
        read_cpu_stats(2, "cpu  1 2 3 4 5 6 7 8 9 10\ncpu0 1 2 3 4 5 6 7 8 9 10\n"),
        Err(StatError::MissingLine)
    );
    assert_eq!(read_cpu_stats(1, ""), Err(StatError::MissingLine));
    assert_eq!(read_cpu_stats(1, "cpu  1 2 3 4 5 6 7 8 9 10\nintr 1 2\n"), Err(StatError::MalformedLine));
}

#[test]
fn init_infos_zeroes_samples() {
    let infos = init_infos(&vec![true, false, true]);
    assert_eq!(infos.len(), 3);
    for (i, info) in infos.iter().enumerate() {
        assert_eq!(info.prev_stat, zero());
        assert_eq!(info.curr_stat, zero());
        assert_eq!(info.enabled, i != 1);
        assert_eq!(info.usage, None);
    }
    assert!(init_infos(&vec![]).is_empty());
}

#[test]
fn usage_between_samples() {
    let mut info = init_infos(&vec![true])[0];
    info.prev_stat = stat([10, 1, 2, 30, 4, 5, 6, 7, 8, 9]);
    info.curr_stat = stat([20, 2, 4, 60, 5, 6, 7, 9, 9, 10]);
    assert!(usage_is_defined(&info));
    // busy: (20+2+4+6+7+9+10) - (10+1+2+5+6+8+9) = 58 - 41 = 17
    // idle: (60-30) + (9-7) + (5-4) = 33
    let usage = get_cpu_usage(&mut info);
    assert_eq!(usage, CpuUsage { work: 17, idle: 33 });
    assert_eq!(info.usage, Some(usage));
    assert_eq!(info.curr_stat, stat([20, 2, 4, 60, 5, 6, 7, 9, 9, 10]));
}

#[test]
fn usage_undefined_when_counters_go_back_or_overflow() {
    let mut info = init_infos(&vec![true])[0];
    info.prev_stat = stat([5, 0, 0, 0, 0, 0, 0, 0, 0, 0]);
    info.curr_stat = stat([4, 0, 0, 0, 0, 0, 0, 0, 0, 0]);
    assert!(!usage_is_defined(&info));
    info.prev_stat = stat([0, 0, 0, 9, 0, 0, 0, 0, 0, 0]);
    info.curr_stat = stat([0, 0, 0, 8, 0, 0, 0, 0, 0, 0]);
    assert!(!usage_is_defined(&info));
    info.prev_stat = zero();
    info.curr_stat = stat([u32::MAX, 1, 0, 0, 0, 0, 0, 0, 0, 0]);
    assert!(!usage_is_defined(&info));
    info.curr_stat = stat([0, 0, 0, u32::MAX, 1, 0, 0, 0, 0, 0]);
    assert!(!usage_is_defined(&info));
    info.curr_stat = stat([u32::MAX, 0, 0, u32::MAX, 0, 0, 0, 0, 0, 0]);
    assert!(usage_is_defined(&info));
}

#[test]
fn usage_of_unchanged_samples_is_zero() {
    let mut info = init_infos(&vec![true])[0];
    info.prev_stat = stat([3; 10]);
    info.curr_stat = stat([3; 10]);
    assert_eq!(get_cpu_usage(&mut info), CpuUsage { work: 0, idle: 0 });
}

#[test]
fn max_frequency_reads_back_decimal_text() {
    for f in [0u32, 7, 1000, 800000, 3600000, 4294967295] {
        assert_eq!(parse_cpu_max_frequency(&format!("{}", f)), Ok(f));
        assert_eq!(parse_cpu_max_frequency(&format!("{}\n", f)), Ok(f));
    }
}

#[test]
fn stat_line_reads_back_kernel_format() {
    let values = [
        [0u32; 10],
        [1, 2, 3, 4, 5, 6, 7, 8, 9, 10],
        [u32::MAX; 10],
        [4294967295, 0, 1000000000, 999, 12, 0, 0, 77, 0, 3],
    ];
    for (cpu, v) in [(0u32, values[0]), (7, values[1]), (255, values[2]), (4294967295, values[3])] {
        let text = format!(
            "cpu{} {} {} {} {} {} {} {} {} {} {}",
            cpu, v[0], v[1], v[2], v[3], v[4], v[5], v[6], v[7], v[8], v[9]
        );
        assert_eq!(parse_stat_line(&chars_of(&text)), Some(stat(v)));
    }
}

#[test]
fn counting_asks_in_order_and_stops_at_first_missing() {
    let asked = std::cell::RefCell::new(Vec::new());
    let res = count_cpus_with(|p: &String| {
        asked.borrow_mut().push(p.clone());
        p != "/sys/devices/system/cpu/cpu4" && p != "/sys/devices/system/cpu/cpu6"
    });
    assert_eq!(res, Some(4));
    assert_eq!(
        *asked.borrow(),
        vec![
            "/sys/devices/system/cpu/cpu1".to_string(),
            "/sys/devices/system/cpu/cpu2".to_string(),
            "/sys/devices/system/cpu/cpu3".to_string(),
            "/sys/devices/system/cpu/cpu4".to_string(),
        ]
    );
}

#[test]
fn counting_gives_up_after_max_cpus() {
    let asked = std::cell::Cell::new(0u32);
    assert_eq!(count_cpus_with(|_p: &String| {
        asked.set(asked.get() + 1);
        true
    }), None);
    assert_eq!(asked.get(), MAX_CPUS);
    assert_eq!(count_cpus_with(|p: &String| p != "/sys/devices/system/cpu/cpu256"), Some(256));
    assert_eq!(count_cpus_with(|_p: &String| false), Some(1));
}
