use dcollector::json::{parse_document, Json};
use dcollector::models::{DefaultWithTime, DiskStat, ProcStat, SysStat};
use dcollector::systeminfo::{
    disk_stat_from_document, disk_stats_entry, read_devices_list, sys_process_entries,
    sys_stats_entry, DiskProbe, ProcessReading, SystemReading, PACING_GAP_NANOS,
};
use dcollector::time::Timestamp;

fn at(millis: u64) -> Timestamp {
    Timestamp { nanos: 1_700_000_000_000_000_000 + millis as i128 * 1_000_000 }
}

fn reading(name: &str, captured: Timestamp) -> ProcessReading {
    ProcessReading {
        captured,
        name: String::from(name),
        cmd: vec![format!("/bin/{}", name), String::from("-v")],
        exe: format!("/bin/{}", name),
        start_time: 1_699_999_000,
        read_bytes: 1,
        total_read_bytes: 2,
        written_bytes: 3,
        total_written_bytes: 4,
        cpu_usage: 1.5f32.to_bits(),
        memory: 4096,
        status: String::from("Sleep"),
    }
}

const REPORT: &str = r#"{
  "json_format_version": [1, 0],
  "temperature": { "current": 35 },
  "ata_smart_attributes": {
    "revision": 16,
    "table": [
      { "id": 1, "name": "Raw_Read_Error_Rate", "raw": { "value": 11, "string": "11" } },
      { "id": 2, "name": "Throughput_Performance", "raw": { "value": 22, "string": "22" } },
      { "id": 7, "name": "Seek_Error_Rate", "raw": { "value": 77, "string": "77" } },
      { "id": 8, "name": "Seek_Time_Performance", "raw": { "value": 88, "string": "88" } },
      { "id": 9, "name": "Power_On_Hours", "raw": { "value": 12345, "string": "12345" } },
      { "id": 199, "name": "UDMA_CRC_Error_Count", "raw": { "value": 0, "string": "0" } }
    ]
  }
}"#;

#[test]
fn the_system_sample_takes_what_was_reported() {
    let reading = SystemReading {
        name: Some(String::from("FreeBSD")),
        kernel_version: Some(String::from("14.1-RELEASE")),
        os_version: Some(String::from("14.1")),
        host_name: Some(String::from("vks0")),
        processors: Some(8),
        cpu_usage: Some(12.25f32.to_bits()),
        load_one: Some(0.5f64.to_bits()),
        load_five: Some(0.25f64.to_bits()),
        load_fifteen: Some(0.125f64.to_bits()),
        total_memory: Some(17_179_869_184),
        used_memory: Some(4_294_967_296),
        total_swap: Some(2_147_483_648),
        used_swap: Some(0),
    };
    assert_eq!(
        sys_stats_entry(at(0), reading),
        SysStat {
            time: at(0),
            name: Some(String::from("FreeBSD")),
            kernel_version: Some(String::from("14.1-RELEASE")),
            os_version: Some(String::from("14.1")),
            host_name: Some(String::from("vks0")),
            processors: Some(8),
            total_memory: Some(17_179_869_184),
            used_memory: Some(4_294_967_296),
            total_swap: Some(2_147_483_648),
            used_swap: Some(0),
            load_one: Some(0.5f64.to_bits()),
            load_five: Some(0.25f64.to_bits()),
            load_fifteen: Some(0.125f64.to_bits()),
            cpu_usage: Some(12.25f32.to_bits()),
        }
    );
}

#[test]
fn a_reading_of_nothing_makes_the_absent_sample() {
    let sample = sys_stats_entry(at(0), SystemReading::default());
    assert_eq!(sample, SysStat::new(at(0)));
    assert!(sample.is_empty());
}

#[test]
fn a_usage_of_exactly_zero_is_not_recorded() {
    for zero in [0.0f32, -0.0f32] {
        let reading = SystemReading {
            cpu_usage: Some(zero.to_bits()),
            processors: Some(2),
            ..SystemReading::default()
        };
        let sample = sys_stats_entry(at(0), reading);
        assert_eq!(sample.cpu_usage, None);
        assert_eq!(sample.processors, Some(2));
    }
    let reading =
        SystemReading { cpu_usage: Some(f32::MIN_POSITIVE.to_bits()), ..SystemReading::default() };
    assert_eq!(sys_stats_entry(at(0), reading).cpu_usage, Some(f32::MIN_POSITIVE.to_bits()));
}

#[test]
fn counts_beyond_the_column_wrap_as_a_cast_does() {
    let reading = SystemReading {
        total_memory: Some(u64::MAX),
        used_memory: Some(i64::MAX as u64 + 1),
        total_swap: Some(i64::MAX as u64),
        ..SystemReading::default()
    };
    let sample = sys_stats_entry(at(0), reading);
    assert_eq!(sample.total_memory, Some(-1));
    assert_eq!(sample.used_memory, Some(i64::MIN));
    assert_eq!(sample.total_swap, Some(i64::MAX));
}

#[test]
fn a_process_sample_takes_what_was_reported() {
    let host = Some(String::from("vks0"));
    let entries = sys_process_entries(&host, &vec![reading("cron", at(10))]);
    assert_eq!(
        entries,
        vec![ProcStat {
            time: at(10),
            host_name: Some(String::from("vks0")),
            start_time: Some(Timestamp::after_epoch(1_699_999_000, 0)),
            exe: Some(String::from("/bin/cron")),
            cmd: Some(String::from("/bin/cron -v")),
            name: Some(String::from("cron")),
            disk_read: Some(1),
            disk_read_total: Some(2),
            disk_written: Some(3),
            disk_written_total: Some(4),
            cpu_usage: Some(1.5f32.to_bits()),
            rss: Some(4096),
            status: Some(String::from("Sleep")),
        }]
    );
}

#[test]
fn a_start_at_the_epoch_is_no_start() {
    let mut short_lived = reading("true", at(10));
    short_lived.start_time = 0;
    let mut just_after = reading("true", at(30));
    just_after.start_time = 1;
    let entries = sys_process_entries(&None, &vec![short_lived, just_after]);
    assert_eq!(entries[0].start_time, None);
    assert_eq!(entries[1].start_time, Some(Timestamp { nanos: 1_000_000_000 }));
}

#[test]
fn an_empty_path_gives_way_to_the_process_name() {
    let mut kernel = reading("kernel", at(10));
    kernel.exe = String::new();
    kernel.cmd = vec![];
    let entries = sys_process_entries(&None, &vec![kernel]);
    assert_eq!(entries[0].exe, Some(String::from("kernel")));
    assert_eq!(entries[0].cmd, Some(String::new()));
    assert_eq!(entries[0].host_name, None);
}

#[test]
fn process_keys_are_distinct_and_increase_when_the_clock_stands_still() {
    let readings: Vec<ProcessReading> =
        (0..50).map(|n| reading(&format!("p{}", n), at(0))).collect();
    let entries = sys_process_entries(&None, &readings);
    assert_eq!(entries.len(), 50);
    for (n, entry) in entries.iter().enumerate() {
        assert_eq!(entry.time.nanos, at(0).nanos + n as i128 * PACING_GAP_NANOS);
        assert_eq!(entry.name, Some(format!("p{}", n)));
    }
    for pair in entries.windows(2) {
        assert!(pair[0].time < pair[1].time);
    }
}

#[test]
fn process_keys_are_what_the_clock_showed_when_it_kept_the_pace() {
    let readings = vec![reading("a", at(0)), reading("b", at(10)), reading("c", at(35))];
    let entries = sys_process_entries(&None, &readings);
    let keys: Vec<Timestamp> = entries.iter().map(|entry| entry.time).collect();
    assert_eq!(keys, vec![at(0), at(10), at(35)]);
}

#[test]
fn process_keys_increase_when_the_clock_steps_back() {
    let readings = vec![
        reading("a", at(100)),
        reading("b", at(105)),
        reading("c", at(20)),
        reading("d", at(200)),
        reading("e", at(200)),
    ];
    let entries = sys_process_entries(&None, &readings);
    let keys: Vec<Timestamp> = entries.iter().map(|entry| entry.time).collect();
    assert_eq!(keys, vec![at(100), at(110), at(120), at(200), at(210)]);
    assert_eq!(PACING_GAP_NANOS, 10_000_000);
}

#[test]
fn process_keys_increase_at_the_end_of_the_clock() {
    let last = Timestamp::after_epoch(u64::MAX, 999_999_999);
    let readings = vec![reading("a", last), reading("b", last), reading("c", last)];
    let entries = sys_process_entries(&None, &readings);
    assert_eq!(entries[0].time, last);
    assert_eq!(entries[1].time.nanos, last.nanos + 10_000_000);
    assert_eq!(entries[2].time.nanos, last.nanos + 20_000_000);
}

#[test]
fn no_process_no_sample() {
    assert_eq!(sys_process_entries(&Some(String::from("vks0")), &vec![]), vec![]);
}

#[test]
fn the_device_list_leaves_out_flash_and_memory_cards() {
    assert_eq!(
        read_devices_list("ada0 ada1 flash0 mmcsd0 da0 mmc nvd0 flash\n"),
        vec!["/dev/ada0", "/dev/ada1", "/dev/da0", "/dev/nvd0"]
    );
    assert_eq!(read_devices_list(""), Vec::<String>::new());
    assert_eq!(read_devices_list("  \n"), Vec::<String>::new());
    assert_eq!(read_devices_list("flash0 mmcsd0"), Vec::<String>::new());
    assert_eq!(read_devices_list("aflash mm"), vec!["/dev/aflash", "/dev/mm"]);
}

#[test]
fn the_device_list_agrees_with_the_standard_library() {
    for listing in ["ada0\tada1", "cd0  flashy\u{a0}mmcblk0 sd\u{3000}", "\n\nvtbd0\n"] {
        let expected: Vec<String> = listing
            .split_whitespace()
            .filter(|word| !word.starts_with("flash") && !word.starts_with("mmc"))
            .map(|word| format!("/dev/{}", word))
            .collect();
        assert_eq!(read_devices_list(listing), expected);
    }
}

#[test]
fn a_report_fills_the_disk_sample() {
    let probes = vec![DiskProbe {
        device: String::from("/dev/ada0"),
        captured: at(5),
        report: Some(String::from(REPORT)),
    }];
    assert_eq!(
        disk_stats_entry(&Some(String::from("vks0")), probes),
        vec![DiskStat {
            time: at(5),
            host_name: Some(String::from("vks0")),
            name: Some(String::from("/dev/ada0")),
            temperature: Some(35.0f64.to_bits()),
            crc_errors: Some(0),
            seek_time: Some(88),
            seek_error_rate: Some(77),
            throughput: Some(22),
            read_error_rate: Some(11),
        }]
    );
}

#[test]
fn a_device_whose_tool_failed_is_passed_over() {
    let probes = vec![
        DiskProbe { device: String::from("/dev/ada0"), captured: at(1), report: None },
        DiskProbe {
            device: String::from("/dev/ada1"),
            captured: at(2),
            report: Some(String::from(REPORT)),
        },
        DiskProbe { device: String::from("/dev/ada2"), captured: at(3), report: None },
    ];
    let entries = disk_stats_entry(&None, probes);
    assert_eq!(entries.len(), 1);
    assert_eq!(entries[0].name, Some(String::from("/dev/ada1")));
    assert_eq!(entries[0].time, at(2));
    assert_eq!(entries[0].host_name, None);
    assert_eq!(disk_stats_entry(&None, vec![]), vec![]);
}

#[test]
fn output_that_is_no_document_leaves_the_attributes_absent() {
    for output in ["", "smartctl: not found", "{", "[1, 2", "null", "42", "\"text\"", "[]", "{}"] {
        let probes = vec![DiskProbe {
            device: String::from("/dev/da0"),
            captured: at(1),
            report: Some(String::from(output)),
        }];
        assert_eq!(
            disk_stats_entry(&None, probes),
            vec![DiskStat { name: Some(String::from("/dev/da0")), ..DiskStat::new(at(1)) }],
            "{:?}",
            output
        );
    }
}

#[test]
fn a_report_without_a_table_keeps_its_temperature() {
    let document = parse_document(r#"{"temperature": {"current": 41.5}, "nvme": {}}"#);
    let sample = disk_stat_from_document(at(1), None, String::from("/dev/nvd0"), &document);
    assert_eq!(
        sample,
        DiskStat {
            name: Some(String::from("/dev/nvd0")),
            temperature: Some(41.5f64.to_bits()),
            ..DiskStat::new(at(1))
        }
    );
    let document = parse_document(r#"{"ata_smart_attributes": {"table": {"name": 1}}}"#);
    let sample = disk_stat_from_document(at(1), None, String::from("/dev/nvd0"), &document);
    assert_eq!(sample, DiskStat { name: Some(String::from("/dev/nvd0")), ..DiskStat::new(at(1)) });
}

#[test]
fn the_last_entry_of_a_name_decides() {
    let document = parse_document(
        r#"{"ata_smart_attributes": {"table": [
            {"name": "Seek_Error_Rate", "raw": {"value": 1}},
            {"name": "Throughput_Performance", "raw": {"value": 5}},
            {"name": "Seek_Error_Rate", "raw": {"value": 2}},
            {"name": "Throughput_Performance", "raw": {"value": "fast"}},
            {"name": "Raw_Read_Error_Rate"},
            {"name": "UDMA_CRC_Error_Count", "raw": {"value": -3}},
            {"name": "Seek_Time_Performance", "raw": {"value": 1.5}},
            {"name": 7, "raw": {"value": 9}},
            "Seek_Error_Rate",
            {"raw": {"value": 9}}
        ]}}"#,
    );
    let sample = disk_stat_from_document(at(1), None, String::from("/dev/ada0"), &document);
    assert_eq!(
        sample,
        DiskStat {
            name: Some(String::from("/dev/ada0")),
            seek_error_rate: Some(2),
            crc_errors: Some(-3),
            ..DiskStat::new(at(1))
        }
    );
}

#[test]
fn a_document_built_by_hand_reads_like_one_that_was_parsed() {
    let entry = |name: &str, value: i64| {
        Json::Object(vec![
            (String::from("name"), Json::Text(String::from(name))),
            (
                String::from("raw"),
                Json::Object(vec![(
                    String::from("value"),
                    Json::Number { whole: Some(value), double: Some((value as f64).to_bits()) },
                )]),
            ),
        ])
    };
    let document = Json::Object(vec![
        (
            String::from("ata_smart_attributes"),
            Json::Object(vec![(
                String::from("table"),
                Json::Array(vec![entry("Seek_Time_Performance", 3), entry("Other", 4)]),
            )]),
        ),
        (
            String::from("temperature"),
            Json::Object(vec![(
                String::from("current"),
                Json::Number { whole: Some(30), double: Some(30.0f64.to_bits()) },
            )]),
        ),
    ]);
    let sample = disk_stat_from_document(at(1), None, String::from("/dev/ada0"), &document);
    assert_eq!(sample.seek_time, Some(3));
    assert_eq!(sample.temperature, Some(30.0f64.to_bits()));
    assert_eq!(sample.seek_error_rate, None);
}
