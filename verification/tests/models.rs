use dcollector::models::{DefaultWithTime, DiskStat, ProcStat, SysStat, UpsStat};
use dcollector::time::Timestamp;

fn at() -> Timestamp {
    Timestamp::after_epoch(1_700_000_000, 250)
}

#[test]
fn absent_samples_are_empty() {
    assert!(SysStat::new(at()).is_empty());
    assert!(ProcStat::new(at()).is_empty());
    assert!(DiskStat::new(at()).is_empty());
    assert!(UpsStat::new(at()).is_empty());
}

#[test]
fn default_skip_time_keeps_the_key_and_nothing_else() {
    let mut sample = SysStat::new(at());
    sample.name = Some(String::from("FreeBSD"));
    sample.cpu_usage = Some(12.5f32.to_bits());
    let fresh = SysStat::default_skip_time(&sample);
    assert_eq!(fresh.time, sample.time);
    assert_eq!(fresh, SysStat::new(at()));
    assert!(fresh.is_empty());

    let mut process = ProcStat::new(at());
    process.rss = Some(4096);
    assert_eq!(ProcStat::default_skip_time(&process), ProcStat::new(at()));

    let mut disk = DiskStat::new(at());
    disk.temperature = Some(35.0f64.to_bits());
    assert_eq!(DiskStat::default_skip_time(&disk), DiskStat::new(at()));

    let mut ups = UpsStat::new(at());
    ups.load = Some(17);
    assert_eq!(UpsStat::default_skip_time(&ups), UpsStat::new(at()));
}

#[test]
fn the_key_alone_never_fills_a_sample() {
    let early = SysStat::new(Timestamp::epoch());
    let late = SysStat::new(Timestamp::after_epoch(4_000_000_000, 999_999_999));
    let before = SysStat::new(Timestamp::before_epoch(86_400, 1));
    assert!(early.is_empty());
    assert!(late.is_empty());
    assert!(before.is_empty());
}

#[test]
fn each_system_attribute_fills_the_sample() {
    let text = || Some(String::from("x"));
    let blank = || SysStat::new(at());
    let filled = vec![
        SysStat { name: text(), ..blank() },
        SysStat { kernel_version: text(), ..blank() },
        SysStat { os_version: text(), ..blank() },
        SysStat { host_name: text(), ..blank() },
        SysStat { processors: Some(0), ..blank() },
        SysStat { total_memory: Some(0), ..blank() },
        SysStat { used_memory: Some(0), ..blank() },
        SysStat { total_swap: Some(0), ..blank() },
        SysStat { used_swap: Some(0), ..blank() },
        SysStat { load_one: Some(0.0f64.to_bits()), ..blank() },
        SysStat { load_five: Some(0.0f64.to_bits()), ..blank() },
        SysStat { load_fifteen: Some(0.0f64.to_bits()), ..blank() },
        SysStat { cpu_usage: Some(0.0f32.to_bits()), ..blank() },
    ];
    assert_eq!(filled.len(), 13);
    for sample in &filled {
        assert!(!sample.is_empty(), "{:?}", sample);
        assert_ne!(*sample, blank());
    }
}

#[test]
fn each_process_attribute_fills_the_sample() {
    let text = || Some(String::new());
    let blank = || ProcStat::new(at());
    let filled = vec![
        ProcStat { host_name: text(), ..blank() },
        ProcStat { start_time: Some(Timestamp::epoch()), ..blank() },
        ProcStat { exe: text(), ..blank() },
        ProcStat { cmd: text(), ..blank() },
        ProcStat { name: text(), ..blank() },
        ProcStat { disk_read: Some(0), ..blank() },
        ProcStat { disk_read_total: Some(0), ..blank() },
        ProcStat { disk_written: Some(0), ..blank() },
        ProcStat { disk_written_total: Some(0), ..blank() },
        ProcStat { cpu_usage: Some(0), ..blank() },
        ProcStat { rss: Some(0), ..blank() },
        ProcStat { status: text(), ..blank() },
    ];
    assert_eq!(filled.len(), 12);
    for sample in &filled {
        assert!(!sample.is_empty(), "{:?}", sample);
    }
}

#[test]
fn each_disk_attribute_fills_the_sample() {
    let text = || Some(String::from("/dev/ada0"));
    let blank = || DiskStat::new(at());
    let filled = vec![
        DiskStat { host_name: text(), ..blank() },
        DiskStat { name: text(), ..blank() },
        DiskStat { temperature: Some(0), ..blank() },
        DiskStat { crc_errors: Some(0), ..blank() },
        DiskStat { seek_time: Some(0), ..blank() },
        DiskStat { seek_error_rate: Some(0), ..blank() },
        DiskStat { throughput: Some(0), ..blank() },
        DiskStat { read_error_rate: Some(0), ..blank() },
    ];
    assert_eq!(filled.len(), 8);
    for sample in &filled {
        assert!(!sample.is_empty(), "{:?}", sample);
    }
}

#[test]
fn each_ups_attribute_fills_the_sample() {
    let text = || Some(String::from("OL"));
    let blank = || UpsStat::new(at());
    let filled = vec![
        UpsStat { model: text(), ..blank() },
        UpsStat { status: text(), ..blank() },
        UpsStat { load: Some(0), ..blank() },
        UpsStat { input_frequency: Some(0), ..blank() },
        UpsStat { input_voltage: Some(0), ..blank() },
        UpsStat { battery_charge: Some(0), ..blank() },
        UpsStat { battery_voltage: Some(0), ..blank() },
    ];
    assert_eq!(filled.len(), 7);
    for sample in &filled {
        assert!(!sample.is_empty(), "{:?}", sample);
    }
}
