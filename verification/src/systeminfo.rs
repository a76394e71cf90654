//! The adapters for the system, its processes and its disks.
//!
//! Each takes what a provider reported, as plain values, and makes samples of it.

use vstd::prelude::*;
use crate::json::{document_of, parse_document, Json};
use crate::models::{DefaultWithTime, DiskStat, ProcStat, SysStat};
use crate::text::{chars_of, has_prefix, join, joined, split_words, starts_with, texts, words};
use crate::time::Timestamp;

verus! {

/// What the system provider reported in one refresh. An attribute that it could
/// not report is absent.
#[derive(Debug, Clone, PartialEq, Default)]
pub struct SystemReading {
    /// Name of the operating system.
    pub name: Option<String>,
    /// Kernel version.
    pub kernel_version: Option<String>,
    /// Version of the operating system.
    pub os_version: Option<String>,
    /// Host name of the machine.
    pub host_name: Option<String>,
    /// Number of physical processor cores.
    pub processors: Option<usize>,
    /// Mean processor usage over the cores in percent, as the bits of a
    /// single-precision number.
    pub cpu_usage: Option<u32>,
    /// Load average over one minute, as the bits of a double-precision number.
    pub load_one: Option<u64>,
    /// Load average over five minutes, as the bits of a double-precision number.
    pub load_five: Option<u64>,
    /// Load average over fifteen minutes, as the bits of a double-precision number.
    pub load_fifteen: Option<u64>,
    /// Memory installed.
    pub total_memory: Option<u64>,
    /// Memory in use.
    pub used_memory: Option<u64>,
    /// Swap space configured.
    pub total_swap: Option<u64>,
    /// Swap space in use.
    pub used_swap: Option<u64>,
}

/// Whether the bits are those of a single-precision zero, of either sign.
pub open spec fn is_zero_single(bits: u32) -> bool {
    bits == 0 || bits == 0x8000_0000
}

/// The processor usage to record: the reported one, unless it is exactly zero,
/// which is what a provider reports before it has two measurements to compare and
/// so says nothing.
pub open spec fn recorded_usage(reported: Option<u32>) -> Option<u32> {
    match reported {
        Some(bits) => if is_zero_single(bits) {
            None
        } else {
            Some(bits)
        },
        None => None,
    }
}

/// A count as the store's 64-bit column holds it.
pub open spec fn as_column(count: u64) -> i64 {
    count as i64
}

/// An optional count as the store's 64-bit column holds it.
pub open spec fn column_of(count: Option<u64>) -> Option<i64> {
    match count {
        Some(c) => Some(as_column(c)),
        None => None,
    }
}

/// The system sample that a reading makes at `time`.
pub open spec fn system_sample(time: Timestamp, reading: SystemReading) -> SysStat {
    SysStat {
        time,
        name: reading.name,
        kernel_version: reading.kernel_version,
        os_version: reading.os_version,
        host_name: reading.host_name,
        processors: match reading.processors {
            Some(cores) => Some(cores as i32),
            None => None,
        },
        total_memory: column_of(reading.total_memory),
        used_memory: column_of(reading.used_memory),
        total_swap: column_of(reading.total_swap),
        used_swap: column_of(reading.used_swap),
        load_one: reading.load_one,
        load_five: reading.load_five,
        load_fifteen: reading.load_fifteen,
        cpu_usage: recorded_usage(reading.cpu_usage),
    }
}

/// Turns an optional count into what the store's 64-bit column holds.
fn to_column(count: Option<u64>) -> (column: Option<i64>)
    ensures
        column == column_of(count),
{
    match count {
        Some(c) => Some(c as i64),
        None => None,
    }
}

/// Makes the system sample of one refresh.
pub fn sys_stats_entry(time: Timestamp, reading: SystemReading) -> (entry: SysStat)
    ensures
        entry == system_sample(time, reading),
        entry.time == time,
{
    let cpu_usage = match reading.cpu_usage {
        Some(bits) => if bits == 0 || bits == 0x8000_0000 {
            None
        } else {
            Some(bits)
        },
        None => None,
    };
    let processors = match reading.processors {
        Some(cores) => Some(cores as i32),
        None => None,
    };
    SysStat {
        time,
        name: reading.name,
        kernel_version: reading.kernel_version,
        os_version: reading.os_version,
        host_name: reading.host_name,
        processors,
        total_memory: to_column(reading.total_memory),
        used_memory: to_column(reading.used_memory),
        total_swap: to_column(reading.total_swap),
        used_swap: to_column(reading.used_swap),
        load_one: reading.load_one,
        load_five: reading.load_five,
        load_fifteen: reading.load_fifteen,
        cpu_usage,
    }
}

/// The least time, in nanoseconds, between the keys of two process samples that
/// follow each other: ten milliseconds.
pub const PACING_GAP_NANOS: i128 = 10_000_000;

/// What the process provider reported of one running process.
#[derive(Debug, Clone, PartialEq)]
pub struct ProcessReading {
    /// What the clock showed when the process was looked at.
    pub captured: Timestamp,
    /// Process name.
    pub name: String,
    /// The command line, argument by argument.
    pub cmd: Vec<String>,
    /// Path of the executable, empty where it is not known.
    pub exe: String,
    /// Start of the process in seconds after the epoch, nought where the provider
    /// could not tell.
    pub start_time: u64,
    /// Bytes read from disk since the last refresh.
    pub read_bytes: u64,
    /// Bytes read from disk since the process started.
    pub total_read_bytes: u64,
    /// Bytes written to disk since the last refresh.
    pub written_bytes: u64,
    /// Bytes written to disk since the process started.
    pub total_written_bytes: u64,
    /// Processor usage in percent, as the bits of a single-precision number.
    pub cpu_usage: u32,
    /// Resident memory.
    pub memory: u64,
    /// Process status, as the provider words it.
    pub status: String,
}

/// The key of the process sample at place `i`: what the clock showed for it, but no
/// less than the pacing gap after the key of the sample before it.
pub open spec fn paced_key(readings: Seq<ProcessReading>, i: int) -> int
    decreases i,
{
    if i <= 0 {
        readings[0].captured.nanos as int
    } else {
        let earliest = paced_key(readings, i - 1) + PACING_GAP_NANOS;
        if readings[i].captured.nanos >= earliest {
            readings[i].captured.nanos as int
        } else {
            earliest
        }
    }
}

/// The start of a process: absent where the provider reported the epoch itself,
/// which stands for a process too short-lived to have its start resolved.
pub open spec fn process_start(start_time: u64) -> Option<Timestamp> {
    if start_time == 0 {
        None
    } else {
        Some(Timestamp { nanos: (start_time as int * 1_000_000_000) as i128 })
    }
}

/// The process sample that a reading makes under the key `key`.
pub open spec fn process_sample(
    host_name: Option<String>,
    reading: ProcessReading,
    key: Timestamp,
    cmd: String,
) -> ProcStat {
    ProcStat {
        time: key,
        host_name,
        start_time: process_start(reading.start_time),
        exe: Some(
            if reading.exe@.len() == 0 {
                reading.name
            } else {
                reading.exe
            },
        ),
        cmd: Some(cmd),
        name: Some(reading.name),
        disk_read: Some(as_column(reading.read_bytes)),
        disk_read_total: Some(as_column(reading.total_read_bytes)),
        disk_written: Some(as_column(reading.written_bytes)),
        disk_written_total: Some(as_column(reading.total_written_bytes)),
        cpu_usage: Some(reading.cpu_usage),
        rss: Some(as_column(reading.memory)),
        status: Some(reading.status),
    }
}

/// Whether `entries` are the samples of `readings`, one for one and in order: each
/// with its paced key, its command line joined by single spaces, and the
/// executable's path replaced by the process name where it is empty.
pub open spec fn process_samples_of(
    entries: Seq<ProcStat>,
    host_name: Option<String>,
    readings: Seq<ProcessReading>,
) -> bool {
    &&& entries.len() == readings.len()
    &&& forall|i: int|
        0 <= i < entries.len() ==> {
            &&& (#[trigger] entries[i]).time.nanos == paced_key(readings, i)
            &&& entries[i].cmd matches Some(cmd) && cmd@ == joined(
                texts(readings[i].cmd@),
                seq![' '],
            )
            &&& entries[i] == process_sample(
                host_name,
                readings[i],
                entries[i].time,
                entries[i].cmd->0,
            )
        }
}

/// Paced keys grow: a later process sample has a strictly later key.
pub proof fn lemma_paced_keys_increase(readings: Seq<ProcessReading>, i: int, j: int)
    requires
        0 <= i < j < readings.len(),
    ensures
        paced_key(readings, i) < paced_key(readings, j),
    decreases j - i,
{
    if i + 1 < j {
        lemma_paced_keys_increase(readings, i, j - 1);
    }
}

/// Two paced keys lie apart by the pacing gap at least, for each place between them.
proof fn lemma_paced_keys_apart(readings: Seq<ProcessReading>, i: int, j: int)
    requires
        0 <= i <= j < readings.len(),
    ensures
        paced_key(readings, i) + (j - i) * PACING_GAP_NANOS <= paced_key(readings, j),
    decreases j - i,
{
    if i < j {
        lemma_paced_keys_apart(readings, i, j - 1);
        assert((j - 1 - i) * PACING_GAP_NANOS + PACING_GAP_NANOS == (j - i) * PACING_GAP_NANOS)
            by (nonlinear_arith);
    }
}

/// The keys of the process samples of one refresh stay apart in a store that keeps
/// instants in microseconds: there too a later sample has a strictly later key, so
/// that no two rows of one refresh ever share their key.
pub proof fn lemma_process_keys_increase_in_store(
    entries: Seq<ProcStat>,
    host_name: Option<String>,
    readings: Seq<ProcessReading>,
    i: int,
    j: int,
)
    requires
        process_samples_of(entries, host_name, readings),
        0 <= i < j < entries.len(),
    ensures
        entries[i].time.stored_micros() < entries[j].time.stored_micros(),
{
    lemma_paced_keys_apart(readings, i, j);
    assert((j - i) * PACING_GAP_NANOS >= PACING_GAP_NANOS) by (nonlinear_arith)
        requires
            j - i >= 1,
    ;
}

/// A paced key is never before what the clock showed, and never later than the
/// clock's limit and one gap for each sample before it.
proof fn lemma_paced_key_bounds(readings: Seq<ProcessReading>, i: int)
    requires
        0 <= i < readings.len(),
        forall|k: int|
            0 <= k < readings.len() ==> (#[trigger] readings[k]).captured.in_clock_range(),
    ensures
        readings[i].captured.nanos <= paced_key(readings, i) <= crate::time::clock_limit() + i
            * PACING_GAP_NANOS,
    decreases i,
{
    if i > 0 {
        lemma_paced_key_bounds(readings, i - 1);
        assert((i - 1) * PACING_GAP_NANOS + PACING_GAP_NANOS == i * PACING_GAP_NANOS)
            by (nonlinear_arith);
    }
}

/// A copy of an optional text.
fn copy_of(text: &Option<String>) -> (copy: Option<String>)
    ensures
        copy == *text,
{
    match text {
        Some(t) => Some(t.clone()),
        None => None,
    }
}

/// Makes the process samples of one refresh, one for each running process, in the
/// order of the readings.
///
/// No two of them share a key: where the clock did not move on by the pacing gap
/// between two readings, the later sample's key is moved on instead.
pub fn sys_process_entries(
    host_name: &Option<String>,
    readings: &Vec<ProcessReading>,
) -> (entries: Vec<ProcStat>)
    requires
        forall|k: int|
            0 <= k < readings.len() ==> (#[trigger] readings[k]).captured.in_clock_range(),
    ensures
        process_samples_of(entries@, *host_name, readings@),
        forall|i: int, j: int|
            0 <= i < j < entries.len() ==> entries[i].time.nanos < entries[j].time.nanos,
{
    let mut entries: Vec<ProcStat> = Vec::new();
    let mut i: usize = 0;
    let mut last: i128 = 0;
    while i < readings.len()
        invariant
            i <= readings.len(),
            forall|k: int|
                0 <= k < readings.len() ==> (#[trigger] readings[k]).captured.in_clock_range(),
            process_samples_of(entries@, *host_name, readings@.take(i as int)),
            entries.len() == i,
            i > 0 ==> last == paced_key(readings@, i - 1),
            forall|k: int|
                0 <= k < i ==> (#[trigger] entries[k]).time.nanos == paced_key(readings@, k),
        decreases readings.len() - i,
    {
        let reading = &readings[i];
        proof {
            lemma_paced_key_bounds(readings@, i as int);
            if i > 0 {
                lemma_paced_key_bounds(readings@, i - 1);
            }
            assert(i * PACING_GAP_NANOS <= usize::MAX * PACING_GAP_NANOS) by (nonlinear_arith)
                requires
                    i <= usize::MAX,
            ;
        }
        let key: i128 = if i > 0 && reading.captured.nanos < last + PACING_GAP_NANOS {
            last + PACING_GAP_NANOS
        } else {
            reading.captured.nanos
        };
        let start_time = if reading.start_time == 0 {
            None
        } else {
            Some(Timestamp { nanos: reading.start_time as i128 * 1_000_000_000 })
        };
        let exe = if reading.exe.as_str().is_empty() {
            reading.name.clone()
        } else {
            reading.exe.clone()
        };
        let cmd = join(&reading.cmd, " ");
        proof {
            reveal_strlit(" ");
            assert(" "@ =~= seq![' ']);
        }
        let entry = ProcStat {
            time: Timestamp { nanos: key },
            host_name: copy_of(host_name),
            start_time,
            exe: Some(exe),
            cmd: Some(cmd),
            name: Some(reading.name.clone()),
            disk_read: Some(reading.read_bytes as i64),
            disk_read_total: Some(reading.total_read_bytes as i64),
            disk_written: Some(reading.written_bytes as i64),
            disk_written_total: Some(reading.total_written_bytes as i64),
            cpu_usage: Some(reading.cpu_usage),
            rss: Some(reading.memory as i64),
            status: Some(reading.status.clone()),
        };
        let ghost before = entries@;
        entries.push(entry);
        proof {
            let seen = readings@.take(i + 1);
            assert forall|k: int| 0 <= k < entries.len() implies {
                &&& (#[trigger] entries[k]).time.nanos == paced_key(seen, k)
                &&& entries[k].cmd matches Some(cmd) && cmd@ == joined(
                    texts(seen[k].cmd@),
                    seq![' '],
                )
                &&& entries[k] == process_sample(
                    *host_name,
                    seen[k],
                    entries[k].time,
                    entries[k].cmd->0,
                )
            } by {
                lemma_paced_key_of_prefix(readings@, i + 1, k);
                if k < i {
                    lemma_paced_key_of_prefix(readings@, i as int, k);
                    assert(entries[k] == before[k]);
                    assert(seen[k] == readings@.take(i as int)[k]);
                }
            }
        }
        last = key;
        i += 1;
    }
    proof {
        assert(readings@.take(readings.len() as int) == readings@);
        assert forall|a: int, b: int| 0 <= a < b < entries.len() implies entries[a].time.nanos
            < entries[b].time.nanos by {
            lemma_paced_keys_increase(readings@, a, b);
        }
    }
    entries
}

/// The paced key of a sample depends on the readings up to it alone.
proof fn lemma_paced_key_of_prefix(readings: Seq<ProcessReading>, n: int, k: int)
    requires
        0 <= k < n <= readings.len(),
    ensures
        paced_key(readings.take(n), k) == paced_key(readings, k),
    decreases k,
{
    if k > 0 {
        lemma_paced_key_of_prefix(readings, n, k - 1);
    }
}

/// Whether a word of the device listing names a disk that can report on its
/// health: flash and memory-card devices cannot.
pub open spec fn names_disk(word: Seq<char>) -> bool {
    !has_prefix(word, "flash"@) && !has_prefix(word, "mmc"@)
}

/// The paths of the devices to probe, from the words of the device listing.
pub open spec fn device_paths(listing: Seq<char>) -> Seq<Seq<char>> {
    words(listing).filter(|word: Seq<char>| names_disk(word)).map_values(
        |word: Seq<char>| "/dev/"@ + word,
    )
}

/// Reads the list of disks to probe from the device listing: its words, but for
/// those of flash and memory-card devices, each as a path under `/dev/`.
pub fn read_devices_list(listing: &str) -> (devices: Vec<String>)
    ensures
        texts(devices@) == device_paths(listing@),
{
    let found = split_words(listing);
    let flash = chars_of("flash");
    let mmc = chars_of("mmc");
    let ghost named = |word: Seq<char>| names_disk(word);
    let ghost path = |word: Seq<char>| "/dev/"@ + word;
    let mut devices: Vec<String> = Vec::new();
    let mut i: usize = 0;
    proof {
        reveal(Seq::filter);
        assert(texts(found@).take(0) == Seq::<Seq<char>>::empty());
        assert(texts(devices@) =~= texts(found@).take(0).filter(named).map_values(path));
    }
    while i < found.len()
        invariant
            i <= found.len(),
            flash@ == "flash"@,
            mmc@ == "mmc"@,
            forall|w: Seq<char>| #[trigger] named(w) == names_disk(w),
            forall|w: Seq<char>| #[trigger] path(w) == "/dev/"@ + w,
            texts(devices@) == texts(found@).take(i as int).filter(named).map_values(path),
        decreases found.len() - i,
    {
        let word = chars_of(found[i].as_str());
        let ghost seen = texts(found@).take(i + 1);
        let ghost before = texts(found@).take(i as int);
        proof {
            reveal(Seq::filter);
            assert(seen.drop_last() == before);
            assert(seen.last() == word@);
        }
        if !starts_with(&word, &flash) && !starts_with(&word, &mmc) {
            let mut device = String::from_str("/dev/");
            device.append(found[i].as_str());
            let ghost listed = devices@;
            devices.push(device);
            assert(texts(devices@) =~= texts(listed).push(device@));
            assert(seen.filter(named).map_values(path) =~= before.filter(named).map_values(
                path,
            ).push(path(word@)));
        }
        i += 1;
    }
    assert(texts(found@).take(found.len() as int) == texts(found@));
    devices
}

/// What the attribute tool made of one device.
#[derive(Debug, Clone, PartialEq)]
pub struct DiskProbe {
    /// Path of the device.
    pub device: String,
    /// What the clock showed when the tool was run.
    pub captured: Timestamp,
    /// What the tool printed, or `None` where it could not be run.
    pub report: Option<String>,
}

/// Whether an entry of the attribute table is the attribute called `name`.
pub open spec fn is_attribute(entry: Json, name: Seq<char>) -> bool {
    entry.member("name"@).is_text(name)
}

/// The raw value of an entry of the attribute table, absent where the entry holds
/// none that is a whole number.
pub open spec fn raw_value(entry: Json) -> Option<i64> {
    entry.member("raw"@).member("value"@).whole()
}

/// The raw value of the attribute called `name`: that of the last entry of the
/// table that bears the name, absent where none does.
pub open spec fn attribute_value(table: Seq<Json>, name: Seq<char>) -> Option<i64>
    decreases table.len(),
{
    if table.len() == 0 {
        None
    } else if is_attribute(table.last(), name) {
        raw_value(table.last())
    } else {
        attribute_value(table.drop_last(), name)
    }
}

/// The attribute table of a report.
pub open spec fn attribute_table(document: Json) -> Seq<Json> {
    document.member("ata_smart_attributes"@).member("table"@).items()
}

/// The disk sample that the report on a device makes. What the report does not
/// hold stays absent.
pub open spec fn disk_sample(
    time: Timestamp,
    host_name: Option<String>,
    device: String,
    document: Json,
) -> DiskStat {
    DiskStat {
        time,
        host_name,
        name: Some(device),
        temperature: document.member("temperature"@).member("current"@).double(),
        crc_errors: attribute_value(attribute_table(document), "UDMA_CRC_Error_Count"@),
        seek_time: attribute_value(attribute_table(document), "Seek_Time_Performance"@),
        seek_error_rate: attribute_value(attribute_table(document), "Seek_Error_Rate"@),
        throughput: attribute_value(attribute_table(document), "Throughput_Performance"@),
        read_error_rate: attribute_value(attribute_table(document), "Raw_Read_Error_Rate"@),
    }
}

/// A disk sample with its five attributes looked up in `table` instead.
spec fn with_attributes(sample: DiskStat, table: Seq<Json>) -> DiskStat {
    DiskStat {
        crc_errors: attribute_value(table, "UDMA_CRC_Error_Count"@),
        seek_time: attribute_value(table, "Seek_Time_Performance"@),
        seek_error_rate: attribute_value(table, "Seek_Error_Rate"@),
        throughput: attribute_value(table, "Throughput_Performance"@),
        read_error_rate: attribute_value(table, "Raw_Read_Error_Rate"@),
        ..sample
    }
}

/// The raw value of an entry of the attribute table.
fn raw_value_of(entry: &Json) -> (value: Option<i64>)
    ensures
        value == raw_value(*entry),
{
    match entry.get_nested("raw", "value") {
        Some(number) => number.as_whole(),
        None => None,
    }
}

/// Tells whether an entry of the attribute table is the attribute called `name`.
fn bears_name(entry: &Json, name: &String) -> (verdict: bool)
    ensures
        verdict == is_attribute(*entry, name@),
{
    match entry.get("name") {
        Some(text) => text.text_is(name),
        None => false,
    }
}

/// Makes the disk sample of one device from the document that the attribute tool
/// printed for it: the temperature, and the five attributes that are looked up by
/// name in the tool's table.
pub fn disk_stat_from_document(
    time: Timestamp,
    host_name: Option<String>,
    device: String,
    document: &Json,
) -> (entry: DiskStat)
    ensures
        entry == disk_sample(time, host_name, device, *document),
{
    let temperature = match document.get_nested("temperature", "current") {
        Some(number) => number.as_double(),
        None => None,
    };
    let mut entry = DiskStat {
        time,
        host_name,
        name: Some(device),
        temperature,
        crc_errors: None,
        seek_time: None,
        seek_error_rate: None,
        throughput: None,
        read_error_rate: None,
    };
    let table = match document.get_nested("ata_smart_attributes", "table") {
        Some(found) => found.as_items(),
        None => None,
    };
    match table {
        Some(entries) => {
            let crc_errors = String::from_str("UDMA_CRC_Error_Count");
            let seek_time = String::from_str("Seek_Time_Performance");
            let seek_error_rate = String::from_str("Seek_Error_Rate");
            let throughput = String::from_str("Throughput_Performance");
            let read_error_rate = String::from_str("Raw_Read_Error_Rate");
            let mut i: usize = 0;
            assert(entries@.take(0) == Seq::<Json>::empty());
            while i < entries.len()
                invariant
                    i <= entries.len(),
                    crc_errors@ == "UDMA_CRC_Error_Count"@,
                    seek_time@ == "Seek_Time_Performance"@,
                    seek_error_rate@ == "Seek_Error_Rate"@,
                    throughput@ == "Throughput_Performance"@,
                    read_error_rate@ == "Raw_Read_Error_Rate"@,
                    entry == with_attributes(
                        disk_sample(time, host_name, device, *document),
                        entries@.take(i as int),
                    ),
                decreases entries.len() - i,
            {
                let attribute = &entries[i];
                proof {
                    let seen = entries@.take(i + 1);
                    assert(seen.drop_last() == entries@.take(i as int));
                    assert(seen.last() == *attribute);
                }
                if bears_name(attribute, &seek_error_rate) {
                    entry.seek_error_rate = raw_value_of(attribute);
                }
                if bears_name(attribute, &throughput) {
                    entry.throughput = raw_value_of(attribute);
                }
                if bears_name(attribute, &read_error_rate) {
                    entry.read_error_rate = raw_value_of(attribute);
                }
                if bears_name(attribute, &crc_errors) {
                    entry.crc_errors = raw_value_of(attribute);
                }
                if bears_name(attribute, &seek_time) {
                    entry.seek_time = raw_value_of(attribute);
                }
                i += 1;
            }
            assert(entries@.take(entries.len() as int) == entries@);
        },
        None => {},
    }
    entry
}

/// The disk sample of one probe: none where the tool could not be run, so that the
/// device is passed over; else the sample that the tool's output makes, read as a
/// document.
pub open spec fn probe_sample(host_name: Option<String>, probe: DiskProbe) -> Option<DiskStat> {
    match probe.report {
        Some(output) => Some(
            disk_sample(probe.captured, host_name, probe.device, document_of(output@)),
        ),
        None => None,
    }
}

/// Makes the disk samples of one refresh: one for each device on which the
/// attribute tool could be run, in the order of the probes.
pub fn disk_stats_entry(
    host_name: &Option<String>,
    probes: Vec<DiskProbe>,
) -> (entries: Vec<DiskStat>)
    ensures
        entries@ == probes@.filter_map(|probe: DiskProbe| probe_sample(*host_name, probe)),
{
    let ghost all = probes@;
    let ghost sample = |probe: DiskProbe| probe_sample(*host_name, probe);
    let mut entries: Vec<DiskStat> = Vec::new();
    assert(all.take(0) == Seq::<DiskProbe>::empty());
    for probe in it: probes
        invariant
            it.seq() == all,
            forall|p: DiskProbe| #[trigger] sample(p) == probe_sample(*host_name, p),
            entries@ == all.take(it.index() as int).filter_map(sample),
    {
        proof {
            let seen = all.take(it.index() + 1);
            assert(seen.drop_last() == all.take(it.index() as int));
            assert(seen.last() == probe);
        }
        match probe.report {
            Some(output) => {
                let document = parse_document(output.as_str());
                entries.push(
                    disk_stat_from_document(
                        probe.captured,
                        copy_of(host_name),
                        probe.device,
                        &document,
                    ),
                );
            },
            None => {},
        }
    }
    assert(all.take(all.len() as int) == all);
    entries
}

} // verus!
