//! The four kinds of sample, and the rule that tells an empty one.

use vstd::prelude::*;
use crate::time::Timestamp;

verus! {

/// A sample type whose every attribute but the time key may be absent.
///
/// A sample is empty when it equals the all-absent sample that shares its key, so
/// the key itself never makes a sample count as filled.
pub trait DefaultWithTime: Sized {
    /// The capture instant, which is the sample's key.
    spec fn time_key(&self) -> Timestamp;

    /// The sample with the given key and every other attribute absent.
    spec fn absent_at(time: Timestamp) -> Self;

    /// Whether the sample carries nothing but its key.
    open spec fn empty(&self) -> bool {
        *self == Self::absent_at(self.time_key())
    }

    /// Returns the all-absent sample that shares the key of `entry`.
    fn default_skip_time(entry: &Self) -> (fresh: Self)
        ensures
            fresh == Self::absent_at(entry.time_key()),
            fresh.time_key() == entry.time_key(),
            fresh.empty(),
    ;

    /// Tells whether the sample carries nothing but its key.
    fn is_empty(&self) -> (verdict: bool)
        ensures
            verdict == self.empty(),
    ;
}

/// One row of a user process with the resources it uses.
#[derive(Debug, Clone, PartialEq)]
pub struct ProcStat {
    /// Capture instant, the key.
    pub time: Timestamp,
    /// Host on which the process runs.
    pub host_name: Option<String>,
    /// Instant at which the process started.
    pub start_time: Option<Timestamp>,
    /// Absolute path of the executable.
    pub exe: Option<String>,
    /// Full command line.
    pub cmd: Option<String>,
    /// Process name.
    pub name: Option<String>,
    /// Bytes read from disk since the last refresh.
    pub disk_read: Option<i64>,
    /// Bytes read from disk since the process started.
    pub disk_read_total: Option<i64>,
    /// Bytes written to disk since the last refresh.
    pub disk_written: Option<i64>,
    /// Bytes written to disk since the process started.
    pub disk_written_total: Option<i64>,
    /// Processor usage in percent, as the bits of a single-precision number.
    pub cpu_usage: Option<u32>,
    /// Resident memory.
    pub rss: Option<i64>,
    /// Process status, as the provider words it.
    pub status: Option<String>,
}

impl ProcStat {
    /// The process sample taken at `time` in which nothing was reported.
    pub fn new(time: Timestamp) -> (fresh: ProcStat)
        ensures
            fresh == <ProcStat as DefaultWithTime>::absent_at(time),
    {
        ProcStat {
            time,
            host_name: None,
            start_time: None,
            exe: None,
            cmd: None,
            name: None,
            disk_read: None,
            disk_read_total: None,
            disk_written: None,
            disk_written_total: None,
            cpu_usage: None,
            rss: None,
            status: None,
        }
    }
}

impl DefaultWithTime for ProcStat {
    open spec fn time_key(&self) -> Timestamp {
        self.time
    }

    open spec fn absent_at(time: Timestamp) -> ProcStat {
        ProcStat {
            time,
            host_name: None,
            start_time: None,
            exe: None,
            cmd: None,
            name: None,
            disk_read: None,
            disk_read_total: None,
            disk_written: None,
            disk_written_total: None,
            cpu_usage: None,
            rss: None,
            status: None,
        }
    }

    fn default_skip_time(entry: &ProcStat) -> (fresh: ProcStat) {
        ProcStat::new(entry.time)
    }

    fn is_empty(&self) -> (verdict: bool) {
        self.host_name.is_none() && self.start_time.is_none() && self.exe.is_none()
            && self.cmd.is_none() && self.name.is_none() && self.disk_read.is_none()
            && self.disk_read_total.is_none() && self.disk_written.is_none()
            && self.disk_written_total.is_none() && self.cpu_usage.is_none()
            && self.rss.is_none() && self.status.is_none()
    }
}

/// One row of system-wide figures.
#[derive(Debug, Clone, PartialEq)]
pub struct SysStat {
    /// Capture instant, the key.
    pub time: Timestamp,
    /// Name of the operating system.
    pub name: Option<String>,
    /// Kernel version.
    pub kernel_version: Option<String>,
    /// Version of the operating system.
    pub os_version: Option<String>,
    /// Host name of the machine.
    pub host_name: Option<String>,
    /// Number of processors.
    pub processors: Option<i32>,
    /// Memory installed.
    pub total_memory: Option<i64>,
    /// Memory in use.
    pub used_memory: Option<i64>,
    /// Swap space configured.
    pub total_swap: Option<i64>,
    /// Swap space in use.
    pub used_swap: Option<i64>,
    /// Load average over one minute, as the bits of a double-precision number.
    pub load_one: Option<u64>,
    /// Load average over five minutes, as the bits of a double-precision number.
    pub load_five: Option<u64>,
    /// Load average over fifteen minutes, as the bits of a double-precision number.
    pub load_fifteen: Option<u64>,
    /// Processor usage of the whole system in percent, as the bits of a
    /// single-precision number.
    pub cpu_usage: Option<u32>,
}

impl SysStat {
    /// The system sample taken at `time` in which nothing was reported.
    pub fn new(time: Timestamp) -> (fresh: SysStat)
        ensures
            fresh == <SysStat as DefaultWithTime>::absent_at(time),
    {
        SysStat {
            time,
            name: None,
            kernel_version: None,
            os_version: None,
            host_name: None,
            processors: None,
            total_memory: None,
            used_memory: None,
            total_swap: None,
            used_swap: None,
            load_one: None,
            load_five: None,
            load_fifteen: None,
            cpu_usage: None,
        }
    }
}

impl DefaultWithTime for SysStat {
    open spec fn time_key(&self) -> Timestamp {
        self.time
    }

    open spec fn absent_at(time: Timestamp) -> SysStat {
        SysStat {
            time,
            name: None,
            kernel_version: None,
            os_version: None,
            host_name: None,
            processors: None,
            total_memory: None,
            used_memory: None,
            total_swap: None,
            used_swap: None,
            load_one: None,
            load_five: None,
            load_fifteen: None,
            cpu_usage: None,
        }
    }

    fn default_skip_time(entry: &SysStat) -> (fresh: SysStat) {
        SysStat::new(entry.time)
    }

    fn is_empty(&self) -> (verdict: bool) {
        self.name.is_none() && self.kernel_version.is_none() && self.os_version.is_none()
            && self.host_name.is_none() && self.processors.is_none()
            && self.total_memory.is_none() && self.used_memory.is_none()
            && self.total_swap.is_none() && self.used_swap.is_none() && self.load_one.is_none()
            && self.load_five.is_none() && self.load_fifteen.is_none()
            && self.cpu_usage.is_none()
    }
}

/// One row of health figures of a disk.
#[derive(Debug, Clone, PartialEq)]
pub struct DiskStat {
    /// Capture instant, the key.
    pub time: Timestamp,
    /// Host to which the disk is attached.
    pub host_name: Option<String>,
    /// Device name.
    pub name: Option<String>,
    /// Temperature, as the bits of a double-precision number.
    pub temperature: Option<u64>,
    /// Count of checksum errors on the link.
    pub crc_errors: Option<i64>,
    /// Seek time performance.
    pub seek_time: Option<i64>,
    /// Seek error rate.
    pub seek_error_rate: Option<i64>,
    /// Throughput performance.
    pub throughput: Option<i64>,
    /// Raw read error rate.
    pub read_error_rate: Option<i64>,
}

impl DiskStat {
    /// The disk sample taken at `time` in which nothing was reported.
    pub fn new(time: Timestamp) -> (fresh: DiskStat)
        ensures
            fresh == <DiskStat as DefaultWithTime>::absent_at(time),
    {
        DiskStat {
            time,
            host_name: None,
            name: None,
            temperature: None,
            crc_errors: None,
            seek_time: None,
            seek_error_rate: None,
            throughput: None,
            read_error_rate: None,
        }
    }
}

impl DefaultWithTime for DiskStat {
    open spec fn time_key(&self) -> Timestamp {
        self.time
    }

    open spec fn absent_at(time: Timestamp) -> DiskStat {
        DiskStat {
            time,
            host_name: None,
            name: None,
            temperature: None,
            crc_errors: None,
            seek_time: None,
            seek_error_rate: None,
            throughput: None,
            read_error_rate: None,
        }
    }

    fn default_skip_time(entry: &DiskStat) -> (fresh: DiskStat) {
        DiskStat::new(entry.time)
    }

    fn is_empty(&self) -> (verdict: bool) {
        self.host_name.is_none() && self.name.is_none() && self.temperature.is_none()
            && self.crc_errors.is_none() && self.seek_time.is_none()
            && self.seek_error_rate.is_none() && self.throughput.is_none()
            && self.read_error_rate.is_none()
    }
}

/// One row of figures of an uninterruptible power supply.
#[derive(Debug, Clone, PartialEq)]
pub struct UpsStat {
    /// Capture instant, the key.
    pub time: Timestamp,
    /// Model name.
    pub model: Option<String>,
    /// Status, as the supply words it.
    pub status: Option<String>,
    /// Load in percent.
    pub load: Option<i32>,
    /// Input frequency, as the bits of a double-precision number.
    pub input_frequency: Option<u64>,
    /// Input voltage, as the bits of a double-precision number.
    pub input_voltage: Option<u64>,
    /// Battery charge in percent.
    pub battery_charge: Option<i32>,
    /// Battery voltage, as the bits of a double-precision number.
    pub battery_voltage: Option<u64>,
}

impl UpsStat {
    /// The power-supply sample taken at `time` in which nothing was reported.
    pub fn new(time: Timestamp) -> (fresh: UpsStat)
        ensures
            fresh == <UpsStat as DefaultWithTime>::absent_at(time),
    {
        UpsStat {
            time,
            model: None,
            status: None,
            load: None,
            input_frequency: None,
            input_voltage: None,
            battery_charge: None,
            battery_voltage: None,
        }
    }
}

impl DefaultWithTime for UpsStat {
    open spec fn time_key(&self) -> Timestamp {
        self.time
    }

    open spec fn absent_at(time: Timestamp) -> UpsStat {
        UpsStat {
            time,
            model: None,
            status: None,
            load: None,
            input_frequency: None,
            input_voltage: None,
            battery_charge: None,
            battery_voltage: None,
        }
    }

    fn default_skip_time(entry: &UpsStat) -> (fresh: UpsStat) {
        UpsStat::new(entry.time)
    }

    fn is_empty(&self) -> (verdict: bool) {
        self.model.is_none() && self.status.is_none() && self.load.is_none()
            && self.input_frequency.is_none() && self.input_voltage.is_none()
            && self.battery_charge.is_none() && self.battery_voltage.is_none()
    }
}

/// The all-absent process sample is empty under any key, and a process sample is
/// empty exactly when each of its attributes but the key is absent: one attribute
/// that is present makes it a sample to keep.
pub proof fn lemma_proc_stat_empty(sample: ProcStat)
    ensures
        <ProcStat as DefaultWithTime>::absent_at(sample.time).empty(),
        sample.empty() <==> {
            &&& sample.host_name is None
            &&& sample.start_time is None
            &&& sample.exe is None
            &&& sample.cmd is None
            &&& sample.name is None
            &&& sample.disk_read is None
            &&& sample.disk_read_total is None
            &&& sample.disk_written is None
            &&& sample.disk_written_total is None
            &&& sample.cpu_usage is None
            &&& sample.rss is None
            &&& sample.status is None
        },
{
}

/// The all-absent system sample is empty under any key, and a system sample is
/// empty exactly when each of its attributes but the key is absent: one attribute
/// that is present makes it a sample to keep.
pub proof fn lemma_sys_stat_empty(sample: SysStat)
    ensures
        <SysStat as DefaultWithTime>::absent_at(sample.time).empty(),
        sample.empty() <==> {
            &&& sample.name is None
            &&& sample.kernel_version is None
            &&& sample.os_version is None
            &&& sample.host_name is None
            &&& sample.processors is None
            &&& sample.total_memory is None
            &&& sample.used_memory is None
            &&& sample.total_swap is None
            &&& sample.used_swap is None
            &&& sample.load_one is None
            &&& sample.load_five is None
            &&& sample.load_fifteen is None
            &&& sample.cpu_usage is None
        },
{
}

/// The all-absent disk sample is empty under any key, and a disk sample is
/// empty exactly when each of its attributes but the key is absent: one attribute
/// that is present makes it a sample to keep.
pub proof fn lemma_disk_stat_empty(sample: DiskStat)
    ensures
        <DiskStat as DefaultWithTime>::absent_at(sample.time).empty(),
        sample.empty() <==> {
            &&& sample.host_name is None
            &&& sample.name is None
            &&& sample.temperature is None
            &&& sample.crc_errors is None
            &&& sample.seek_time is None
            &&& sample.seek_error_rate is None
            &&& sample.throughput is None
            &&& sample.read_error_rate is None
        },
{
}

/// The all-absent power-supply sample is empty under any key, and a power-supply
/// sample is empty exactly when each of its attributes but the key is absent: one
/// attribute that is present makes it a sample to keep.
pub proof fn lemma_ups_stat_empty(sample: UpsStat)
    ensures
        <UpsStat as DefaultWithTime>::absent_at(sample.time).empty(),
        sample.empty() <==> {
            &&& sample.model is None
            &&& sample.status is None
            &&& sample.load is None
            &&& sample.input_frequency is None
            &&& sample.input_voltage is None
            &&& sample.battery_charge is None
            &&& sample.battery_voltage is None
        },
{
}


} // verus!
