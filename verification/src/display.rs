//! Samples as lines of text, for a reader at the console.
//!
//! A line shows nought for an absent number and nothing for an absent text. Real
//! numbers and points in time reach this module already written out, since writing
//! them is not its business; the sample decides whether they are shown.

use vstd::prelude::*;
use crate::models::{DiskStat, ProcStat, SysStat, UpsStat};
use crate::text::{integer_text, push_integer, text_or_empty};

verus! {

/// A whole number as a line shows it: in decimal, and nought where it is absent.
pub open spec fn shown_whole(value: Option<i64>) -> Seq<char> {
    match value {
        Some(v) => integer_text(v as int),
        None => integer_text(0),
    }
}

/// A smaller whole number as a line shows it.
pub open spec fn shown_count(value: Option<i32>) -> Seq<char> {
    match value {
        Some(v) => integer_text(v as int),
        None => integer_text(0),
    }
}

/// A real number as a line shows it: as `written` where the sample holds one, and
/// as nought where it is absent.
pub open spec fn shown_decimal<T>(value: Option<T>, written: Seq<char>) -> Seq<char> {
    if value is Some {
        written
    } else {
        "0"@
    }
}

/// Writes an optional text at the end of a line.
fn push_text(line: &mut String, text: &Option<String>)
    ensures
        final(line)@ == old(line)@ + text_or_empty(*text),
{
    match text {
        Some(t) => {
            line.append(t.as_str());
        },
        None => {
            assert(old(line)@ + Seq::<char>::empty() =~= old(line)@);
        },
    }
}

/// Writes an optional whole number at the end of a line.
fn push_whole(line: &mut String, value: Option<i64>)
    ensures
        final(line)@ == old(line)@ + shown_whole(value),
{
    match value {
        Some(v) => push_integer(line, v),
        None => push_integer(line, 0),
    }
}

/// Writes an optional smaller whole number at the end of a line.
fn push_count(line: &mut String, value: Option<i32>)
    ensures
        final(line)@ == old(line)@ + shown_count(value),
{
    match value {
        Some(v) => push_integer(line, v as i64),
        None => push_integer(line, 0),
    }
}

/// Writes an optional real number at the end of a line.
fn push_decimal(line: &mut String, present: bool, written: &str)
    ensures
        final(line)@ == old(line)@ + if present {
            written@
        } else {
            "0"@
        },
{
    if present {
        line.append(written);
    } else {
        line.append("0");
    }
}

/// The real numbers of a system sample, written out.
#[derive(Debug, Clone, PartialEq, Default)]
pub struct SysStatDecimals {
    /// Processor usage.
    pub cpu_usage: String,
    /// Load average over one minute.
    pub load_one: String,
    /// Load average over five minutes.
    pub load_five: String,
    /// Load average over fifteen minutes.
    pub load_fifteen: String,
}

/// The real numbers of a power-supply sample, written out.
#[derive(Debug, Clone, PartialEq, Default)]
pub struct UpsStatDecimals {
    /// Input frequency.
    pub input_frequency: String,
    /// Input voltage.
    pub input_voltage: String,
    /// Battery voltage.
    pub battery_voltage: String,
}

impl DiskStat {
    /// The line that shows the sample, with its temperature written as
    /// `temperature`.
    pub open spec fn line(self, temperature: Seq<char>) -> Seq<char> {
        "Name: "@ + text_or_empty(self.name) + ", Temperature: "@ + shown_decimal(
            self.temperature,
            temperature,
        ) + ", CRC Errors: "@ + shown_whole(self.crc_errors) + ", Seek Time: "@ + shown_whole(
            self.seek_time,
        ) + ", Seek Error Rate: "@ + shown_whole(self.seek_error_rate) + ", Throughput: "@
            + shown_whole(self.throughput) + ", Read Error Rate: "@ + shown_whole(
            self.read_error_rate,
        )
    }

    /// Writes the sample as a line of text. `temperature` is the temperature
    /// written out, and is shown where the sample holds one.
    pub fn render(&self, temperature: &str) -> (line: String)
        ensures
            line@ == self.line(temperature@),
    {
        let mut line = String::from_str("Name: ");
        push_text(&mut line, &self.name);
        line.append(", Temperature: ");
        push_decimal(&mut line, self.temperature.is_some(), temperature);
        line.append(", CRC Errors: ");
        push_whole(&mut line, self.crc_errors);
        line.append(", Seek Time: ");
        push_whole(&mut line, self.seek_time);
        line.append(", Seek Error Rate: ");
        push_whole(&mut line, self.seek_error_rate);
        line.append(", Throughput: ");
        push_whole(&mut line, self.throughput);
        line.append(", Read Error Rate: ");
        push_whole(&mut line, self.read_error_rate);
        line
    }
}

impl ProcStat {
    /// The line that shows the sample, with its start written as `start_time`
    /// and its processor usage as `cpu_usage`.
    pub open spec fn line(self, start_time: Seq<char>, cpu_usage: Seq<char>) -> Seq<char> {
        "Name: "@ + text_or_empty(self.name) + ", Exe: "@ + text_or_empty(self.exe) + ", Cmd: "@
            + text_or_empty(self.cmd) + ", Status: "@ + text_or_empty(self.status)
            + ", Start time: "@ + (if self.start_time is Some {
            start_time
        } else {
            Seq::empty()
        }) + ", CPU Usage: "@ + shown_decimal(self.cpu_usage, cpu_usage) + ", Resident Memory: "@
            + shown_whole(self.rss) + "KiB, Disk Read: "@ + shown_whole(self.disk_read) + " / "@
            + shown_whole(self.disk_read_total) + ", Disk Write: "@ + shown_whole(
            self.disk_written,
        ) + " / "@ + shown_whole(self.disk_written_total) + ","@
    }

    /// Writes the sample as a line of text, from its start and its processor
    /// usage written out. Each is shown where the sample holds the attribute.
    pub fn describe(&self, start_time: &str, cpu_usage: &str) -> (line: String)
        ensures
            line@ == self.line(start_time@, cpu_usage@),
    {
        let mut line = String::from_str("Name: ");
        push_text(&mut line, &self.name);
        line.append(", Exe: ");
        push_text(&mut line, &self.exe);
        line.append(", Cmd: ");
        push_text(&mut line, &self.cmd);
        line.append(", Status: ");
        push_text(&mut line, &self.status);
        line.append(", Start time: ");
        if self.start_time.is_some() {
            line.append(start_time);
        } else {
            assert(line@ + Seq::<char>::empty() =~= line@);
        }
        line.append(", CPU Usage: ");
        push_decimal(&mut line, self.cpu_usage.is_some(), cpu_usage);
        line.append(", Resident Memory: ");
        push_whole(&mut line, self.rss);
        line.append("KiB, Disk Read: ");
        push_whole(&mut line, self.disk_read);
        line.append(" / ");
        push_whole(&mut line, self.disk_read_total);
        line.append(", Disk Write: ");
        push_whole(&mut line, self.disk_written);
        line.append(" / ");
        push_whole(&mut line, self.disk_written_total);
        line.append(",");
        line
    }

    /// Writes the sample as a line of text, with its start as date and time of day
    /// in the machine's time zone.
    pub fn render(&self, cpu_usage: &str) -> (line: String)
        ensures
            exists|start_time: Seq<char>| line@ == self.line(start_time, cpu_usage@),
    {
        let start_time = match self.start_time {
            Some(instant) => instant.local_text(),
            None => String::new(),
        };
        self.describe(start_time.as_str(), cpu_usage)
    }
}

impl SysStat {
    /// The line that shows the sample, with its key written as `time` and its
    /// real numbers as `decimals`.
    pub open spec fn line(self, time: Seq<char>, decimals: SysStatDecimals) -> Seq<char> {
        "Time: "@ + time + ", Name: "@ + text_or_empty(self.name) + ", CPU usage: "@
            + shown_decimal(self.cpu_usage, decimals.cpu_usage@) + ", Load: "@ + shown_decimal(
            self.load_one,
            decimals.load_one@,
        ) + " "@ + shown_decimal(self.load_five, decimals.load_five@) + " "@ + shown_decimal(
            self.load_fifteen,
            decimals.load_fifteen@,
        ) + ", Kernel version: "@ + text_or_empty(self.kernel_version) + ", OS vesion: "@
            + text_or_empty(self.os_version) + ", Host name: "@ + text_or_empty(self.host_name)
            + ", Processors: "@ + shown_count(self.processors) + ", Total memory: "@
            + shown_whole(self.total_memory) + "KiB, Used memory: "@ + shown_whole(
            self.used_memory,
        ) + "KiB, Total swap: "@ + shown_whole(self.total_swap) + "KiB, Used swap: "@
            + shown_whole(self.used_swap) + "KiB"@
    }

    /// Writes the sample as a line of text, from its key and its real numbers
    /// written out. A real number is shown where the sample holds the attribute.
    pub fn describe(&self, time: &str, decimals: &SysStatDecimals) -> (line: String)
        ensures
            line@ == self.line(time@, *decimals),
    {
        let mut line = String::from_str("Time: ");
        line.append(time);
        line.append(", Name: ");
        push_text(&mut line, &self.name);
        line.append(", CPU usage: ");
        push_decimal(&mut line, self.cpu_usage.is_some(), decimals.cpu_usage.as_str());
        line.append(", Load: ");
        push_decimal(&mut line, self.load_one.is_some(), decimals.load_one.as_str());
        line.append(" ");
        push_decimal(&mut line, self.load_five.is_some(), decimals.load_five.as_str());
        line.append(" ");
        push_decimal(&mut line, self.load_fifteen.is_some(), decimals.load_fifteen.as_str());
        line.append(", Kernel version: ");
        push_text(&mut line, &self.kernel_version);
        line.append(", OS vesion: ");
        push_text(&mut line, &self.os_version);
        line.append(", Host name: ");
        push_text(&mut line, &self.host_name);
        line.append(", Processors: ");
        push_count(&mut line, self.processors);
        line.append(", Total memory: ");
        push_whole(&mut line, self.total_memory);
        line.append("KiB, Used memory: ");
        push_whole(&mut line, self.used_memory);
        line.append("KiB, Total swap: ");
        push_whole(&mut line, self.total_swap);
        line.append("KiB, Used swap: ");
        push_whole(&mut line, self.used_swap);
        line.append("KiB");
        line
    }

    /// Writes the sample as a line of text, with its key as date and time of day in
    /// the machine's time zone.
    pub fn render(&self, decimals: &SysStatDecimals) -> (line: String)
        ensures
            exists|time: Seq<char>| line@ == self.line(time, *decimals),
    {
        let time = self.time.local_text();
        self.describe(time.as_str(), decimals)
    }
}

impl UpsStat {
    /// The line that shows the sample, with its key written as `time` and its
    /// real numbers as `decimals`.
    pub open spec fn line(self, time: Seq<char>, decimals: UpsStatDecimals) -> Seq<char> {
        "Time: "@ + time + ", Model: "@ + text_or_empty(self.model) + ", Status: "@
            + text_or_empty(self.status) + ", Load: "@ + shown_count(self.load)
            + ", Input frequency: "@ + shown_decimal(
            self.input_frequency,
            decimals.input_frequency@,
        ) + ", Input voltage: "@ + shown_decimal(self.input_voltage, decimals.input_voltage@)
            + ", Battery charge: "@ + shown_count(self.battery_charge) + ", Battery voltage: "@
            + shown_decimal(self.battery_voltage, decimals.battery_voltage@)
    }

    /// Writes the sample as a line of text, from its key and its real numbers
    /// written out. A real number is shown where the sample holds the attribute.
    pub fn describe(&self, time: &str, decimals: &UpsStatDecimals) -> (line: String)
        ensures
            line@ == self.line(time@, *decimals),
    {
        let mut line = String::from_str("Time: ");
        line.append(time);
        line.append(", Model: ");
        push_text(&mut line, &self.model);
        line.append(", Status: ");
        push_text(&mut line, &self.status);
        line.append(", Load: ");
        push_count(&mut line, self.load);
        line.append(", Input frequency: ");
        push_decimal(&mut line, self.input_frequency.is_some(), decimals.input_frequency.as_str());
        line.append(", Input voltage: ");
        push_decimal(&mut line, self.input_voltage.is_some(), decimals.input_voltage.as_str());
        line.append(", Battery charge: ");
        push_count(&mut line, self.battery_charge);
        line.append(", Battery voltage: ");
        push_decimal(&mut line, self.battery_voltage.is_some(), decimals.battery_voltage.as_str());
        line
    }

    /// Writes the sample as a line of text, with its key as date and time of day in
    /// the machine's time zone.
    pub fn render(&self, decimals: &UpsStatDecimals) -> (line: String)
        ensures
            exists|time: Seq<char>| line@ == self.line(time, *decimals),
    {
        let time = self.time.local_text();
        self.describe(time.as_str(), decimals)
    }
}

} // verus!
