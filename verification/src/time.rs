//! Capture instants, counted in nanoseconds from the Unix epoch.

use vstd::prelude::*;

verus! {

/// Nanoseconds in one second.
pub const NANOS_PER_SEC: u32 = 1_000_000_000;

/// The farthest instant from the epoch, on either side, that a clock can report:
/// the largest whole number of seconds in 64 bits, and a full fraction of a second.
pub open spec fn clock_limit() -> int {
    u64::MAX as int * 1_000_000_000 + 999_999_999
}

/// An instant, as a signed number of nanoseconds counted from the Unix epoch.
/// It is the key of every sample.
#[derive(Clone, Copy, Debug, PartialEq, Eq, PartialOrd, Ord, Hash, Structural)]
pub struct Timestamp {
    pub nanos: i128,
}

impl Timestamp {
    /// Whether a clock can report this instant.
    pub open spec fn in_clock_range(self) -> bool {
        -clock_limit() <= self.nanos <= clock_limit()
    }

    /// The whole seconds between the epoch and this instant, rounded towards the past.
    pub open spec fn whole_seconds(self) -> int {
        self.nanos as int / 1_000_000_000
    }

    /// The nanoseconds that this instant lies after `whole_seconds`.
    pub open spec fn subsec_nanos(self) -> int {
        self.nanos as int % 1_000_000_000
    }

    /// The instant as a store keeps it that counts in microseconds: the whole
    /// microseconds between the epoch and the instant, rounded towards the past.
    pub open spec fn stored_micros(self) -> int {
        self.nanos as int / 1000
    }

    /// Tells whether a clock can report this instant.
    pub fn is_in_clock_range(&self) -> (verdict: bool)
        ensures
            verdict == self.in_clock_range(),
    {
        let limit: i128 = 18_446_744_073_709_551_615_999_999_999;
        -limit <= self.nanos && self.nanos <= limit
    }

    /// The instant of the epoch itself.
    pub fn epoch() -> (t: Timestamp)
        ensures
            t.nanos == 0,
    {
        Timestamp { nanos: 0 }
    }

    /// The instant that lies `secs` seconds and `nanos` nanoseconds after the epoch.
    /// It is one that a clock can report where `nanos` is less than a second.
    pub fn after_epoch(secs: u64, nanos: u32) -> (t: Timestamp)
        ensures
            t.nanos == secs as int * 1_000_000_000 + nanos as int,
            nanos < NANOS_PER_SEC ==> t.in_clock_range(),
    {
        assert(secs as int * 1_000_000_000 <= u64::MAX as int * 1_000_000_000) by (nonlinear_arith)
            requires
                secs <= u64::MAX,
        ;
        Timestamp { nanos: secs as i128 * 1_000_000_000 + nanos as i128 }
    }

    /// The instant that lies `secs` seconds and `nanos` nanoseconds before the epoch.
    /// It is one that a clock can report where `nanos` is less than a second.
    pub fn before_epoch(secs: u64, nanos: u32) -> (t: Timestamp)
        ensures
            t.nanos == -(secs as int * 1_000_000_000 + nanos as int),
            nanos < NANOS_PER_SEC ==> t.in_clock_range(),
    {
        assert(secs as int * 1_000_000_000 <= u64::MAX as int * 1_000_000_000) by (nonlinear_arith)
            requires
                secs <= u64::MAX,
        ;
        Timestamp { nanos: -(secs as i128 * 1_000_000_000 + nanos as i128) }
    }

    /// Splits the instant into whole seconds and the nanoseconds after them, the form in
    /// which calendars take it. Before the epoch the seconds are negative and the
    /// nanoseconds still count forwards. `None` where the seconds do not fit in 64 bits.
    pub fn epoch_parts(&self) -> (parts: Option<(i64, u32)>)
        ensures
            parts is Some <==> i64::MIN <= self.whole_seconds() <= i64::MAX,
            parts matches Some((secs, nanos)) ==> secs == self.whole_seconds() && nanos
                == self.subsec_nanos(),
    {
        let (secs, nanos): (i128, u32) = if self.nanos >= 0 {
            let whole: u128 = self.nanos as u128;
            ((whole / 1_000_000_000) as i128, (whole % 1_000_000_000) as u32)
        } else if self.nanos == i128::MIN {
            return None;
        } else {
            let whole: u128 = (-self.nanos) as u128;
            let s: i128 = (whole / 1_000_000_000) as i128;
            let n: u32 = (whole % 1_000_000_000) as u32;
            proof {
                lemma_floor_of_negative(whole as int, 1_000_000_000);
            }
            if n == 0 {
                (-s, 0)
            } else {
                (-s - 1, 1_000_000_000 - n)
            }
        };
        if secs < i64::MIN as i128 || secs > i64::MAX as i128 {
            None
        } else {
            Some((secs as i64, nanos))
        }
    }
}

/// Asks `chrono` how many seconds east of Greenwich the machine's time zone stands at
/// an instant: `TimeZone::timestamp_opt` on `Local`, then `local_minus_utc`. `None`
/// where it has no date for the instant. Claimed: less than a day either way.
#[verifier::external_body]
fn local_offset(secs: i64, nanos: u32) -> (offset: Option<i32>)
    ensures
        offset matches Some(east) ==> -86_400 < east < 86_400,
{
    let date = chrono::TimeZone::timestamp_opt(&chrono::Local, secs, nanos).single()?;
    Some(date.offset().local_minus_utc())
}

impl Timestamp {
    /// The instant as date and time of day in the machine's time zone: its calendar
    /// form at the offset from Greenwich that the zone has at this instant.
    pub fn local_text(&self) -> (text: String)
        ensures
            exists|east: i32|
                -86_400 < east < 86_400 && text@ == #[trigger] self.calendar_at(east),
            !(i64::MIN <= self.whole_seconds() <= i64::MAX) ==> text@ == Seq::<char>::empty(),
    {
        let east = match self.epoch_parts() {
            Some((secs, nanos)) => match local_offset(secs, nanos) {
                Some(east) => east,
                None => 0,
            },
            None => 0,
        };
        let text = self.text_at_offset(east);
        assert(text@ == self.calendar_at(east));
        text
    }

    /// The calendar form of the instant at `east` seconds east of Greenwich: date,
    /// time of day and offset as `chrono` writes them. It is empty where the seconds
    /// of the instant do not fit in 64 bits, or `chrono` has no such date or offset.
    pub open spec fn calendar_at(self, east: i32) -> Seq<char> {
        if i64::MIN <= self.whole_seconds() <= i64::MAX {
            match calendar_text(self.whole_seconds() as i64, self.subsec_nanos() as u32, east) {
                Some(text) => text,
                None => Seq::empty(),
            }
        } else {
            Seq::empty()
        }
    }

    /// Writes the instant as date and time of day at `east` seconds east of
    /// Greenwich. The text is empty where no calendar date can be given.
    pub fn text_at_offset(&self, east: i32) -> (text: String)
        ensures
            text@ == self.calendar_at(east),
    {
        match self.epoch_parts() {
            Some((secs, nanos)) => match calendar_text_at(secs, nanos, east) {
                Some(text) => text,
                None => String::new(),
            },
            None => String::new(),
        }
    }
}

/// What `chrono` writes of the instant `secs` seconds and `nanos` nanoseconds after
/// the epoch, seen `east` seconds east of Greenwich: date, time of day and offset.
/// `None` where it has no such offset, or no date for the instant.
pub uninterp spec fn calendar_text(secs: i64, nanos: u32, east: i32) -> Option<Seq<char>>;

/// Asks `chrono` for the calendar form of an instant at a fixed offset: calls
/// `FixedOffset::east_opt`, `TimeZone::timestamp_opt` on the offset, and `to_string`
/// on what it finds. The claim: the text depends on the three numbers alone.
#[verifier::external_body]
fn calendar_text_at(secs: i64, nanos: u32, east: i32) -> (text: Option<String>)
    ensures
        match text {
            Some(written) => calendar_text(secs, nanos, east) == Some(written@),
            None => calendar_text(secs, nanos, east) is None,
        },
{
    let zone = chrono::FixedOffset::east_opt(east)?;
    let date = chrono::TimeZone::timestamp_opt(&zone, secs, nanos).single()?;
    Some(date.to_string())
}

/// Rounded division of a negative number, from that of its positive counterpart.
proof fn lemma_floor_of_negative(m: int, d: int)
    requires
        m > 0,
        d > 0,
    ensures
        m % d == 0 ==> (-m) / d == -(m / d) && (-m) % d == 0,
        m % d != 0 ==> (-m) / d == -(m / d) - 1 && (-m) % d == d - m % d,
{
    let q = m / d;
    let r = m % d;
    vstd::arithmetic::div_mod::lemma_fundamental_div_mod(m, d);
    vstd::arithmetic::div_mod::lemma_mod_bound(m, d);
    if r == 0 {
        assert(-m == d * (-q) + 0) by (nonlinear_arith)
            requires
                m == d * q + r,
                r == 0,
        ;
        vstd::arithmetic::div_mod::lemma_fundamental_div_mod_converse(-m, d, -q, 0);
    } else {
        assert(-m == d * (-q - 1) + (d - r)) by (nonlinear_arith)
            requires
                m == d * q + r,
        ;
        vstd::arithmetic::div_mod::lemma_fundamental_div_mod_converse(-m, d, -q - 1, d - r);
    }
}

} // verus!
