//! Points in time, held as `chrono::DateTime<FixedOffset>` holds them: the
//! UTC instant as seconds since the Unix epoch and a sub-second part in
//! nanoseconds (at or above one second during a leap second), and the offset
//! of the local clock in seconds. Day arithmetic follows chrono's rules,
//! leap seconds included.
use vstd::prelude::*;

verus! {

/// Earliest instant chrono represents (-262143-01-01T00:00:00Z).
pub const MIN_SECS: i64 = -8334601315200;

/// Latest second chrono represents (+262142-12-31T23:59:59Z).
pub const MAX_SECS: i64 = 8210266876799;

pub const SECS_PER_DAY: i64 = 86400;

pub const NANOS_PER_SEC: u32 = 1_000_000_000;

/// An instant with the offset it is shown in.
#[derive(Clone, Copy, Debug, PartialEq, Eq)]
pub struct Timestamp {
    pub secs: i64,
    pub nanos: u32,
    pub offset_secs: i32,
}

/// Division of integers rounded toward zero, as Rust's `/` does.
pub open spec fn trunc_div(n: int, d: int) -> int
    recommends
        d > 0,
{
    if n >= 0 {
        n / d
    } else {
        -((-n) / d)
    }
}

impl Timestamp {
    /// A value chrono can hold.
    pub open spec fn wf(self) -> bool {
        &&& MIN_SECS <= self.secs <= MAX_SECS
        &&& self.nanos < 2 * NANOS_PER_SEC
        &&& self.nanos >= NANOS_PER_SEC ==> self.secs % 60 == 59
        &&& -86400 < self.offset_secs < 86400
    }

    /// The instant falls inside a leap second.
    pub open spec fn is_leap(self) -> bool {
        self.nanos >= NANOS_PER_SEC
    }

    /// `self` is strictly earlier than `other` (offsets play no part).
    pub open spec fn before(self, other: Timestamp) -> bool {
        self.secs < other.secs || (self.secs == other.secs && self.nanos < other.nanos)
    }

    /// `self` and `other` are the same instant (offsets play no part).
    pub open spec fn same_instant(self, other: Timestamp) -> bool {
        self.secs == other.secs && self.nanos == other.nanos
    }

    pub open spec fn not_after(self, other: Timestamp) -> bool {
        !other.before(self)
    }

    /// Whole seconds and the nanosecond rest of `self - other`, as
    /// `DateTime::signed_duration_since` computes them.
    pub open spec fn diff_parts(self, other: Timestamp) -> (int, int) {
        let ta = self.secs % 86400;
        let tb = other.secs % 86400;
        let adj: int = if ta > tb && other.nanos >= NANOS_PER_SEC {
            1
        } else if ta < tb && self.nanos >= NANOS_PER_SEC {
            -1
        } else {
            0
        };
        let frac = self.nanos - other.nanos;
        let secs = (self.secs / 86400 - other.secs / 86400) * 86400 + (ta - tb) + adj + frac / 1_000_000_000;
        (secs, frac % 1_000_000_000)
    }

    /// Whole days in `self - other`, rounded toward zero, as
    /// `(self - other).num_days()` gives them.
    pub open spec fn days_since(self, other: Timestamp) -> int {
        let (s, n) = self.diff_parts(other);
        let whole = if s < 0 && n > 0 { s + 1 } else { s };
        trunc_div(whole, 86400)
    }

    /// `self` moved by `days` whole days, as `DateTime + TimeDelta::days(days)`
    /// computes it (a leap second is first folded into a plain second).
    pub open spec fn plus_days(self, days: int) -> Timestamp {
        if self.nanos >= NANOS_PER_SEC && days > 0 {
            Timestamp { secs: (self.secs + 86400 * days) as i64, nanos: (self.nanos - NANOS_PER_SEC) as u32, offset_secs: self.offset_secs }
        } else if self.nanos >= NANOS_PER_SEC && days < 0 {
            Timestamp { secs: (self.secs + 1 + 86400 * days) as i64, nanos: (self.nanos - NANOS_PER_SEC) as u32, offset_secs: self.offset_secs }
        } else {
            Timestamp { secs: (self.secs + 86400 * days) as i64, nanos: self.nanos, offset_secs: self.offset_secs }
        }
    }

    /// The seconds of the instant `plus_days` reaches, before any cast.
    pub open spec fn plus_days_secs(self, days: int) -> int {
        if self.nanos >= NANOS_PER_SEC && days < 0 {
            self.secs + 1 + 86400 * days
        } else {
            self.secs + 86400 * days
        }
    }

    /// Moving by `days` stays inside chrono's range (else chrono panics).
    pub open spec fn can_add_days(self, days: int) -> bool {
        &&& -100_000_000 <= days <= 100_000_000
        &&& MIN_SECS <= self.plus_days_secs(days) <= MAX_SECS
    }

    /// `self` is strictly earlier than `other`.
    pub fn is_before(&self, other: &Timestamp) -> (r: bool)
        ensures
            r == self.before(*other),
    {
        self.secs < other.secs || (self.secs == other.secs && self.nanos < other.nanos)
    }

    /// `self` and `other` are the same instant.
    pub fn is_same_instant(&self, other: &Timestamp) -> (r: bool)
        ensures
            r == self.same_instant(*other),
    {
        self.secs == other.secs && self.nanos == other.nanos
    }

    /// Whole days from `other` to `self`, rounded toward zero.
    pub fn days_since_exec(&self, other: &Timestamp) -> (r: i64)
        requires
            self.wf(),
            other.wf(),
        ensures
            r == self.days_since(*other),
    {
        let (da, ta) = split_day(self.secs);
        let (db, tb) = split_day(other.secs);
        let adj: i64 = if ta > tb && other.nanos >= NANOS_PER_SEC {
            1
        } else if ta < tb && self.nanos >= NANOS_PER_SEC {
            -1
        } else {
            0
        };
        let frac: i64 = self.nanos as i64 - other.nanos as i64;
        let (fsecs, fnanos): (i64, i64) = if frac >= 1_000_000_000 {
            (1, frac - 1_000_000_000)
        } else if frac >= 0 {
            (0, frac)
        } else if frac >= -1_000_000_000 {
            (-1, frac + 1_000_000_000)
        } else {
            (-2, frac + 2_000_000_000)
        };
        let secs: i64 = (da - db) * 86400 + (ta - tb) + adj + fsecs;
        let whole: i64 = if secs < 0 && fnanos > 0 { secs + 1 } else { secs };
        let r: i64 = if whole >= 0 { whole / 86400 } else { -((-whole) / 86400) };
        r
    }

    /// `self` moved by `days` whole days.
    pub fn add_days(&self, days: i64) -> (r: Timestamp)
        requires
            self.wf(),
            self.can_add_days(days as int),
        ensures
            r == self.plus_days(days as int),
            r.wf(),
    {
        let r = if self.nanos >= NANOS_PER_SEC && days > 0 {
            Timestamp { secs: self.secs + 86400 * days, nanos: self.nanos - NANOS_PER_SEC, offset_secs: self.offset_secs }
        } else if self.nanos >= NANOS_PER_SEC && days < 0 {
            Timestamp { secs: self.secs + 1 + 86400 * days, nanos: self.nanos - NANOS_PER_SEC, offset_secs: self.offset_secs }
        } else {
            Timestamp { secs: self.secs + 86400 * days, nanos: self.nanos, offset_secs: self.offset_secs }
        };
        proof {
            if self.nanos >= NANOS_PER_SEC && days > 0 {
                assert((self.secs + 86400 * days) % 60 == 59) by {
                    vstd::arithmetic::div_mod::lemma_mod_multiples_vanish(1440 * days as int, self.secs as int, 60);
                    assert(86400 * days == 60 * (1440 * days));
                }
            }
        }
        r
    }
}


/// The current time, from `chrono::Utc::now()` shown at offset zero. The
/// contract claims only what holds of every reading of the system clock: a
/// value chrono holds, not before 1970, outside any leap second, at offset
/// zero. (chrono panics on a system clock set before 1970.)
#[verifier::external_body]
pub fn now() -> (t: Timestamp)
    ensures
        t.wf(),
        t.secs >= 0,
        t.nanos < NANOS_PER_SEC,
        t.offset_secs == 0,
{
    let n = chrono::Utc::now();
    Timestamp { secs: n.timestamp(), nanos: n.timestamp_subsec_nanos(), offset_secs: 0 }
}

/// What `chrono::NaiveDateTime::parse_from_str(text, "%d %b %Y, %I:%M %p")`
/// gives, as UTC seconds and nanoseconds, or `None` where it fails.
pub uninterp spec fn receipt_datetime_parse(text: Seq<char>) -> Option<(i64, u32)>;

/// Reads a date like `12 Mar 2024, 09:15 PM` with chrono's
/// `NaiveDateTime::parse_from_str` and that format, taking it as UTC (offset
/// zero). The result is named; beyond that, the contract claims that a parsed
/// value is one chrono holds.
#[verifier::external_body]
pub fn parse_receipt_datetime(text: &str) -> (r: Option<Timestamp>)
    ensures
        r == (match receipt_datetime_parse(text@) {
            Some(p) => Some(Timestamp { secs: p.0, nanos: p.1, offset_secs: 0 }),
            None => None,
        }),
        r matches Some(t) ==> t.wf(),
{
    match chrono::NaiveDateTime::parse_from_str(text, "%d %b %Y, %I:%M %p") {
        Ok(naive) => {
            let utc = naive.and_utc();
            Some(Timestamp { secs: utc.timestamp(), nanos: utc.timestamp_subsec_nanos(), offset_secs: 0 })
        },
        Err(_) => None,
    }
}

/// What `chrono::DateTime::parse_from_rfc3339(text)` gives, as UTC seconds and
/// nanoseconds, or `None` where it fails.
pub uninterp spec fn rfc3339_parse(text: Seq<char>) -> Option<(i64, u32)>;

/// Reads an RFC 3339 date with chrono's `DateTime::parse_from_rfc3339` and
/// shows it at offset zero. The result is named; beyond that, the contract
/// claims that a parsed value is one chrono holds.
#[verifier::external_body]
pub fn parse_rfc3339_utc(text: &str) -> (r: Option<Timestamp>)
    ensures
        r == (match rfc3339_parse(text@) {
            Some(p) => Some(Timestamp { secs: p.0, nanos: p.1, offset_secs: 0 }),
            None => None,
        }),
        r matches Some(t) ==> t.wf(),
{
    match chrono::DateTime::parse_from_rfc3339(text) {
        Ok(d) => Some(Timestamp { secs: d.timestamp(), nanos: d.timestamp_subsec_nanos(), offset_secs: 0 }),
        Err(_) => None,
    }
}

/// Days since the epoch (rounded down) and seconds into that day.
fn split_day(secs: i64) -> (r: (i64, i64))
    requires
        MIN_SECS <= secs <= MAX_SECS,
    ensures
        r.0 == secs / 86400,
        r.1 == secs % 86400,
{
    let shifted: u64 = (secs + 8_640_000_000_000) as u64;
    let d: u64 = shifted / 86400;
    let t: u64 = shifted % 86400;
    proof {
        let q = secs as int / 86400;
        let r = secs as int % 86400;
        vstd::arithmetic::div_mod::lemma_fundamental_div_mod(secs as int, 86400);
        assert(shifted as int == (q + 100_000_000) * 86400 + r);
        vstd::arithmetic::div_mod::lemma_fundamental_div_mod_converse(shifted as int, 86400, q + 100_000_000, r);
    }
    ((d as i64) - 100_000_000, t as i64)
}

} // verus!
