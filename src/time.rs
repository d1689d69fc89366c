use vstd::prelude::*;

verus! {

/// Seconds from the Unix epoch to 0000-01-01T00:00:00Z.
pub const MIN_SECS: i64 = -62167219200;

/// Seconds from the Unix epoch to 9999-12-31T23:59:59Z.
pub const MAX_SECS: i64 = 253402300799;

/// Nanoseconds in one second.
pub const NANOS_PER_SEC: u32 = 1000000000;

/// Whether whole seconds since the Unix epoch and a nanosecond part name an instant of
/// the years 0 to 9999, which RFC 3339 writes with a four-digit year.
pub open spec fn valid_instant(secs: int, nanos: int) -> bool {
    MIN_SECS <= secs <= MAX_SECS && 0 <= nanos < NANOS_PER_SEC
}

/// The RFC 3339 text of an instant in UTC, with milliseconds and a `Z` suffix
/// (`2019-01-02T03:04:05.800Z`).
pub uninterp spec fn rfc3339_millis_of(secs: int, nanos: int) -> Seq<char>;

/// Relies on chrono's `DateTime::from_timestamp`, which accepts every instant of the years
/// 0 to 9999, and on `DateTime::to_rfc3339_opts` with `SecondsFormat::Millis` and `Z`.
#[verifier::external_body]
fn format_rfc3339_millis(secs: i64, nanos: u32) -> (r: String)
    requires
        valid_instant(secs as int, nanos as int),
    ensures
        r@ == rfc3339_millis_of(secs as int, nanos as int),
{
    let instant = chrono::DateTime::from_timestamp(secs, nanos).unwrap();
    instant.to_rfc3339_opts(chrono::SecondsFormat::Millis, true)
}

#[verifier::external_type_specification]
#[verifier::external_body]
pub struct ExSystemTime(std::time::SystemTime);

/// Relies on std's `SystemTime::now`: the current reading of the system clock. Nothing is
/// known of the value.
#[verifier::external_body]
fn system_now() -> (r: std::time::SystemTime) {
    std::time::SystemTime::now()
}

/// Relies on std's `SystemTime::duration_since(UNIX_EPOCH)`: `Ok` with how far `t` lies
/// after the Unix epoch, or `Err` with how far it lies before, as whole seconds and the
/// nanoseconds past them, which `Duration::subsec_nanos` keeps under one second.
#[verifier::external_body]
fn offset_from_epoch(t: &std::time::SystemTime) -> (r: Result<(u64, u32), (u64, u32)>)
    ensures
        match r {
            Ok((_, nanos)) => nanos < NANOS_PER_SEC,
            Err((_, nanos)) => nanos < NANOS_PER_SEC,
        },
{
    match t.duration_since(std::time::UNIX_EPOCH) {
        Ok(d) => Ok((d.as_secs(), d.subsec_nanos())),
        Err(e) => Err((e.duration().as_secs(), e.duration().subsec_nanos())),
    }
}

/// The instant that an offset from the Unix epoch names, as whole seconds (negative
/// before 1970) and nanoseconds past them.
pub open spec fn signed_offset(reading: Result<(u64, u32), (u64, u32)>) -> (int, int) {
    match reading {
        Ok((secs, nanos)) => (secs as int, nanos as int),
        Err((secs, nanos)) => if nanos == 0 {
            (-secs, 0)
        } else {
            (-secs - 1, NANOS_PER_SEC - nanos)
        },
    }
}

/// An instant held within the years 0 to 9999: one before that range becomes its first
/// nanosecond, one after it its last, and a nanosecond part of a second or more (a leap
/// second) the last nanosecond of its second.
pub open spec fn clamp_instant(secs: int, nanos: int) -> (int, int) {
    if secs < MIN_SECS {
        (MIN_SECS as int, 0)
    } else if secs > MAX_SECS {
        (MAX_SECS as int, NANOS_PER_SEC - 1)
    } else if nanos >= NANOS_PER_SEC {
        (secs, NANOS_PER_SEC - 1)
    } else {
        (secs, nanos)
    }
}

/// The offset of a clock reading as seconds and nanoseconds, with seconds beyond `i64`
/// held at its ends, which the years 0 to 9999 lie well within.
fn signed_reading(reading: Result<(u64, u32), (u64, u32)>) -> (r: (i64, u32))
    requires
        match reading {
            Ok((_, nanos)) => nanos < NANOS_PER_SEC,
            Err((_, nanos)) => nanos < NANOS_PER_SEC,
        },
    ensures
        clamp_instant(r.0 as int, r.1 as int) == clamp_instant(signed_offset(reading).0, signed_offset(reading).1),
{
    match reading {
        Ok((secs, nanos)) => {
            if secs > i64::MAX as u64 {
                (i64::MAX, nanos)
            } else {
                (secs as i64, nanos)
            }
        },
        Err((secs, nanos)) => {
            if secs >= i64::MAX as u64 {
                (i64::MIN, 0)
            } else if nanos == 0 {
                (-(secs as i64), 0)
            } else {
                (-(secs as i64) - 1, NANOS_PER_SEC - nanos)
            }
        },
    }
}

/// An instant in UTC, as whole seconds since the Unix epoch and nanoseconds past them,
/// within the years 0 to 9999.
#[derive(Clone, Copy, Debug, PartialEq, Eq)]
pub struct Timestamp {
    secs: i64,
    nanos: u32,
}

impl View for Timestamp {
    type V = (int, int);

    closed spec fn view(&self) -> (int, int) {
        (self.secs as int, self.nanos as int)
    }
}

impl Timestamp {
    #[verifier::type_invariant]
    spec fn inv(&self) -> bool {
        valid_instant(self.secs as int, self.nanos as int)
    }

    /// The instant `secs` seconds and `nanos` nanoseconds after the Unix epoch, if it lies
    /// within the years 0 to 9999 and `nanos` is under one second.
    pub fn from_unix(secs: i64, nanos: u32) -> (r: Option<Timestamp>)
        ensures
            r is Some <==> valid_instant(secs as int, nanos as int),
            r matches Some(t) ==> t@ == (secs as int, nanos as int),
    {
        if MIN_SECS <= secs && secs <= MAX_SECS && nanos < NANOS_PER_SEC {
            Some(Timestamp { secs, nanos })
        } else {
            None
        }
    }

    /// The instant `secs` seconds and `nanos` nanoseconds after the Unix epoch, held within
    /// the years 0 to 9999 as `clamp_instant` says.
    pub fn from_clock_reading(secs: i64, nanos: u32) -> (r: Timestamp)
        ensures
            r@ == clamp_instant(secs as int, nanos as int),
    {
        if secs < MIN_SECS {
            Timestamp { secs: MIN_SECS, nanos: 0 }
        } else if secs > MAX_SECS {
            Timestamp { secs: MAX_SECS, nanos: NANOS_PER_SEC - 1 }
        } else if nanos >= NANOS_PER_SEC {
            Timestamp { secs, nanos: NANOS_PER_SEC - 1 }
        } else {
            Timestamp { secs, nanos }
        }
    }

    /// The current time from the system clock, held within the years 0 to 9999 as
    /// `clamp_instant` says.
    pub fn now() -> (r: Timestamp) {
        let reading = offset_from_epoch(&system_now());
        let (secs, nanos) = signed_reading(reading);
        Self::from_clock_reading(secs, nanos)
    }

    /// Whole seconds since the Unix epoch.
    pub fn unix_secs(&self) -> (r: i64)
        ensures
            r as int == self@.0,
    {
        self.secs
    }

    /// Nanoseconds past the whole second.
    pub fn subsec_nanos(&self) -> (r: u32)
        ensures
            r as int == self@.1,
    {
        self.nanos
    }

    /// The RFC 3339 text of this instant in UTC, to the millisecond, with a `Z` suffix.
    pub fn to_rfc3339_millis(&self) -> (r: String)
        ensures
            r@ == rfc3339_millis_of(self@.0, self@.1),
    {
        proof {
            use_type_invariant(self);
        }
        format_rfc3339_millis(self.secs, self.nanos)
    }
}

} // verus!
