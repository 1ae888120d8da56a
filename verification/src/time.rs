//! Instants on the UTC time line, as the sync rules compare them.

use vstd::prelude::*;

verus! {

/// Whether `chrono` has a UTC date-time for `secs` whole seconds since the
/// Unix epoch plus `nanos` nanoseconds: what `DateTime::from_timestamp`
/// decides.
pub uninterp spec fn utc_representable(secs: int, nanos: int) -> bool;

/// The text `chrono` gives the instant when formatted as
/// `%Y-%m-%d %H:%M:%S` in UTC.
pub uninterp spec fn utc_timestamp_text(secs: int, nanos: int) -> Seq<char>;

/// An instant: whole seconds since the Unix epoch and the nanoseconds past
/// that second. Every value is one that `chrono` can represent.
#[derive(Clone, Copy, Debug, PartialEq, Eq, Structural)]
pub struct Timestamp {
    secs: i64,
    nanos: u32,
}

/// Calls `chrono::DateTime::from_timestamp` and reports whether it produced
/// a date-time; the result is by definition `utc_representable`.
#[verifier::external_body]
fn chrono_accepts(secs: i64, nanos: u32) -> (ok: bool)
    ensures
        ok == utc_representable(secs as int, nanos as int),
{
    chrono::DateTime::from_timestamp(secs, nanos).is_some()
}

/// Formats the instant with `chrono::DateTime::format` and the pattern
/// `%Y-%m-%d %H:%M:%S`; the text is by definition `utc_timestamp_text`.
/// The instant must be one `from_timestamp` accepts.
#[verifier::external_body]
fn chrono_format(secs: i64, nanos: u32) -> (text: String)
    requires
        utc_representable(secs as int, nanos as int),
    ensures
        text@ == utc_timestamp_text(secs as int, nanos as int),
{
    chrono::DateTime::from_timestamp(secs, nanos).unwrap().format("%Y-%m-%d %H:%M:%S").to_string()
}

/// Reads the clock with `std::time::SystemTime::now`, turns it into a
/// date-time with `chrono`'s conversion from `SystemTime`, which also
/// takes a clock that stands before 1970, and takes the date-time apart
/// with `timestamp` and `timestamp_subsec_nanos`. Which instant comes back
/// is the clock's affair; that `from_timestamp` accepts its parts is
/// `chrono`'s promise that the two round-trip. The conversion gives up
/// only on an instant some 262,000 years from now, further than a system
/// clock reaches.
#[verifier::external_body]
fn chrono_now() -> (parts: (i64, u32))
    ensures
        utc_representable(parts.0 as int, parts.1 as int),
{
    let now = chrono::DateTime::<chrono::Utc>::from(std::time::SystemTime::now());
    (now.timestamp(), now.timestamp_subsec_nanos())
}

impl Timestamp {
    #[verifier::type_invariant]
    spec fn representable(self) -> bool {
        utc_representable(self.secs as int, self.nanos as int)
    }

    /// Seconds since the Unix epoch.
    pub closed spec fn secs(self) -> int {
        self.secs as int
    }

    /// Nanoseconds past the whole second.
    pub closed spec fn nanos(self) -> int {
        self.nanos as int
    }

    /// `self` is strictly later than `other`.
    pub open spec fn after(self, other: Timestamp) -> bool {
        self.secs() > other.secs() || (self.secs() == other.secs() && self.nanos() > other.nanos())
    }

    /// The instant's text in reports: `YYYY-MM-DD HH:MM:SS`, in UTC.
    pub open spec fn text(self) -> Seq<char> {
        utc_timestamp_text(self.secs(), self.nanos())
    }

    /// The instant `secs` seconds and `nanos` nanoseconds after the epoch,
    /// or `None` when no such UTC date-time exists.
    pub fn new(secs: i64, nanos: u32) -> (made: Option<Timestamp>)
        ensures
            made is Some <==> utc_representable(secs as int, nanos as int),
            made matches Some(t) ==> t.secs() == secs && t.nanos() == nanos,
    {
        if chrono_accepts(secs, nanos) {
            Some(Timestamp { secs, nanos })
        } else {
            None
        }
    }

    /// The current instant, as the clock has it. Which instant that is
    /// only the clock can say; it is always one that `chrono` can
    /// represent, and so one that can be compared, stored and formatted
    /// like any other.
    pub fn now() -> (now: Timestamp)
        ensures
            utc_representable(now.secs(), now.nanos()),
    {
        let (secs, nanos) = chrono_now();
        Timestamp { secs, nanos }
    }

    /// Whole seconds since the Unix epoch.
    pub fn seconds(&self) -> (s: i64)
        ensures
            s == self.secs(),
    {
        self.secs
    }

    /// Nanoseconds past the whole second.
    pub fn subsec_nanos(&self) -> (n: u32)
        ensures
            n == self.nanos(),
    {
        self.nanos
    }

    /// Whether this instant is strictly later than `other`.
    pub fn is_after(&self, other: &Timestamp) -> (later: bool)
        ensures
            later == self.after(*other),
    {
        self.secs > other.secs || (self.secs == other.secs && self.nanos > other.nanos)
    }

    /// The later of two instants; `self` when they are equal.
    pub fn latest(self, other: Timestamp) -> (later: Timestamp)
        ensures
            later == if other.after(self) { other } else { self },
    {
        if other.is_after(&self) {
            other
        } else {
            self
        }
    }

    /// The instant written as `YYYY-MM-DD HH:MM:SS`.
    pub fn format(&self) -> (text: String)
        ensures
            text@ == self.text(),
    {
        proof {
            use_type_invariant(self);
        }
        chrono_format(self.secs, self.nanos)
    }

    /// Two instants with the same seconds and nanoseconds are the same
    /// instant.
    pub proof fn lemma_equal_by_parts(self, other: Timestamp)
        requires
            self.secs() == other.secs(),
            self.nanos() == other.nanos(),
        ensures
            self == other,
    {
    }

    /// Of two different instants, one is after the other; never both.
    pub proof fn lemma_order_total(self, other: Timestamp)
        ensures
            self == other || self.after(other) || other.after(self),
            !(self.after(other) && other.after(self)),
            !self.after(self),
    {
    }
}

} // verus!
