//! Points in time with a fixed UTC offset, rendered the ways the API expects.
use vstd::prelude::*;

verus! {

/// The seconds after the Unix epoch of the earliest instant `chrono` represents,
/// `-262143-01-01T00:00:00`.
pub const MIN_EPOCH_SECS: i64 = -8_334_601_228_800;

/// The seconds after the Unix epoch of the last second `chrono` represents,
/// `+262142-12-31T23:59:59`.
pub const MAX_EPOCH_SECS: i64 = 8_210_266_876_799;

/// Whether the instant `secs`/`nanos` after the Unix epoch, in the zone `offset` seconds
/// east of UTC, is one `chrono` represents, in UTC and in its own zone: both within
/// `MIN_EPOCH_SECS` and `MAX_EPOCH_SECS`, an offset of less than a day, and a nanosecond
/// part below a second, or below two seconds in the last second of a minute (a leap
/// second), as `chrono::DateTime::from_timestamp` and `chrono::FixedOffset::east_opt`
/// accept them.
pub open spec fn instant_ok(secs: i64, nanos: u32, offset: i32) -> bool {
    &&& MIN_EPOCH_SECS <= secs <= MAX_EPOCH_SECS
    &&& MIN_EPOCH_SECS <= secs + offset <= MAX_EPOCH_SECS
    &&& -86_400 < offset < 86_400
    &&& (nanos < 1_000_000_000 || (nanos < 2_000_000_000 && secs % 60 == 59))
}

/// `DateTime::to_rfc3339` of that instant: offsets always as `+hh:mm`.
pub uninterp spec fn rfc3339_text(secs: i64, nanos: u32, offset: i32) -> Seq<char>;

/// What `serde` writes for that instant: RFC 3339 with `Z` for a zero offset.
pub uninterp spec fn iso8601_text(secs: i64, nanos: u32, offset: i32) -> Seq<char>;

/// `DateTime`'s `Display` of that instant.
pub uninterp spec fn display_text(secs: i64, nanos: u32, offset: i32) -> Seq<char>;

/// Builds the `chrono::DateTime<FixedOffset>` for the instant with
/// `DateTime::from_timestamp`, `FixedOffset::east_opt` and `with_timezone`, and calls
/// `to_rfc3339` on it. Both constructors accept every instant that `instant_ok` admits,
/// and its time in its own zone stays in `chrono`'s range.
#[verifier::external_body]
fn chrono_rfc3339(secs: i64, nanos: u32, offset: i32) -> (r: String)
    requires
        instant_ok(secs, nanos, offset),
    ensures
        r@ == rfc3339_text(secs, nanos, offset),
{
    let t = chrono::DateTime::from_timestamp(secs, nanos).unwrap();
    t.with_timezone(&chrono::FixedOffset::east_opt(offset).unwrap()).to_rfc3339()
}

/// Builds the `chrono::DateTime<FixedOffset>` as `chrono_rfc3339` does and calls
/// `to_rfc3339_opts(SecondsFormat::AutoSi, true)` on it, the text its `Serialize` writes;
/// `instant_ok` keeps the time in its own zone in range, which `naive_local` needs.
#[verifier::external_body]
fn chrono_iso8601(secs: i64, nanos: u32, offset: i32) -> (r: String)
    requires
        instant_ok(secs, nanos, offset),
    ensures
        r@ == iso8601_text(secs, nanos, offset),
{
    let t = chrono::DateTime::from_timestamp(secs, nanos).unwrap();
    t.with_timezone(&chrono::FixedOffset::east_opt(offset).unwrap()).to_rfc3339_opts(
        chrono::SecondsFormat::AutoSi,
        true,
    )
}

/// Builds the `chrono::DateTime<FixedOffset>` as `chrono_rfc3339` does and calls
/// `to_string` on it, which goes through its `Display`.
#[verifier::external_body]
fn chrono_display(secs: i64, nanos: u32, offset: i32) -> (r: String)
    requires
        instant_ok(secs, nanos, offset),
    ensures
        r@ == display_text(secs, nanos, offset),
{
    let t = chrono::DateTime::from_timestamp(secs, nanos).unwrap();
    t.with_timezone(&chrono::FixedOffset::east_opt(offset).unwrap()).to_string()
}

/// An instant with a fixed UTC offset: seconds and nanoseconds after the Unix epoch,
/// and the offset in seconds east of UTC.
#[derive(Debug, Clone, Copy)]
pub struct DateTime {
    secs: i64,
    nanos: u32,
    offset: i32,
}

impl DateTime {
    /// Only the instants handled here.
    #[verifier::type_invariant]
    spec fn inv(self) -> bool {
        instant_ok(self.secs, self.nanos, self.offset)
    }

    pub closed spec fn spec_secs(self) -> i64 {
        self.secs
    }

    pub closed spec fn spec_nanos(self) -> u32 {
        self.nanos
    }

    pub closed spec fn spec_offset(self) -> i32 {
        self.offset
    }

    /// `to_rfc3339` of this instant.
    pub open spec fn rfc3339(self) -> Seq<char> {
        rfc3339_text(self.spec_secs(), self.spec_nanos(), self.spec_offset())
    }

    /// The text `serde` writes for this instant.
    pub open spec fn iso8601(self) -> Seq<char> {
        iso8601_text(self.spec_secs(), self.spec_nanos(), self.spec_offset())
    }

    /// The `Display` text of this instant.
    pub open spec fn display(self) -> Seq<char> {
        display_text(self.spec_secs(), self.spec_nanos(), self.spec_offset())
    }

    /// The instant, or `None` when it is not one handled here.
    pub fn new(secs: i64, nanos: u32, offset: i32) -> (r: Option<DateTime>)
        ensures
            r is Some <==> instant_ok(secs, nanos, offset),
            r matches Some(d) ==> d.spec_secs() == secs && d.spec_nanos() == nanos
                && d.spec_offset() == offset,
    {
        if secs < MIN_EPOCH_SECS || secs > MAX_EPOCH_SECS || offset <= -86_400 || offset >= 86_400 {
            return None;
        }
        let local: i64 = secs + offset as i64;
        if local < MIN_EPOCH_SECS || local > MAX_EPOCH_SECS {
            return None;
        }
        let rem: i64 = secs % 60;
        let last_second = rem == 59 || rem == -1;
        if nanos >= 2_000_000_000 || (nanos >= 1_000_000_000 && !last_second) {
            return None;
        }
        Some(DateTime { secs, nanos, offset })
    }

    pub fn secs(&self) -> (r: i64)
        ensures
            r == self.spec_secs(),
    {
        self.secs
    }

    pub fn nanos(&self) -> (r: u32)
        ensures
            r == self.spec_nanos(),
    {
        self.nanos
    }

    pub fn offset(&self) -> (r: i32)
        ensures
            r == self.spec_offset(),
    {
        self.offset
    }

    /// `to_rfc3339` of this instant.
    pub fn to_rfc3339(&self) -> (r: String)
        ensures
            r@ == self.rfc3339(),
    {
        proof { use_type_invariant(self); }
        chrono_rfc3339(self.secs, self.nanos, self.offset)
    }

    /// The text `serde` writes for this instant.
    pub fn to_iso8601(&self) -> (r: String)
        ensures
            r@ == self.iso8601(),
    {
        proof { use_type_invariant(self); }
        chrono_iso8601(self.secs, self.nanos, self.offset)
    }

    /// The `Display` text of this instant.
    pub fn to_display(&self) -> (r: String)
        ensures
            r@ == self.display(),
    {
        proof { use_type_invariant(self); }
        chrono_display(self.secs, self.nanos, self.offset)
    }
}

} // verus!
