use vstd::prelude::*;

verus! {

/// A point in time on the UTC scale: whole seconds since the start of 1970
/// and the nanoseconds into that second.
#[derive(Clone, Copy, Debug, PartialEq, Eq, Structural)]
pub struct Timestamp {
    pub secs: i64,
    pub nanos: u32,
}

/// The RFC 3339 text of the instant `secs` seconds and `nanos` nanoseconds
/// after the start of 1970, as chrono writes it; `None` where chrono has no
/// date for that instant.
pub uninterp spec fn rfc3339_text(secs: i64, nanos: u32) -> Option<Seq<char>>;

/// What an optional string says, as a sequence of characters.
pub open spec fn text_of(s: Option<String>) -> Option<Seq<char>> {
    match s {
        Some(t) => Some(t@),
        None => None,
    }
}

/// Reads the system clock with `chrono::Utc::now`. Claimed: the reading lies
/// at or after the start of 1970 and its sub-second part is below one second,
/// which is how chrono builds it from the system time. Which instant comes
/// back is left open. chrono aborts where the system clock stands before 1970.
#[verifier::external_body]
pub(crate) fn utc_now() -> (t: Timestamp)
    ensures
        t.is_reading(),
{
    let now = chrono::Utc::now();
    Timestamp { secs: now.timestamp(), nanos: now.timestamp_subsec_nanos() }
}

/// Formats an instant with `chrono::DateTime::to_rfc3339`, after building the
/// date with `chrono::DateTime::from_timestamp`. Claimed: the text depends on
/// the two numbers alone, and there is none exactly where chrono has no date.
#[verifier::external_body]
pub(crate) fn format_rfc3339(secs: i64, nanos: u32) -> (r: Option<String>)
    ensures
        text_of(r) == rfc3339_text(secs, nanos),
{
    match chrono::DateTime::from_timestamp(secs, nanos) {
        Some(date) => Some(date.to_rfc3339()),
        None => None,
    }
}

impl Timestamp {
    /// Whether the instant is one that the clock can show: at or after the
    /// start of 1970, with less than a second beside the whole seconds.
    pub open spec fn is_reading(self) -> bool {
        self.secs >= 0 && self.nanos < 1_000_000_000
    }

    /// The instant as a count of nanoseconds since the start of 1970.
    pub open spec fn instant(self) -> int {
        self.secs * 1_000_000_000 + self.nanos
    }

    /// Whether this instant is `other` or comes before it.
    pub open spec fn spec_not_after(self, other: Timestamp) -> bool {
        self.instant() <= other.instant()
    }

    /// The later of two instants; the first where they coincide.
    pub open spec fn spec_later(self, other: Timestamp) -> Timestamp {
        if other.instant() <= self.instant() {
            self
        } else {
            other
        }
    }

    /// Tells whether this instant is `other` or comes before it.
    pub fn not_after(&self, other: &Timestamp) -> (r: bool)
        ensures
            r == self.spec_not_after(*other),
    {
        let a: i128 = (self.secs as i128) * 1_000_000_000 + (self.nanos as i128);
        let b: i128 = (other.secs as i128) * 1_000_000_000 + (other.nanos as i128);
        a <= b
    }

    /// The later of two instants; the first where they coincide.
    pub fn later(self, other: Timestamp) -> (r: Timestamp)
        ensures
            r == self.spec_later(other),
    {
        if other.not_after(&self) {
            self
        } else {
            other
        }
    }
}

/// The order of instants is total: of two, one is not after the other.
pub proof fn lemma_not_after_total(a: Timestamp, b: Timestamp)
    ensures
        a.spec_not_after(b) || b.spec_not_after(a),
        a.spec_not_after(a.spec_later(b)),
        b.spec_not_after(a.spec_later(b)),
{
}

} // verus!
