//! Instants on the UTC time line and their RFC 3339 text.

use vstd::prelude::*;

verus! {

/// The RFC 3339 text, in UTC, of the instant `secs` whole seconds and `nanos`
/// nanoseconds after 1970-01-01T00:00:00Z; `None` where the calendar of the
/// `chrono` crate cannot represent that instant.
pub uninterp spec fn utc_rfc3339(secs: i64, nanos: u32) -> Option<Seq<char>>;

/// `chrono::DateTime::<Utc>::from_timestamp`, followed by
/// `chrono::DateTime::to_rfc3339` on the date and time it gives. The first
/// returns `None` for an instant outside its calendar; otherwise the second
/// always returns a text. Both depend on the two numbers alone, so the result
/// is [`utc_rfc3339`] of them. Nothing is claimed about which instants are
/// representable or what the text looks like.
#[verifier::external_body]
fn rfc3339(secs: i64, nanos: u32) -> (text: Option<String>)
    ensures
        match text {
            Some(t) => utc_rfc3339(secs, nanos) == Some(t@),
            None => utc_rfc3339(secs, nanos).is_none(),
        },
{
    match chrono::DateTime::<chrono::Utc>::from_timestamp(secs, nanos) {
        Some(t) => Some(t.to_rfc3339()),
        None => None,
    }
}

/// An instant that has an RFC 3339 text: seconds and nanoseconds since the
/// Unix epoch, within the range of the calendar.
#[derive(PartialEq, Eq, Debug, Clone, Copy)]
pub struct Timestamp {
    secs: i64,
    nanos: u32,
}

impl View for Timestamp {
    type V = (i64, u32);

    /// Whole seconds since the epoch, and the nanoseconds past them.
    closed spec fn view(&self) -> (i64, u32) {
        (self.secs, self.nanos)
    }
}

impl Timestamp {
    #[verifier::type_invariant]
    spec fn representable(self) -> bool {
        utc_rfc3339(self.secs, self.nanos).is_some()
    }

    /// The RFC 3339 text of this instant.
    pub open spec fn rfc3339(self) -> Seq<char> {
        match utc_rfc3339(self@.0, self@.1) {
            Some(t) => t,
            None => Seq::empty(),
        }
    }

    /// The instant `secs` seconds and `nanos` nanoseconds after the epoch, if
    /// the calendar can represent it.
    pub fn new(secs: i64, nanos: u32) -> (r: Option<Timestamp>)
        ensures
            r.is_some() <==> utc_rfc3339(secs, nanos).is_some(),
            r matches Some(t) ==> t@ == (secs, nanos),
    {
        match rfc3339(secs, nanos) {
            Some(_) => Some(Timestamp { secs, nanos }),
            None => None,
        }
    }

    pub fn secs(&self) -> (s: i64)
        ensures
            s == self@.0,
    {
        self.secs
    }

    pub fn nanos(&self) -> (n: u32)
        ensures
            n == self@.1,
    {
        self.nanos
    }

    /// The RFC 3339 text of this instant, such as `1970-01-01T00:00:00+00:00`.
    pub fn to_rfc3339(&self) -> (s: String)
        ensures
            s@ == self.rfc3339(),
    {
        proof {
            use_type_invariant(self);
        }
        match rfc3339(self.secs, self.nanos) {
            Some(t) => t,
            None => String::new(),
        }
    }
}

} // verus!
