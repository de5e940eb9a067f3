//! Times of measurement.

use vstd::prelude::*;

verus! {

/// What chrono writes for the moment `nanos` nanoseconds after second `secs`
/// of the Unix epoch, in UTC: the date and time of RFC 3339 with as many
/// groups of three fractional digits as the nanoseconds need, and `Z` for
/// the offset. `None` for a moment that chrono cannot represent.
pub uninterp spec fn utc_text(secs: i64, nanos: u32) -> Option<Seq<char>>;

/// Calls `chrono::DateTime::from_timestamp` and, on the moment it gives,
/// `DateTime::to_rfc3339_opts` with `SecondsFormat::AutoSi` and `Z` for the
/// offset, which is how chrono serializes a UTC time. The contract gives
/// the outcome its name, `utc_text`, and claims nothing else of it.
#[verifier::external_body]
fn format_utc(secs: i64, nanos: u32) -> (text: Option<String>)
    ensures
        match text {
            Some(t) => utc_text(secs, nanos) == Some(t@),
            None => utc_text(secs, nanos) is None,
        },
{
    match chrono::DateTime::from_timestamp(secs, nanos) {
        Some(moment) => Some(moment.to_rfc3339_opts(chrono::SecondsFormat::AutoSi, true)),
        None => None,
    }
}

/// A moment in UTC, given by its Unix time, together with the text that
/// stands for it in a payload.
#[derive(Debug, PartialEq, Eq)]
pub struct Timestamp {
    secs: i64,
    nanos: u32,
    text: String,
}

impl Clone for Timestamp {
    fn clone(&self) -> (copy: Self)
        ensures
            copy.secs() == self.secs(),
            copy.nanos() == self.nanos(),
            copy.text() == self.text(),
    {
        proof {
            use_type_invariant(self);
        }
        Timestamp { secs: self.secs, nanos: self.nanos, text: self.text.clone() }
    }
}

impl Timestamp {
    #[verifier::type_invariant]
    spec fn well_formed(self) -> bool {
        utc_text(self.secs, self.nanos) == Some(self.text@)
    }

    /// Whole seconds since the Unix epoch.
    pub closed spec fn secs(&self) -> i64 {
        self.secs
    }

    /// Nanoseconds since the last whole second.
    pub closed spec fn nanos(&self) -> u32 {
        self.nanos
    }

    /// The text that stands for the moment in a payload.
    pub closed spec fn text(&self) -> Seq<char> {
        self.text@
    }

    /// The moment `nanos` nanoseconds after second `secs` of the Unix epoch,
    /// or `None` where no date and time can be written for it.
    pub fn from_unix(secs: i64, nanos: u32) -> (moment: Option<Timestamp>)
        ensures
            moment is Some <==> utc_text(secs, nanos) is Some,
            moment matches Some(t) ==> t.secs() == secs && t.nanos() == nanos && utc_text(
                secs,
                nanos,
            ) == Some(t.text()),
    {
        match format_utc(secs, nanos) {
            Some(text) => Some(Timestamp { secs, nanos, text }),
            None => None,
        }
    }

    /// Whole seconds since the Unix epoch.
    pub fn unix_seconds(&self) -> (secs: i64)
        ensures
            secs == self.secs(),
    {
        self.secs
    }

    /// Nanoseconds since the last whole second.
    pub fn subsec_nanos(&self) -> (nanos: u32)
        ensures
            nanos == self.nanos(),
    {
        self.nanos
    }

    /// The text that stands for the moment in a payload.
    pub fn as_str(&self) -> (text: &str)
        ensures
            text@ == self.text(),
            utc_text(self.secs(), self.nanos()) == Some(text@),
    {
        proof {
            use_type_invariant(self);
        }
        self.text.as_str()
    }
}

} // verus!
