//! Points in time, written the way log records show them.

use std::time::Duration;
use std::time::UNIX_EPOCH;
use vstd::prelude::*;

verus! {

/// The last second of the year 9999: no later time has an RFC 3339 form.
pub const MAX_UNIX_SECONDS: u64 = 253_402_300_799;

/// The RFC 3339 text, in UTC and without fractional seconds, of the time
/// `unix_seconds` after the Unix epoch (`1970-01-01T00:00:00Z` for 0).
pub uninterp spec fn rfc3339_seconds_text(unix_seconds: u64) -> Seq<char>;

/// Formats a time with `humantime::format_rfc3339_seconds`. That function
/// depends on the time alone (always UTC, no time zone, no locale), so the
/// contract names its result. Times past the year 9999 make the formatter
/// fail and are left out.
#[verifier::external_body]
fn rfc3339_seconds(unix_seconds: u64) -> (text: String)
    requires
        unix_seconds <= MAX_UNIX_SECONDS,
    ensures
        text@ == rfc3339_seconds_text(unix_seconds),
{
    humantime::format_rfc3339_seconds(UNIX_EPOCH + Duration::from_secs(unix_seconds)).to_string()
}

/// A time together with its RFC 3339 text. The only way to make one is
/// [`Timestamp::at`], so the text of every timestamp is the rendering of its
/// time.
pub struct Timestamp {
    unix_seconds: u64,
    text: String,
}

impl View for Timestamp {
    type V = Seq<char>;

    /// The text of the timestamp.
    closed spec fn view(&self) -> Seq<char> {
        self.text@
    }
}

impl Clone for Timestamp {
    fn clone(&self) -> (copy: Timestamp)
        ensures
            copy@ == self@,
            copy.seconds() == self.seconds(),
    {
        proof {
            use_type_invariant(self);
        }
        Timestamp { unix_seconds: self.unix_seconds, text: self.text.clone() }
    }
}

impl Timestamp {
    #[verifier::type_invariant]
    spec fn rendered(&self) -> bool {
        &&& self.unix_seconds <= MAX_UNIX_SECONDS
        &&& self.text@ == rfc3339_seconds_text(self.unix_seconds)
    }

    /// Seconds since the Unix epoch.
    pub closed spec fn seconds(&self) -> u64 {
        self.unix_seconds
    }

    /// The timestamp of the time `unix_seconds` after the Unix epoch, or
    /// `None` where that time is past the year 9999.
    pub fn at(unix_seconds: u64) -> (stamp: Option<Timestamp>)
        ensures
            stamp is Some <==> unix_seconds <= MAX_UNIX_SECONDS,
            stamp matches Some(t) ==> t.seconds() == unix_seconds && t@ == rfc3339_seconds_text(
                unix_seconds,
            ),
    {
        if unix_seconds <= MAX_UNIX_SECONDS {
            let text: String = rfc3339_seconds(unix_seconds);
            Some(Timestamp { unix_seconds, text })
        } else {
            None
        }
    }

    /// Seconds since the Unix epoch.
    pub fn unix_seconds(&self) -> (seconds: u64)
        ensures
            seconds == self.seconds(),
            seconds <= MAX_UNIX_SECONDS,
            self@ == rfc3339_seconds_text(seconds),
    {
        proof {
            use_type_invariant(self);
        }
        self.unix_seconds
    }

    /// The RFC 3339 text.
    pub fn as_str(&self) -> (text: &str)
        ensures
            text@ == self@,
    {
        self.text.as_str()
    }
}

} // verus!
