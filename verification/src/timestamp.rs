//! The time at which a run starts, as it is written in reports.

use vstd::prelude::*;

verus! {

/// The RFC 3339 text, in UTC and to the millisecond, of the instant that lies
/// `seconds` and `nanoseconds` after the Unix epoch, such as
/// `2024-01-02T03:04:05.678Z`; `None` where the calendar does not reach that
/// far, or where there is no such nanosecond.
pub uninterp spec fn rfc3339_utc(seconds: int, nanoseconds: int) -> Option<Seq<char>>;

/// `chrono::DateTime::from_timestamp`, then `DateTime::to_rfc3339_opts` with
/// `SecondsFormat::Millis` and `Z` for the offset: the same instant is always
/// written the same way. Nothing more is stated of the text.
#[verifier::external_body]
fn rfc3339_millis(seconds: i64, nanoseconds: u32) -> (text: Option<String>)
    ensures
        text.deep_view() == rfc3339_utc(seconds as int, nanoseconds as int),
{
    match chrono::DateTime::from_timestamp(seconds, nanoseconds) {
        Some(instant) => Some(instant.to_rfc3339_opts(chrono::SecondsFormat::Millis, true)),
        None => None,
    }
}

/// An instant, with the text that stands for it in reports.
#[derive(Debug)]
pub struct Timestamp {
    seconds: i64,
    nanoseconds: u32,
    text: String,
}

impl View for Timestamp {
    type V = Seq<char>;

    closed spec fn view(&self) -> Seq<char> {
        self.text@
    }
}

impl Clone for Timestamp {
    fn clone(&self) -> (copy: Timestamp)
        ensures
            copy == *self,
    {
        proof {
            use_type_invariant(self);
        }
        Timestamp {
            seconds: self.seconds,
            nanoseconds: self.nanoseconds,
            text: self.text.clone(),
        }
    }
}

impl Timestamp {
    /// The whole seconds between the Unix epoch and the instant.
    pub closed spec fn seconds(&self) -> i64 {
        self.seconds
    }

    /// The nanoseconds of the instant beyond its whole seconds.
    pub closed spec fn nanoseconds(&self) -> u32 {
        self.nanoseconds
    }

    #[verifier::type_invariant]
    spec fn well_formed(&self) -> bool {
        rfc3339_utc(self.seconds as int, self.nanoseconds as int) == Some(self.text@)
    }

    /// The instant `seconds` and `nanoseconds` after the Unix epoch, if the
    /// calendar reaches it.
    pub fn at(seconds: i64, nanoseconds: u32) -> (stamp: Option<Timestamp>)
        ensures
            stamp is Some <==> rfc3339_utc(seconds as int, nanoseconds as int) is Some,
            stamp is Some ==> ({
                &&& stamp->0.seconds() == seconds
                &&& stamp->0.nanoseconds() == nanoseconds
                &&& Some(stamp->0@) == rfc3339_utc(seconds as int, nanoseconds as int)
            }),
    {
        match rfc3339_millis(seconds, nanoseconds) {
            Some(text) => Some(Timestamp { seconds, nanoseconds, text }),
            None => None,
        }
    }

    /// The text of the instant: RFC 3339, in UTC, to the millisecond.
    pub fn as_str(&self) -> (text: &str)
        ensures
            text@ == self@,
            rfc3339_utc(self.seconds() as int, self.nanoseconds() as int) == Some(self@),
    {
        proof {
            use_type_invariant(self);
        }
        self.text.as_str()
    }
}

} // verus!
