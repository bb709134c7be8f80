use vstd::prelude::*;

use crate::error::InvalidValue;

verus! {

/// Relies on chrono::Utc::now and DateTime::timestamp_micros: the wall clock now,
/// in microseconds since the Unix epoch. Nothing is promised of the value.
#[verifier::external_body]
pub(crate) fn now_micros() -> (r: i64) {
    chrono::Utc::now().timestamp_micros()
}

/// An audit stamp: who made a change, and when (microseconds since the Unix epoch, UTC).
/// Versions order by timestamp first, then by author.
#[derive(Clone, Copy, PartialEq, Eq, Structural, PartialOrd, Ord, Hash, Debug)]
pub struct Version {
    timestamp: i64,
    author: u128,
}

impl Version {
    pub closed spec fn spec_author(&self) -> u128 {
        self.author
    }

    pub closed spec fn spec_timestamp(&self) -> i64 {
        self.timestamp
    }

    /// Builds a version from untrusted data, given the clock reading `now`:
    /// a timestamp strictly after `now` is refused.
    pub fn new_at(author: u128, timestamp: i64, now: i64) -> (r: Result<Version, InvalidValue>)
        ensures
            r is Ok <==> timestamp <= now,
            r is Ok ==> r->Ok_0.spec_author() == author && r->Ok_0.spec_timestamp() == timestamp,
            r is Err ==> r->Err_0@ == "Version"@,
    {
        if timestamp > now {
            Err(InvalidValue::new("Version"))
        } else {
            Ok(Version { timestamp, author })
        }
    }

    /// Builds a version from untrusted data: a timestamp strictly after the wall clock
    /// at the time of the call is refused.
    pub fn new(author: u128, timestamp: i64) -> (r: Result<Version, InvalidValue>)
        ensures
            r is Ok ==> r->Ok_0.spec_author() == author && r->Ok_0.spec_timestamp() == timestamp,
            r is Err ==> r->Err_0@ == "Version"@,
    {
        Version::new_at(author, timestamp, now_micros())
    }

    /// A version by `author`, stamped with the wall clock.
    pub fn now(author: u128) -> (r: Version)
        ensures
            r.spec_author() == author,
    {
        Version { timestamp: now_micros(), author }
    }

    pub fn author(&self) -> (r: u128)
        ensures
            r == self.spec_author(),
    {
        self.author
    }

    pub fn timestamp(&self) -> (r: i64)
        ensures
            r == self.spec_timestamp(),
    {
        self.timestamp
    }
}

/// Two versions with the same author and timestamp are the same version.
pub proof fn lemma_version_ext(a: Version, b: Version)
    requires
        a.spec_author() == b.spec_author(),
        a.spec_timestamp() == b.spec_timestamp(),
    ensures
        a == b,
{
}

/// A timestamp is accepted exactly when it is not after the clock reading; a version
/// stamped with a reading is accepted against that reading and any later one.
pub proof fn lemma_version_not_in_future(
    author: u128,
    timestamp: i64,
    now: i64,
    r: Result<Version, InvalidValue>,
)
    requires
        r is Ok <==> timestamp <= now,
        r is Ok ==> r->Ok_0.spec_author() == author && r->Ok_0.spec_timestamp() == timestamp,
    ensures
        r is Err <==> timestamp > now,
        r is Ok ==> r->Ok_0.spec_timestamp() <= now,
{
}

} // verus!
