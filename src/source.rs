use vstd::prelude::*;

use crate::error::{invalid_value_text, InvalidValue};
use crate::version::Version;

verus! {

/// An operation object: one read or write intent, with the type of what it yields.
pub trait BMC {
    type Output;
}

/// The stored shape of a version: author and timestamp (microseconds since the Unix epoch).
#[derive(Clone, Copy, PartialEq, Eq, Structural, Debug)]
pub struct RecordVersion {
    pub author: u128,
    pub timestamp: i64,
}

impl RecordVersion {
    pub fn from(value: Version) -> (r: RecordVersion)
        ensures
            r.author == value.spec_author(),
            r.timestamp == value.spec_timestamp(),
    {
        RecordVersion { author: value.author(), timestamp: value.timestamp() }
    }

    /// The version this column holds, checked against the clock reading `now`.
    pub fn to_version_at(&self, now: i64) -> (r: Result<Version, InvalidValue>)
        ensures
            r is Ok <==> self.timestamp <= now,
            r is Ok ==> r->Ok_0.spec_author() == self.author && r->Ok_0.spec_timestamp() == self.timestamp,
            r is Err ==> r->Err_0@ == "Version"@,
    {
        Version::new_at(self.author, self.timestamp, now)
    }
}

/// The version is what the stored column holds.
pub open spec fn stored_as(v: Version, rv: RecordVersion) -> bool {
    v.spec_author() == rv.author && v.spec_timestamp() == rv.timestamp
}

/// A row to put in quarantine: its identifier, the entity name and why it failed.
#[derive(Debug)]
pub struct CorruptRecord {
    pub id: u128,
    pub model: String,
    pub description: String,
}

impl CorruptRecord {
    pub fn new(id: u128, model: &str, error: &InvalidValue) -> (r: CorruptRecord)
        ensures
            r.id == id,
            r.model@ == model@,
            r.description@ == invalid_value_text(error@),
    {
        CorruptRecord { id, model: model.to_owned(), description: error.to_string() }
    }
}

/// What a single-row lookup comes to once its row has been validated.
pub enum Lookup<V> {
    /// No live row matched.
    Missing,
    /// The row matched and is valid.
    Found(V),
    /// The row matched but failed validation: it goes to quarantine and the caller sees nothing.
    Corrupt(CorruptRecord),
}

impl<V> Lookup<V> {
    /// What the caller of the lookup receives.
    pub fn into_output(self) -> (r: Option<V>)
        ensures
            self is Found <==> r is Some,
            self is Found ==> r == Some(self->Found_0),
    {
        match self {
            Lookup::Found(v) => Some(v),
            _ => None,
        }
    }
}

} // verus!
