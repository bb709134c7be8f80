use vstd::prelude::*;

use crate::error::InvalidValue;

verus! {

/// An entity kind that has identifiers of its own.
pub trait Identifiable {
    /// The backend-native value that identifies one entity of this kind.
    type ID: core::fmt::Debug;

    /// The stable name of the entity kind, used in error messages and quarantine tags.
    spec fn model_name() -> Seq<char>;

    fn name() -> (r: &'static str)
        ensures
            r@ == Self::model_name(),
    ;
}

/// An identifier bound to exactly one entity kind.
#[derive(Debug)]
pub struct ID<T: Identifiable> {
    value: T::ID,
}

impl<T: Identifiable> ID<T> {
    pub closed spec fn spec_value(&self) -> T::ID {
        self.value
    }

    pub fn new(value: T::ID) -> (r: ID<T>)
        ensures
            r.spec_value() == value,
    {
        ID { value }
    }

    pub fn value(&self) -> (r: &T::ID)
        ensures
            *r == self.spec_value(),
    {
        &self.value
    }
}

/// The 128-bit value that a ULID text spells, if it spells one.
pub uninterp spec fn ulid_of_text(s: Seq<char>) -> Option<u128>;

/// Relies on ulid::Ulid::from_string: decodes the 26-character Crockford base32 form.
#[verifier::external_body]
fn parse_ulid(s: &str) -> (r: Option<u128>)
    ensures
        r == ulid_of_text(s@),
{
    match ulid::Ulid::from_string(s) {
        Ok(u) => Some(u.0),
        Err(_) => None,
    }
}

/// The error name for an identifier of the entity kind called `model`.
pub open spec fn id_error_name(model: Seq<char>) -> Seq<char> {
    model + " ID"@
}

impl<T: Identifiable<ID = u128>> ID<T> {
    /// Parses a ULID text into an identifier of this entity kind.
    pub fn from_str(s: &str) -> (r: Result<ID<T>, InvalidValue>)
        ensures
            r is Ok <==> ulid_of_text(s@) is Some,
            r is Ok ==> Some(r->Ok_0.spec_value()) == ulid_of_text(s@),
            r is Err ==> r->Err_0@ == id_error_name(T::model_name()),
    {
        match parse_ulid(s) {
            Some(v) => Ok(ID { value: v }),
            None => {
                let mut name = String::from_str(T::name());
                name.append(" ID");
                Err(InvalidValue::new(name.as_str()))
            },
        }
    }

    pub fn copy(&self) -> (r: ID<T>)
        ensures
            r == *self,
    {
        ID { value: self.value }
    }
}

} // verus!
