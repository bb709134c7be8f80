use vstd::prelude::*;

verus! {

/// The text that describes a failed validation of the type called `name`.
pub open spec fn invalid_value_text(name: Seq<char>) -> Seq<char> {
    "Invalid value for "@ + name
}

/// A value that failed the validation of the type it names.
#[derive(Debug)]
pub struct InvalidValue {
    name: String,
}

impl View for InvalidValue {
    type V = Seq<char>;

    closed spec fn view(&self) -> Seq<char> {
        self.name@
    }
}

impl InvalidValue {
    pub fn new(s: &str) -> (r: InvalidValue)
        ensures
            r@ == s@,
    {
        InvalidValue { name: s.to_owned() }
    }

    /// The name of the type whose validation failed.
    pub fn name(&self) -> (r: &str)
        ensures
            r@ == self@,
    {
        self.name.as_str()
    }

    pub fn to_string(&self) -> (r: String)
        ensures
            r@ == invalid_value_text(self@),
    {
        let mut text = String::from_str("Invalid value for ");
        text.append(self.name.as_str());
        text
    }
}

/// The text that describes a failure of the backend.
pub open spec fn persistence_error_text(detail: Seq<char>) -> Seq<char> {
    "Persistence error: "@ + detail
}

/// A failure of the storage backend: lost connection, violated constraint, aborted transaction.
#[derive(Debug)]
pub struct PersistenceError {
    detail: String,
}

impl View for PersistenceError {
    type V = Seq<char>;

    closed spec fn view(&self) -> Seq<char> {
        self.detail@
    }
}

impl PersistenceError {
    pub fn new(s: &str) -> (r: PersistenceError)
        ensures
            r@ == s@,
    {
        PersistenceError { detail: s.to_owned() }
    }

    pub fn detail(&self) -> (r: &str)
        ensures
            r@ == self@,
    {
        self.detail.as_str()
    }

    pub fn to_string(&self) -> (r: String)
        ensures
            r@ == persistence_error_text(self@),
    {
        let mut text = String::from_str("Persistence error: ");
        text.append(self.detail.as_str());
        text
    }
}

/// The error that every layer of the library propagates.
#[derive(Debug)]
pub enum Error {
    InvalidValue(InvalidValue),
    PersistenceError(PersistenceError),
    Forbiden(String),
}

impl Error {
    pub fn to_string(&self) -> (r: String)
        ensures
            self is InvalidValue ==> r@ == invalid_value_text(self->InvalidValue_0@),
            self is PersistenceError ==> r@ == persistence_error_text(self->PersistenceError_0@),
            self is Forbiden ==> r@ == self->Forbiden_0@,
    {
        match self {
            Error::InvalidValue(e) => e.to_string(),
            Error::PersistenceError(e) => e.to_string(),
            Error::Forbiden(s) => s.clone(),
        }
    }
}

impl From<InvalidValue> for Error {
    fn from(value: InvalidValue) -> (r: Error)
        ensures
            r == Error::InvalidValue(value),
    {
        Error::InvalidValue(value)
    }
}

impl vstd::std_specs::convert::FromSpecImpl<InvalidValue> for Error {
    open spec fn obeys_from_spec() -> bool {
        true
    }

    open spec fn from_spec(v: InvalidValue) -> Error {
        Error::InvalidValue(v)
    }
}

impl From<PersistenceError> for Error {
    fn from(value: PersistenceError) -> (r: Error)
        ensures
            r == Error::PersistenceError(value),
    {
        Error::PersistenceError(value)
    }
}

impl vstd::std_specs::convert::FromSpecImpl<PersistenceError> for Error {
    open spec fn obeys_from_spec() -> bool {
        true
    }

    open spec fn from_spec(v: PersistenceError) -> Error {
        Error::PersistenceError(v)
    }
}

impl From<&'static str> for Error {
    fn from(value: &'static str) -> (r: Error)
        ensures
            r is Forbiden && r->Forbiden_0@ == value@,
    {
        Error::Forbiden(value.to_owned())
    }
}

impl vstd::std_specs::convert::FromSpecImpl<&'static str> for Error {
    open spec fn obeys_from_spec() -> bool {
        false
    }

    open spec fn from_spec(v: &'static str) -> Error {
        arbitrary()
    }
}

/// Fails with the given error.
pub fn error<T>(value: Error) -> (r: Result<T, Error>)
    ensures
        r == Err::<T, Error>(value),
{
    Err(value)
}

} // verus!
