use vstd::prelude::*;
use vstd::utf8::encode_utf8;

use crate::error::InvalidValue;

verus! {

/// Whether `text` holds a match of the regular expression `pattern`
/// (false where `pattern` is not a valid regular expression).
pub uninterp spec fn regex_is_match(pattern: Seq<char>, text: Seq<char>) -> bool;

/// Relies on regex::Regex::new to compile `pattern` and on regex::Regex::is_match to
/// search `text` with it; a pattern that does not compile matches nothing.
#[verifier::external_body]
fn pattern_matches(pattern: &str, text: &str) -> (r: bool)
    ensures
        r == regex_is_match(pattern@, text@),
{
    match regex::Regex::new(pattern) {
        Ok(re) => re.is_match(text),
        Err(_) => false,
    }
}

/// The length of `s` in bytes, once encoded as UTF-8 (as `str::len` reports it).
pub open spec fn byte_len(s: Seq<char>) -> usize {
    encode_utf8(s).len() as usize
}

/// Whether `s` meets a rule set made of a pattern and optional bounds on its byte length.
pub open spec fn text_accepts(
    pattern: Seq<char>,
    min: Option<usize>,
    max: Option<usize>,
    s: Seq<char>,
) -> bool {
    &&& regex_is_match(pattern, s)
    &&& (min matches Some(m) ==> byte_len(s) >= m)
    &&& (max matches Some(m) ==> byte_len(s) <= m)
}

/// Checks `s` against a pattern and optional bounds on its byte length.
pub fn text_check(pattern: &str, min: Option<usize>, max: Option<usize>, s: &str) -> (r: bool)
    ensures
        r == text_accepts(pattern@, min, max, s@),
{
    if !pattern_matches(pattern, s) {
        return false;
    }
    let len = s.len();
    match min {
        Some(m) => {
            if len < m {
                return false;
            }
        },
        None => {},
    }
    match max {
        Some(m) => {
            if len > m {
                return false;
            }
        },
        None => {},
    }
    true
}

/// An immutable text wrapper whose payload meets the rules of its type.
pub trait TextValue: Sized + View<V = Seq<char>> {
    /// Whether `s` meets the rules of this type.
    spec fn accepts(s: Seq<char>) -> bool;

    /// The name that an `InvalidValue` for this type carries.
    spec fn kind_name() -> Seq<char>;

    fn from_str(s: &str) -> (r: Result<Self, InvalidValue>)
        ensures
            match r {
                Ok(v) => Self::accepts(s@) && v@ == s@,
                Err(e) => !Self::accepts(s@) && e@ == Self::kind_name(),
            },
    ;

    fn to_string(&self) -> (r: String)
        ensures
            r@ == self@,
    ;

    fn value(&self) -> (r: &str)
        ensures
            r@ == self@,
    ;
}

/// What parsing `s` into `T` gives: the text itself where it meets the rules,
/// else an `InvalidValue` naming `T`.
pub open spec fn parse_outcome<T: TextValue>(s: Seq<char>, r: Result<T, InvalidValue>) -> bool {
    match r {
        Ok(v) => T::accepts(s) && v@ == s,
        Err(e) => !T::accepts(s) && e@ == T::kind_name(),
    }
}

/// Text that meets a type's rules parses, and rendering the parsed value gives the text back.
pub proof fn lemma_text_round_trip<T: TextValue>(
    s: Seq<char>,
    parsed: Result<T, InvalidValue>,
    rendered: Seq<char>,
)
    requires
        T::accepts(s),
        parse_outcome::<T>(s, parsed),
        parsed is Ok ==> rendered == parsed->Ok_0@,
    ensures
        parsed is Ok,
        rendered == s,
{
}

/// Text that breaks a type's rules fails to parse, with an `InvalidValue` naming that type.
pub proof fn lemma_text_rejected<T: TextValue>(s: Seq<char>, parsed: Result<T, InvalidValue>)
    requires
        !T::accepts(s),
        parse_outcome::<T>(s, parsed),
    ensures
        parsed is Err,
        parsed->Err_0@ == T::kind_name(),
{
}

} // verus!
