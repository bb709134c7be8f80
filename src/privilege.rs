use vstd::prelude::*;

use crate::error::InvalidValue;
use crate::text::{parse_outcome, text_accepts, text_check, TextValue};

verus! {

pub const PRIVILEGE_PATTERN: &'static str = r"^([A-Z]+\s)*[A-Z]+$";

/// The name of a privilege: upper-case words separated by single spaces, 4 to 32 bytes.
#[derive(Debug)]
pub struct Privilege {
    value: String,
}

impl View for Privilege {
    type V = Seq<char>;

    closed spec fn view(&self) -> Seq<char> {
        self.value@
    }
}

impl Privilege {
    #[verifier::type_invariant]
    closed spec fn meets_rules(&self) -> bool {
        <Privilege as TextValue>::accepts(self.value@)
    }

    /// Makes known to a caller that the text meets the rules of its type.
    pub fn meets_its_rules(&self)
        ensures
            <Privilege as TextValue>::accepts(self@),
    {
        proof {
            use_type_invariant(self);
        }
    }
}

impl TextValue for Privilege {
    open spec fn accepts(s: Seq<char>) -> bool {
        text_accepts(PRIVILEGE_PATTERN@, Some(4usize), Some(32usize), s)
    }

    open spec fn kind_name() -> Seq<char> {
        "Privilege"@
    }

    fn from_str(s: &str) -> (r: Result<Privilege, InvalidValue>) {
        if text_check(PRIVILEGE_PATTERN, Some(4), Some(32), s) {
            Ok(Privilege { value: s.to_owned() })
        } else {
            Err(InvalidValue::new("Privilege"))
        }
    }

    fn to_string(&self) -> (r: String) {
        self.value.clone()
    }

    fn value(&self) -> (r: &str) {
        self.value.as_str()
    }
}

} // verus!

verus! {

/// The views of a sequence of strings.
pub open spec fn texts_of(v: Seq<String>) -> Seq<Seq<char>> {
    v.map_values(|s: String| s@)
}

/// The views of a sequence of string slices.
pub open spec fn strs_of(v: Seq<&str>) -> Seq<Seq<char>> {
    v.map_values(|s: &str| s@)
}

/// A set of privileges: each name at most once, in no particular order.
#[derive(Debug)]
pub struct PrivilegeSet {
    items: Vec<Privilege>,
}

impl View for PrivilegeSet {
    type V = Set<Seq<char>>;

    closed spec fn view(&self) -> Set<Seq<char>> {
        self.names().to_set()
    }
}

impl PrivilegeSet {
    /// The names of the privileges, in the order in which they are held.
    pub closed spec fn names(&self) -> Seq<Seq<char>> {
        self.items@.map_values(|p: Privilege| p@)
    }

    /// Each name is held once.
    #[verifier::type_invariant]
    closed spec fn wf(&self) -> bool {
        self.names().no_duplicates()
    }

    pub fn new() -> (r: PrivilegeSet)
        ensures
            r@ == Set::<Seq<char>>::empty(),
            r.names().len() == 0,
    {
        let r = PrivilegeSet { items: Vec::new() };
        assert(r.names() =~= Seq::<Seq<char>>::empty());
        r
    }

    pub fn len(&self) -> (r: usize)
        ensures
            r == self.names().len(),
    {
        self.items.len()
    }

    pub fn contains(&self, p: &Privilege) -> (r: bool)
        ensures
            r == self@.contains(p@),
    {
        let mut i: usize = 0;
        while i < self.items.len()
            invariant
                0 <= i <= self.items.len(),
                forall|j: int| 0 <= j < i ==> self.names()[j] != p@,
            decreases self.items.len() - i,
        {
            if self.items[i].value == p.value {
                assert(self.names()[i as int] == p@);
                return true;
            }
            i += 1;
        }
        assert(!self.names().contains(p@));
        false
    }

    pub fn insert(&mut self, p: Privilege) -> (r: bool)
        ensures
            final(self)@ == old(self)@.insert(p@),
            r == !old(self)@.contains(p@),
    {
        proof {
            use_type_invariant(&*self);
        }
        if self.contains(&p) {
            assert(self@.insert(p@) =~= self@);
            false
        } else {
            let ghost before = self.names();
            let ghost v = p@;
            let mut items = self.copy_items();
            items.push(p);
            assert(items@.map_values(|q: Privilege| q@) =~= before.push(v));
            *self = PrivilegeSet { items };
            assert(self.names() =~= before.push(v));
            assert(self.names().to_set() =~= before.to_set().insert(v)) by {
                before.lemma_push_to_set_commute(v);
            }
            true
        }
    }

    fn copy_items(&self) -> (r: Vec<Privilege>)
        ensures
            r@.map_values(|p: Privilege| p@) == self.names(),
    {
        let mut items: Vec<Privilege> = Vec::new();
        let mut i: usize = 0;
        while i < self.items.len()
            invariant
                0 <= i <= self.items.len(),
                items@.map_values(|p: Privilege| p@) == self.names().subrange(0, i as int),
            decreases self.items.len() - i,
        {
            let ghost prev = items@;
            self.items[i].meets_its_rules();
            items.push(Privilege { value: self.items[i].value.clone() });
            assert(items@.map_values(|p: Privilege| p@) =~= prev.map_values(|p: Privilege| p@).push(self.names()[i as int]));
            i += 1;
            assert(items@.map_values(|p: Privilege| p@) =~= self.names().subrange(0, i as int));
        }
        assert(self.names().subrange(0, i as int) =~= self.names());
        items
    }

    pub fn duplicate(&self) -> (r: PrivilegeSet)
        ensures
            r@ == self@,
            r.names() == self.names(),
    {
        proof {
            use_type_invariant(self);
        }
        PrivilegeSet { items: self.copy_items() }
    }

    /// Whether the two sets hold the same names.
    pub fn same_as(&self, other: &PrivilegeSet) -> (r: bool)
        ensures
            r == (self@ == other@),
    {
        let mut i: usize = 0;
        while i < self.items.len()
            invariant
                0 <= i <= self.items.len(),
                forall|j: int| 0 <= j < i ==> other@.contains(#[trigger] self.names()[j]),
            decreases self.items.len() - i,
        {
            if !other.contains(&self.items[i]) {
                assert(self@.contains(self.names()[i as int]));
                return false;
            }
            i += 1;
        }
        let mut k: usize = 0;
        while k < other.items.len()
            invariant
                0 <= k <= other.items.len(),
                forall|j: int| 0 <= j < k ==> self@.contains(#[trigger] other.names()[j]),
            decreases other.items.len() - k,
        {
            if !self.contains(&other.items[k]) {
                assert(other@.contains(other.names()[k as int]));
                return false;
            }
            k += 1;
        }
        assert(self@ =~= other@) by {
            assert forall|x: Seq<char>| self@.contains(x) implies other@.contains(x) by {
                let j = choose|j: int| 0 <= j < self.names().len() && self.names()[j] == x;
            }
            assert forall|x: Seq<char>| other@.contains(x) implies self@.contains(x) by {
                let j = choose|j: int| 0 <= j < other.names().len() && other.names()[j] == x;
            }
        }
        true
    }

    /// The privilege names as strings, each once.
    pub fn to_strings(&self) -> (r: Vec<String>)
        ensures
            texts_of(r@) == self.names(),
            texts_of(r@).to_set() == self@,
    {
        let mut out: Vec<String> = Vec::new();
        let mut i: usize = 0;
        while i < self.items.len()
            invariant
                0 <= i <= self.items.len(),
                texts_of(out@) == self.names().subrange(0, i as int),
            decreases self.items.len() - i,
        {
            let ghost prev = out@;
            let s = self.items[i].to_string();
            out.push(s);
            assert(texts_of(out@) =~= texts_of(prev).push(self.names()[i as int]));
            i += 1;
            assert(texts_of(out@) =~= self.names().subrange(0, i as int));
        }
        assert(self.names().subrange(0, i as int) =~= self.names());
        out
    }

    /// Parses each name; fails on the first one that breaks the privilege rules.
    pub fn parse_all(names: &Vec<String>) -> (r: Result<PrivilegeSet, InvalidValue>)
        ensures
            r is Ok <==> forall|j: int| 0 <= j < names@.len() ==> Privilege::accepts(#[trigger] names@[j]@),
            r is Ok ==> r->Ok_0@ == texts_of(names@).to_set(),
            r is Err ==> r->Err_0@ == "Privilege"@,
    {
        let mut set = PrivilegeSet::new();
        let mut i: usize = 0;
        while i < names.len()
            invariant
                0 <= i <= names.len(),
                set@ == texts_of(names@.subrange(0, i as int)).to_set(),
                forall|j: int| 0 <= j < i ==> Privilege::accepts(#[trigger] names@[j]@),
            decreases names.len() - i,
        {
            match Privilege::from_str(names[i].as_str()) {
                Ok(p) => {
                    set.insert(p);
                },
                Err(e) => {
                    return Err(e);
                },
            }
            let ghost prev = texts_of(names@.subrange(0, i as int));
            i += 1;
            assert(texts_of(names@.subrange(0, i as int)) =~= prev.push(names@[i - 1]@));
            proof {
                prev.lemma_push_to_set_commute(names@[i - 1]@);
            }
        }
        assert(names@.subrange(0, i as int) =~= names@);
        Ok(set)
    }

    /// Parses each name of a list of slices; fails on the first one that breaks the rules.
    pub fn parse_strs(names: &Vec<&str>) -> (r: Result<PrivilegeSet, InvalidValue>)
        ensures
            r is Ok <==> forall|j: int| 0 <= j < names@.len() ==> Privilege::accepts(#[trigger] names@[j]@),
            r is Ok ==> r->Ok_0@ == strs_of(names@).to_set(),
            r is Err ==> r->Err_0@ == "Privilege"@,
    {
        let mut set = PrivilegeSet::new();
        let mut i: usize = 0;
        while i < names.len()
            invariant
                0 <= i <= names.len(),
                set@ == strs_of(names@.subrange(0, i as int)).to_set(),
                forall|j: int| 0 <= j < i ==> Privilege::accepts(#[trigger] names@[j]@),
            decreases names.len() - i,
        {
            match Privilege::from_str(names[i]) {
                Ok(p) => {
                    set.insert(p);
                },
                Err(e) => {
                    return Err(e);
                },
            }
            let ghost prev = strs_of(names@.subrange(0, i as int));
            i += 1;
            assert(strs_of(names@.subrange(0, i as int)) =~= prev.push(names@[i - 1]@));
            proof {
                prev.lemma_push_to_set_commute(names@[i - 1]@);
            }
        }
        assert(names@.subrange(0, i as int) =~= names@);
        Ok(set)
    }
}

} // verus!
