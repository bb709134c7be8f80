use vstd::prelude::*;

use crate::error::Error;
use crate::id::{Identifiable, ID};
use crate::version::Version;

verus! {

/// An entity kind that is persisted as records; its view is the content of its state.
pub trait Model: Identifiable + View {}

/// A snapshot of the fields of a model that an update may change, stamped with the
/// version that the update would carry.
pub trait RecordUpdate: Sized + View {
    type Model: Model;

    /// The snapshot of a state with the given content, stamped `version`.
    spec fn snapshot_of(state: <Self::Model as View>::V, version: Version) -> Self::V;

    /// The content of a state once a snapshot with content `update` is merged into it.
    spec fn merged(update: Self::V, state: <Self::Model as View>::V) -> <Self::Model as View>::V;

    /// Takes the snapshot of `model`.
    fn new(model: &Self::Model, version: Version) -> (r: Self)
        ensures
            r@ == Self::snapshot_of(model@, version),
    ;

    /// Merges the snapshot into `state`.
    fn apply(self, state: &mut Self::Model)
        ensures
            final(state)@ == Self::merged(self@, old(state)@),
    ;

    /// Full equality of two snapshots.
    fn same(&self, other: &Self) -> (r: bool)
        ensures
            r == (self@ == other@),
    ;

    fn duplicate(&self) -> (r: Self)
        ensures
            r@ == self@,
    ;
}

/// What a checked update stamped `version` did, going from `before` to `after` and
/// returning `r`: the mutator ran on the snapshot of the state; its error comes back
/// untouched and leaves the record as it was; a snapshot it left unchanged changes nothing;
/// a changed one is merged into the state and the stamp recorded.
pub open spec fn update_outcome<M: Model, U: RecordUpdate<Model = M>, F: Fn(U) -> Result<U, Error>>(
    before: Record<M>,
    after: Record<M>,
    version: Version,
    callback: F,
    r: Result<bool, Error>,
) -> bool {
    let snapshot = U::snapshot_of(before.spec_state()@, version);
    &&& after.spec_id() == before.spec_id()
    &&& (r is Err ==> after == before && exists|u: U|
        u@ == snapshot && #[trigger] call_ensures(callback, (u,), Err::<U, Error>(r->Err_0)))
    &&& (r is Ok ==> exists|u: U, c: U|
        u@ == snapshot && #[trigger] call_ensures(callback, (u,), Ok::<U, Error>(c))
        && r->Ok_0 == (c@ != snapshot)
        && (r->Ok_0 ==> after.spec_state()@ == U::merged(c@, before.spec_state()@)
            && after.spec_version() == version)
        && (!r->Ok_0 ==> after == before))
}

/// An identity, the domain state, and the version of the last change.
#[derive(Debug)]
pub struct Record<M: Model> {
    id: ID<M>,
    state: M,
    version: Version,
}

impl<M: Model> Record<M> {
    pub closed spec fn spec_id(&self) -> ID<M> {
        self.id
    }

    pub closed spec fn spec_state(&self) -> M {
        self.state
    }

    pub closed spec fn spec_version(&self) -> Version {
        self.version
    }

    pub fn new(id: ID<M>, state: M, version: Version) -> (r: Record<M>)
        ensures
            r.spec_id() == id,
            r.spec_state() == state,
            r.spec_version() == version,
    {
        Record { id, state, version }
    }

    pub fn id(&self) -> (r: &ID<M>)
        ensures
            *r == self.spec_id(),
    {
        &self.id
    }

    pub fn state(&self) -> (r: &M)
        ensures
            *r == self.spec_state(),
    {
        &self.state
    }

    pub fn version(&self) -> (r: Version)
        ensures
            r == self.spec_version(),
    {
        self.version
    }

    /// The first half of a checked update whose mutator suspends: the snapshot of the
    /// state stamped `version`, and a copy of it for the mutator to work on.
    pub fn begin_update<U: RecordUpdate<Model = M>>(&self, version: Version) -> (r: (U, U))
        ensures
            r.0@ == U::snapshot_of(self.spec_state()@, version),
            r.1@ == r.0@,
    {
        let snapshot = U::new(&self.state, version);
        let copy = snapshot.duplicate();
        (snapshot, copy)
    }

    /// The second half of a checked update: where the mutated copy differs from the
    /// snapshot it is merged into the state and `version` recorded; else nothing changes.
    pub fn finish_update<U: RecordUpdate<Model = M>>(&mut self, snapshot: U, changed: U, version: Version) -> (r: bool)
        ensures
            r == (snapshot@ != changed@),
            final(self).spec_id() == old(self).spec_id(),
            !r ==> *final(self) == *old(self),
            r ==> final(self).spec_version() == version,
            r ==> final(self).spec_state()@ == U::merged(changed@, old(self).spec_state()@),
    {
        if snapshot.same(&changed) {
            false
        } else {
            changed.apply(&mut self.state);
            self.version = version;
            true
        }
    }

    /// The checked update with a given stamp: the mutator works on a copy of the
    /// snapshot; only where the copy differs afterwards is it merged into the state and
    /// the stamp recorded. A failing mutator leaves the record as it was.
    pub fn update_with<U, F>(&mut self, version: Version, callback: F) -> (r: Result<bool, Error>)
        where
            U: RecordUpdate<Model = M>,
            F: Fn(U) -> Result<U, Error>,
        requires
            forall|u: U| call_requires(callback, (u,)),
        ensures
            final(self).spec_id() == old(self).spec_id(),
            r is Err ==> *final(self) == *old(self),
            r matches Ok(false) ==> *final(self) == *old(self),
            r matches Ok(true) ==> final(self).spec_version() == version,
            update_outcome(*old(self), *final(self), version, callback, r),
            (forall|u: U, res: Result<U, Error>|
                call_ensures(callback, (u,), res) ==> res is Ok && res->Ok_0@ == u@)
                ==> r matches Ok(false),
            (forall|u: U, res: Result<U, Error>|
                call_ensures(callback, (u,), res) ==> res is Ok && res->Ok_0@ != u@)
                ==> r matches Ok(true),
    {
        let (snapshot, copy) = self.begin_update::<U>(version);
        let ghost handed = copy;
        match callback(copy) {
            Err(e) => {
                assert(call_ensures(callback, (handed,), Err::<U, Error>(e)));
                assert(handed@ == U::snapshot_of(old(self).spec_state()@, version));
                assert(Err::<bool, Error>(e)->Err_0 == e);
                assert(update_outcome(*old(self), *self, version, callback, Err::<bool, Error>(e)));
                Err(e)
            },
            Ok(changed) => {
                let ghost c = changed;
                let ghost before = *self;
                assert(call_ensures(callback, (handed,), Ok::<U, Error>(c)));
                let b = self.finish_update(snapshot, changed, version);
                assert(handed@ == U::snapshot_of(before.spec_state()@, version)
                    && call_ensures(callback, (handed,), Ok::<U, Error>(c))
                    && b == (c@ != U::snapshot_of(before.spec_state()@, version)));
                assert(update_outcome(before, *self, version, callback, Ok::<bool, Error>(b)));
                Ok(b)
            },
        }
    }

    /// The checked update, stamped with `Version::now(author)`.
    pub fn update<U, F>(&mut self, author: u128, callback: F) -> (r: Result<bool, Error>)
        where
            U: RecordUpdate<Model = M>,
            F: Fn(U) -> Result<U, Error>,
        requires
            forall|u: U| call_requires(callback, (u,)),
        ensures
            final(self).spec_id() == old(self).spec_id(),
            r is Err ==> *final(self) == *old(self),
            r matches Ok(false) ==> *final(self) == *old(self),
            r matches Ok(true) ==> final(self).spec_version().spec_author() == author,
            exists|version: Version| version.spec_author() == author
                && #[trigger] update_outcome(*old(self), *final(self), version, callback, r),
            (forall|u: U, res: Result<U, Error>|
                call_ensures(callback, (u,), res) ==> res is Ok && res->Ok_0@ == u@)
                ==> r matches Ok(false),
            (forall|u: U, res: Result<U, Error>|
                call_ensures(callback, (u,), res) ==> res is Ok && res->Ok_0@ != u@)
                ==> r matches Ok(true),
    {
        let version = Version::now(author);
        let r = self.update_with(version, callback);
        assert(update_outcome(*old(self), *self, version, callback, r));
        r
    }
}

} // verus!
