//! The storage-agnostic repository contract.
//!
//! The domain depends on storage only through this trait; any conforming
//! adapter (a document store, a relational table, the in-memory adapter in
//! `memory`) may be substituted without domain changes.  The abstract state
//! of an adapter is a map from (owner, id) pairs to item models; every
//! operation's contract is stated over that map.  A failing operation leaves
//! the map unchanged: there is no partial success.

use crate::entities::{updated_model, ItemModel, PersistedItem, ValidatedToDo};
use crate::errors::RepositoryError;
use vstd::prelude::*;

verus! {

/// The models of a sequence of persisted items.
pub open spec fn models_of(s: Seq<PersistedItem>) -> Seq<ItemModel> {
    s.map_values(|p: PersistedItem| p@)
}

/// What a listing for `owner` must look like: every returned model is the
/// stored record of this owner under its own id, no id is returned twice,
/// and every stored id of this owner is returned.  Together these make the
/// result a permutation of the owner's stored items — in particular it is
/// empty exactly when the owner has none.
pub open spec fn listing_of(
    c: Map<(Seq<char>, Seq<char>), ItemModel>,
    owner: Seq<char>,
    ms: Seq<ItemModel>,
) -> bool {
    &&& forall|i: int|
        0 <= i < ms.len() ==> (#[trigger] ms[i]).owner == owner && c.contains_key(
            (owner, ms[i].id),
        ) && c[(owner, ms[i].id)] == ms[i]
    &&& forall|i: int, j: int| 0 <= i < j < ms.len() ==> ms[i].id != ms[j].id
    &&& forall|k: (Seq<char>, Seq<char>)|
        #[trigger] c.contains_key(k) && k.0 == owner ==> exists|i: int|
            0 <= i < ms.len() && (#[trigger] ms[i]).id == k.1
}

/// Persistence capabilities the domain requires from a storage subsystem.
///
/// `inv` is the adapter's own well-formedness condition, `contents` its
/// abstract state, and `clock` the timestamp it would record for a
/// completion happening now.  An adapter may always fail with
/// `RepositoryError::Backend` (storage unavailable, write conflict); the
/// contracts therefore pin down the successful outcomes and the error kinds,
/// and guarantee that failures change nothing.
pub trait Repository: Sized {
    spec fn inv(&self) -> bool;

    spec fn contents(&self) -> Map<(Seq<char>, Seq<char>), ItemModel>;

    spec fn clock(&self) -> Seq<char>;

    /// Assigns a fresh identifier, persists the entity under it and returns
    /// the stored item.  The assigned identifier is non-empty and was not in
    /// use for this owner; every field of the stored item comes from the
    /// entity, with a completion timestamp exactly when the item is stored
    /// complete.
    fn store(&mut self, entity: ValidatedToDo) -> (r: Result<PersistedItem, RepositoryError>)
        requires
            old(self).inv(),
        ensures
            final(self).inv(),
            final(self).clock() == old(self).clock(),
            match r {
                Ok(item) => {
                    &&& item@.id.len() > 0
                    &&& item@.title == entity.title@
                    &&& item@.owner == entity.owner_id@
                    &&& item@.complete == entity.is_complete is COMPLETE
                    &&& item@.completed_on == if item@.complete {
                        old(self).clock()
                    } else {
                        Seq::<char>::empty()
                    }
                    &&& !old(self).contents().contains_key((item@.owner, item@.id))
                    &&& final(self).contents() == old(self).contents().insert(
                        (item@.owner, item@.id),
                        item@,
                    )
                },
                Err(e) => e is Backend && final(self).contents() == old(self).contents(),
            },
    ;

    /// Returns the item stored under `(owner_id, id)`.  `NotFound` is
    /// returned exactly when no such item is stored; `Backend` may occur on
    /// infrastructure failure.
    fn fetch(&self, owner_id: &String, id: &String) -> (r: Result<
        PersistedItem,
        RepositoryError,
    >)
        requires
            self.inv(),
        ensures
            match r {
                Ok(item) => self.contents().contains_key((owner_id@, id@)) && item@
                    == self.contents()[(owner_id@, id@)],
                Err(e) => e is NotFound ==> !self.contents().contains_key((owner_id@, id@)),
            },
    ;

    /// Read-modify-write: applies the entity model's completion-gated rule
    /// (`updated_model`) to the *currently persisted* record — never to a
    /// state claimed by the caller — and writes the result back.  `NotFound`
    /// is returned exactly when nothing is stored under the pair.
    fn update(&mut self, owner_id: &String, id: &String, fields: ValidatedToDo) -> (r: Result<
        PersistedItem,
        RepositoryError,
    >)
        requires
            old(self).inv(),
        ensures
            final(self).inv(),
            final(self).clock() == old(self).clock(),
            match r {
                Ok(item) => {
                    &&& old(self).contents().contains_key((owner_id@, id@))
                    &&& item@ == updated_model(
                        old(self).contents()[(owner_id@, id@)],
                        fields.title@,
                        fields.is_complete is COMPLETE,
                        old(self).clock(),
                    )
                    &&& final(self).contents() == old(self).contents().insert(
                        (owner_id@, id@),
                        item@,
                    )
                },
                Err(e) => {
                    &&& e is NotFound ==> !old(self).contents().contains_key((owner_id@, id@))
                    &&& final(self).contents() == old(self).contents()
                },
            },
    ;

    /// Returns all items of one owner; an owner with none gets an empty
    /// sequence, not an error.
    fn list(&self, owner_id: &String) -> (r: Result<Vec<PersistedItem>, RepositoryError>)
        requires
            self.inv(),
        ensures
            match r {
                Ok(v) => listing_of(self.contents(), owner_id@, models_of(v@)),
                Err(e) => e is Backend,
            },
    ;
}

/// Law: round trip.  `store` ensures the new abstract state is the old one
/// with the stored item inserted under its (owner, id) pair, and `fetch` on
/// that pair ensures the result is the model held there.  Any such fetched
/// model therefore agrees with the stored item on title, owner and
/// completion state.
pub proof fn lemma_store_fetch_round_trip(
    before: Map<(Seq<char>, Seq<char>), ItemModel>,
    stored: ItemModel,
    fetched: ItemModel,
)
    requires
        fetched == before.insert((stored.owner, stored.id), stored)[(stored.owner, stored.id)],
    ensures
        fetched.title == stored.title,
        fetched.owner == stored.owner,
        fetched.complete == stored.complete,
{
}

/// Law: a listing for an owner who has no stored items is empty.  (`list`
/// never reports `NotFound`; the in-memory adapter's listing cannot fail at
/// all, so an unknown owner yields an empty sequence, not an error.)
pub proof fn lemma_list_empty_when_owner_unknown(
    c: Map<(Seq<char>, Seq<char>), ItemModel>,
    owner: Seq<char>,
    ms: Seq<ItemModel>,
)
    requires
        listing_of(c, owner, ms),
        forall|k: (Seq<char>, Seq<char>)| #[trigger] c.contains_key(k) ==> k.0 != owner,
    ensures
        ms.len() == 0,
{
    if ms.len() > 0 {
        assert(c.contains_key((owner, ms[0].id)));
    }
}

} // verus!
