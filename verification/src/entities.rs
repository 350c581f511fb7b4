//! Value objects of the to-do domain and the entity-level mutation rule.
//!
//! Each field of a to-do item is its own separately-constructible value type
//! (`ToDoId`, `Title`, `OwnerId`) that exposes only a validated constructor
//! and a read accessor.  A value of one of these types therefore never holds
//! an invalid string: illegal states are unrepresentable once past
//! construction, which is recorded as a type invariant on each type.

use crate::errors::ValidationError;
use vstd::prelude::*;
use vstd::string::*;

verus! {

/// A title is valid when it has between 1 and 50 characters inclusive.
pub open spec fn title_ok(t: Seq<char>) -> bool {
    1 <= t.len() <= 50
}

/// An owner id is valid when it is non-empty; there is no length ceiling.
pub open spec fn owner_ok(o: Seq<char>) -> bool {
    o.len() > 0
}

/// An item identifier is valid when it is non-empty.
pub open spec fn id_ok(s: Seq<char>) -> bool {
    s.len() > 0
}

/// Violation text reported for an out-of-range title.
pub open spec fn title_violation() -> Seq<char> {
    "Must be between 0 and 50 chars"@
}

/// Violation text reported for an empty owner id.
pub open spec fn owner_violation() -> Seq<char> {
    "Must be greater than 0"@
}

/// Violation text reported for an empty item identifier.
pub open spec fn to_do_id_violation() -> Seq<char> {
    "To Id must be greater than 0"@
}

/// Identifier of a to-do item, unique within the partition of one owner.
/// Always non-empty.
pub struct ToDoId {
    value: String,
}

impl View for ToDoId {
    type V = Seq<char>;

    closed spec fn view(&self) -> Seq<char> {
        self.value@
    }
}

impl ToDoId {
    #[verifier::type_invariant]
    pub open spec fn valid(&self) -> bool {
        id_ok(self@)
    }

    pub fn new(value: String) -> (r: Result<Self, ValidationError>)
        ensures
            match r {
                Ok(id) => id_ok(value@) && id@ == value@,
                Err(e) => !id_ok(value@) && e@ == to_do_id_violation(),
            },
    {
        if value.as_str().unicode_len() > 0 {
            Ok(ToDoId { value })
        } else {
            Err(ValidationError::new(String::from_str("To Id must be greater than 0")))
        }
    }

    pub fn get_value(&self) -> (r: String)
        ensures
            r@ == self@,
    {
        self.value.clone()
    }
}

impl Clone for ToDoId {
    fn clone(&self) -> (r: Self)
        ensures
            r == *self,
    {
        proof {
            use_type_invariant(self);
        }
        ToDoId { value: self.value.clone() }
    }
}

/// Title of a to-do item.  Always between 1 and 50 characters.
pub struct Title {
    value: String,
}

impl View for Title {
    type V = Seq<char>;

    closed spec fn view(&self) -> Seq<char> {
        self.value@
    }
}

impl Title {
    #[verifier::type_invariant]
    pub open spec fn valid(&self) -> bool {
        title_ok(self@)
    }

    pub fn new(value: String) -> (r: Result<Self, ValidationError>)
        ensures
            match r {
                Ok(t) => title_ok(value@) && t@ == value@,
                Err(e) => !title_ok(value@) && e@ == title_violation(),
            },
    {
        let len = value.as_str().unicode_len();
        if 0 < len && len <= 50 {
            Ok(Title { value })
        } else {
            Err(ValidationError::new(String::from_str("Must be between 0 and 50 chars")))
        }
    }

    pub fn get_value(&self) -> (r: String)
        ensures
            r@ == self@,
    {
        self.value.clone()
    }
}

impl Clone for Title {
    fn clone(&self) -> (r: Self)
        ensures
            r == *self,
    {
        proof {
            use_type_invariant(self);
        }
        Title { value: self.value.clone() }
    }
}

/// Owner of a to-do item; used as the partition key of the store.
/// Always non-empty.
pub struct OwnerId {
    value: String,
}

impl View for OwnerId {
    type V = Seq<char>;

    closed spec fn view(&self) -> Seq<char> {
        self.value@
    }
}

impl OwnerId {
    #[verifier::type_invariant]
    pub open spec fn valid(&self) -> bool {
        owner_ok(self@)
    }

    pub fn new(value: String) -> (r: Result<Self, ValidationError>)
        ensures
            match r {
                Ok(o) => owner_ok(value@) && o@ == value@,
                Err(e) => !owner_ok(value@) && e@ == owner_violation(),
            },
    {
        if value.as_str().unicode_len() > 0 {
            Ok(OwnerId { value })
        } else {
            Err(ValidationError::new(String::from_str("Must be greater than 0")))
        }
    }

    pub fn get_value(&self) -> (r: String)
        ensures
            r@ == self@,
    {
        self.value.clone()
    }
}

impl Clone for OwnerId {
    fn clone(&self) -> (r: Self)
        ensures
            r == *self,
    {
        proof {
            use_type_invariant(self);
        }
        OwnerId { value: self.value.clone() }
    }
}

/// Completion state of a to-do item.  There is no terminal state: an item may
/// be toggled complete and incomplete indefinitely.
#[allow(non_camel_case_types)]
#[derive(Debug, Clone, Copy, PartialEq, Eq, Structural)]
pub enum IsComplete {
    INCOMPLETE,
    COMPLETE,
}

impl IsComplete {
    /// Text rendering of the state, matching the variant name.
    pub fn to_text(&self) -> (r: String)
        ensures
            *self is INCOMPLETE ==> r@ == "INCOMPLETE"@,
            *self is COMPLETE ==> r@ == "COMPLETE"@,
    {
        match self {
            IsComplete::INCOMPLETE => String::from_str("INCOMPLETE"),
            IsComplete::COMPLETE => String::from_str("COMPLETE"),
        }
    }
}

/// An entity whose every field satisfies its invariant.  Construction goes
/// through the validation layer (or through the field types' own validated
/// constructors, which enforce the same invariants).
pub struct ValidatedToDo {
    pub title: Title,
    pub owner_id: OwnerId,
    pub is_complete: IsComplete,
}

impl Clone for ValidatedToDo {
    fn clone(&self) -> (r: Self)
        ensures
            r == *self,
    {
        ValidatedToDo {
            title: self.title.clone(),
            owner_id: self.owner_id.clone(),
            is_complete: self.is_complete,
        }
    }
}

/// Mathematical model of a persisted to-do item: the plain values of all of
/// its fields.  Repository contracts are stated over these models.
#[verifier::ext_equal]
pub struct ItemModel {
    pub id: Seq<char>,
    pub title: Seq<char>,
    pub owner: Seq<char>,
    pub complete: bool,
    pub completed_on: Seq<char>,
}

/// A validated entity together with the identifier assigned by storage and,
/// while the item is complete, the timestamp of its completion.
pub struct PersistedItem {
    pub id: ToDoId,
    pub title: Title,
    pub owner_id: OwnerId,
    pub is_complete: IsComplete,
    pub completed_on: String,
}

impl View for PersistedItem {
    type V = ItemModel;

    open spec fn view(&self) -> ItemModel {
        ItemModel {
            id: self.id@,
            title: self.title@,
            owner: self.owner_id@,
            complete: self.is_complete is COMPLETE,
            completed_on: self.completed_on@,
        }
    }
}

impl Clone for PersistedItem {
    fn clone(&self) -> (r: Self)
        ensures
            r == *self,
    {
        PersistedItem {
            id: self.id.clone(),
            title: self.title.clone(),
            owner_id: self.owner_id.clone(),
            is_complete: self.is_complete,
            completed_on: self.completed_on.clone(),
        }
    }
}

/// The entity-model rule for an update command: the request conveys a
/// desired title and completion flag, but whether the title is applied is
/// gated by the *currently persisted* completion state.
/// If the current state is complete and the request does not revert the item
/// to incomplete, the stored title is retained and only the completion flag
/// (and timestamp) may change.  In every other case both fields are applied
/// as given.  Identifier and owner never change.
///
/// `stamp` is the timestamp recorded when an incomplete item becomes
/// complete; an item that stays complete keeps its original timestamp, and an
/// item that becomes incomplete has no timestamp.
pub open spec fn updated_model(
    cur: ItemModel,
    req_title: Seq<char>,
    req_complete: bool,
    stamp: Seq<char>,
) -> ItemModel {
    ItemModel {
        id: cur.id,
        owner: cur.owner,
        title: if cur.complete && req_complete {
            cur.title
        } else {
            req_title
        },
        complete: req_complete,
        completed_on: if !req_complete {
            Seq::<char>::empty()
        } else if cur.complete {
            cur.completed_on
        } else {
            stamp
        },
    }
}

/// Applies the update rule to a persisted item, producing the item to be
/// written back.  This is the read-modify-write core that every repository
/// adapter must use with the currently persisted state.
pub fn apply_update(current: &PersistedItem, fields: &ValidatedToDo, stamp: &String) -> (r:
    PersistedItem)
    ensures
        r@ == updated_model(current@, fields.title@, fields.is_complete is COMPLETE, stamp@),
{
    let req_complete = fields.is_complete == IsComplete::COMPLETE;
    let keep_title = current.is_complete == IsComplete::COMPLETE && req_complete;
    let title = if keep_title {
        current.title.clone()
    } else {
        fields.title.clone()
    };
    let completed_on = if !req_complete {
        String::new()
    } else if current.is_complete == IsComplete::COMPLETE {
        current.completed_on.clone()
    } else {
        stamp.clone()
    };
    PersistedItem {
        id: current.id.clone(),
        title,
        owner_id: current.owner_id.clone(),
        is_complete: fields.is_complete,
        completed_on,
    }
}

/// Law: the title of a complete item is never mutated, no matter how often an
/// update that keeps the item complete is repeated.  Applying the same update
/// twice to an already-complete item yields the same persisted record both
/// times, and its title is the original one.
pub proof fn lemma_completed_title_never_changes(
    cur: ItemModel,
    req_title: Seq<char>,
    stamp1: Seq<char>,
    stamp2: Seq<char>,
)
    requires
        cur.complete,
    ensures
        updated_model(cur, req_title, true, stamp1).title == cur.title,
        updated_model(updated_model(cur, req_title, true, stamp1), req_title, true, stamp2)
            == updated_model(cur, req_title, true, stamp1),
{
}

} // verus!
