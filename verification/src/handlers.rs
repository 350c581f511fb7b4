//! Command and query handlers: the entry points of the domain core.
//!
//! Commands (`create_to_do`, `update_todo`) run validation first and only
//! then touch the repository; queries (`get_todos`, `list_todos`) pass
//! straight through.  Every failure from validation or the repository is
//! returned unchanged, and a failed command leaves the repository contents
//! untouched.

use crate::entities::{owner_ok, title_ok, updated_model, PersistedItem};
use crate::errors::{DomainError, RepositoryError};
use crate::repository::{listing_of, models_of, Repository};
use crate::validation::{aggregated_message, UnvalidatedToDo, ValidateToDo};
use vstd::prelude::*;

verus! {

/// Both fields of a raw payload satisfy their invariants.
pub open spec fn input_valid(title: Seq<char>, owner: Seq<char>) -> bool {
    title_ok(title) && owner_ok(owner)
}

/// Create command: validate the payload, then store it under a fresh
/// identifier.  On invalid input the repository is never touched and the
/// aggregated validation message is returned; on success the stored item
/// carries exactly the given fields.
pub fn create_to_do<R: Repository>(
    owner_id: String,
    title: String,
    is_complete: bool,
    repo: &mut R,
) -> (r: Result<PersistedItem, DomainError>)
    requires
        old(repo).inv(),
    ensures
        final(repo).inv(),
        !input_valid(title@, owner_id@) ==> final(repo).contents() == old(repo).contents()
            && (r matches Err(DomainError::Validation(e)) && e@ == aggregated_message(
            title@,
            owner_id@,
        )),
        input_valid(title@, owner_id@) ==> match r {
            Ok(item) => {
                &&& item@.id.len() > 0
                &&& item@.title == title@
                &&& item@.owner == owner_id@
                &&& item@.complete == is_complete
                &&& item@.completed_on == if is_complete {
                    old(repo).clock()
                } else {
                    Seq::<char>::empty()
                }
                &&& !old(repo).contents().contains_key((owner_id@, item@.id))
                &&& final(repo).contents() == old(repo).contents().insert(
                    (owner_id@, item@.id),
                    item@,
                )
            },
            Err(e) => e matches DomainError::Repository(re) && re is Backend
                && final(repo).contents() == old(repo).contents(),
        },
{
    let validator = ValidateToDo::new(UnvalidatedToDo { title, owner_id, is_complete });
    match validator.validate() {
        Err(e) => Err(DomainError::Validation(e)),
        Ok(valid) => match repo.store(valid) {
            Ok(item) => Ok(item),
            Err(e) => Err(DomainError::Repository(e)),
        },
    }
}

/// Update command: validate the payload exactly as for create, then let the
/// repository apply the completion-gated rule against the currently
/// persisted record.  On invalid input the repository is never touched.
pub fn update_todo<R: Repository>(
    owner_id: String,
    to_do_id: String,
    title: String,
    set_as_complete: bool,
    repo: &mut R,
) -> (r: Result<PersistedItem, DomainError>)
    requires
        old(repo).inv(),
    ensures
        final(repo).inv(),
        !input_valid(title@, owner_id@) ==> final(repo).contents() == old(repo).contents()
            && (r matches Err(DomainError::Validation(e)) && e@ == aggregated_message(
            title@,
            owner_id@,
        )),
        input_valid(title@, owner_id@) ==> match r {
            Ok(item) => {
                &&& old(repo).contents().contains_key((owner_id@, to_do_id@))
                &&& item@ == updated_model(
                    old(repo).contents()[(owner_id@, to_do_id@)],
                    title@,
                    set_as_complete,
                    old(repo).clock(),
                )
                &&& final(repo).contents() == old(repo).contents().insert(
                    (owner_id@, to_do_id@),
                    item@,
                )
            },
            Err(e) => {
                &&& (e matches DomainError::Repository(re) && (re is NotFound
                    ==> !old(repo).contents().contains_key((owner_id@, to_do_id@))))
                &&& final(repo).contents() == old(repo).contents()
            },
        },
{
    let owner_key = owner_id.clone();
    let validator = ValidateToDo::new(
        UnvalidatedToDo { title, owner_id, is_complete: set_as_complete },
    );
    match validator.validate() {
        Err(e) => Err(DomainError::Validation(e)),
        Ok(valid) => match repo.update(&owner_key, &to_do_id, valid) {
            Ok(item) => Ok(item),
            Err(e) => Err(DomainError::Repository(e)),
        },
    }
}

/// Query: the item stored under `(owner_id, id)`; `NotFound` exactly when
/// there is none.
pub fn get_todos<R: Repository>(owner_id: &String, id: &String, repo: &R) -> (r: Result<
    PersistedItem,
    DomainError,
>)
    requires
        repo.inv(),
    ensures
        match r {
            Ok(item) => repo.contents().contains_key((owner_id@, id@)) && item@
                == repo.contents()[(owner_id@, id@)],
            Err(e) => e matches DomainError::Repository(re) && (re is NotFound
                ==> !repo.contents().contains_key((owner_id@, id@))),
        },
{
    match repo.fetch(owner_id, id) {
        Ok(item) => Ok(item),
        Err(e) => Err(DomainError::Repository(e)),
    }
}

/// Query: all items of one owner; an owner with none gets an empty vector,
/// not an error.
pub fn list_todos<R: Repository>(owner_id: &String, repo: &R) -> (r: Result<
    Vec<PersistedItem>,
    DomainError,
>)
    requires
        repo.inv(),
    ensures
        match r {
            Ok(v) => listing_of(repo.contents(), owner_id@, models_of(v@)),
            Err(e) => e matches DomainError::Repository(re) && re is Backend,
        },
{
    match repo.list(owner_id) {
        Ok(v) => Ok(v),
        Err(e) => Err(DomainError::Repository(e)),
    }
}

} // verus!
