//! Validation layer: turns a raw command payload into a `ValidatedToDo` or a
//! single aggregated `ValidationError`.
//!
//! Every field is checked independently — a failing title does not stop the
//! owner id from being checked — and all violations are collected before
//! failing.  The aggregated message is the individual violation texts joined
//! by `" - "`, in the fixed order the fields are checked (title first, owner
//! id second).  This joined form is the documented aggregation format: the
//! first violation carries no leading delimiter.

use crate::entities::{
    owner_ok, owner_violation, title_ok, title_violation, IsComplete, OwnerId, Title,
    ValidatedToDo,
};
use crate::errors::ValidationError;
use vstd::prelude::*;
use vstd::string::*;

verus! {

/// Raw command payload as it arrives from the boundary; no invariant holds
/// yet.
pub struct UnvalidatedToDo {
    pub title: String,
    pub owner_id: String,
    pub is_complete: bool,
}

/// The delimiter between two violation texts in an aggregated message.
pub open spec fn violation_separator() -> Seq<char> {
    " - "@
}

/// The exact aggregated message `validate` reports for an input whose title
/// view is `t` and owner-id view is `o`.  Meaningful only when at least one
/// of the two is invalid.
pub open spec fn aggregated_message(t: Seq<char>, o: Seq<char>) -> Seq<char>
    recommends
        !title_ok(t) || !owner_ok(o),
{
    if !title_ok(t) && !owner_ok(o) {
        title_violation() + violation_separator() + owner_violation()
    } else if !title_ok(t) {
        title_violation()
    } else {
        owner_violation()
    }
}

/// `sub` occurs contiguously somewhere inside `s`.
pub open spec fn contains_text(s: Seq<char>, sub: Seq<char>) -> bool {
    exists|k: int, j: int|
        0 <= k <= j <= s.len() && j - k == sub.len() && #[trigger] s.subrange(k, j) == sub
}

/// Validator for one raw payload.  It holds the payload and nothing else:
/// validation is a pure function of the input.
pub struct ValidateToDo {
    to_validate: UnvalidatedToDo,
}

impl ValidateToDo {
    pub fn new(unvalidated_todo: UnvalidatedToDo) -> (r: Self)
        ensures
            r.title_view() == unvalidated_todo.title@,
            r.owner_view() == unvalidated_todo.owner_id@,
            r.complete_requested() == unvalidated_todo.is_complete,
    {
        ValidateToDo { to_validate: unvalidated_todo }
    }

    /// The view of the title under validation.
    pub closed spec fn title_view(&self) -> Seq<char> {
        self.to_validate.title@
    }

    /// The view of the owner id under validation.
    pub closed spec fn owner_view(&self) -> Seq<char> {
        self.to_validate.owner_id@
    }

    /// Whether the payload requests the item to be created complete.
    pub closed spec fn complete_requested(&self) -> bool {
        self.to_validate.is_complete
    }

    /// Checks every field, collecting all violations.  Succeeds exactly when
    /// the title has 1 to 50 characters and the owner id is non-empty; the
    /// completion state is taken directly from the payload's boolean flag.
    /// On failure the error message is `aggregated_message` of the two field
    /// views: each field's violation text, joined by `" - "`, title first.
    pub fn validate(self) -> (r: Result<ValidatedToDo, ValidationError>)
        ensures
            match r {
                Ok(v) => {
                    &&& title_ok(self.title_view()) && owner_ok(self.owner_view())
                    &&& v.title@ == self.title_view()
                    &&& v.owner_id@ == self.owner_view()
                    &&& v.is_complete is COMPLETE <==> self.complete_requested()
                },
                Err(e) => {
                    &&& !title_ok(self.title_view()) || !owner_ok(self.owner_view())
                    &&& e@ == aggregated_message(self.title_view(), self.owner_view())
                },
            },
    {
        let title = self.check_title();
        let owner_id = self.check_owner_id();
        match (title, owner_id) {
            (Ok(title), Ok(owner_id)) => Ok(
                ValidatedToDo {
                    title,
                    owner_id,
                    is_complete: if self.to_validate.is_complete {
                        IsComplete::COMPLETE
                    } else {
                        IsComplete::INCOMPLETE
                    },
                },
            ),
            (Err(e), Ok(_)) => Err(e),
            (Ok(_), Err(e)) => Err(e),
            (Err(e1), Err(e2)) => {
                let mut message = e1.message();
                message.append(" - ");
                let second = e2.message();
                message.append(second.as_str());
                Err(ValidationError::new(message))
            },
        }
    }

    fn check_title(&self) -> (r: Result<Title, ValidationError>)
        ensures
            match r {
                Ok(t) => title_ok(self.title_view()) && t@ == self.title_view(),
                Err(e) => !title_ok(self.title_view()) && e@ == title_violation(),
            },
    {
        Title::new(self.to_validate.title.clone())
    }

    fn check_owner_id(&self) -> (r: Result<OwnerId, ValidationError>)
        ensures
            match r {
                Ok(o) => owner_ok(self.owner_view()) && o@ == self.owner_view(),
                Err(e) => !owner_ok(self.owner_view()) && e@ == owner_violation(),
            },
    {
        OwnerId::new(self.to_validate.owner_id.clone())
    }
}

/// Law: the aggregated message reports every violation.  When the title is
/// invalid the message contains the title violation text; when the owner id
/// is invalid it contains the owner violation text; and when both are
/// invalid, the message is exactly the title text, then the separator, then
/// the owner text — title-then-owner order.
pub proof fn lemma_aggregated_message_reports_violations(t: Seq<char>, o: Seq<char>)
    ensures
        !title_ok(t) ==> contains_text(aggregated_message(t, o), title_violation()),
        !owner_ok(o) ==> contains_text(aggregated_message(t, o), owner_violation()),
        !title_ok(t) && !owner_ok(o) ==> aggregated_message(t, o) == title_violation()
            + violation_separator() + owner_violation(),
{
    let m = aggregated_message(t, o);
    let tv = title_violation();
    let ov = owner_violation();
    if !title_ok(t) && !owner_ok(o) {
        let sep = violation_separator();
        assert(m.subrange(0, tv.len() as int) =~= tv);
        let k = tv.len() + sep.len() as int;
        assert(m.subrange(k, k + ov.len()) =~= ov);
    } else if !title_ok(t) {
        assert(m.subrange(0, tv.len() as int) =~= tv);
    } else if !owner_ok(o) {
        assert(m.subrange(0, ov.len() as int) =~= ov);
    }
}

} // verus!
