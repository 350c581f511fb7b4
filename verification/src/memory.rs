//! In-memory repository adapter: the primary test double for the repository
//! contract, and a proof that the contract is implementable.
//!
//! Items are held in a vector whose (owner, id) keys are pairwise distinct;
//! the abstract contents map is derived from that vector.  Identifiers are
//! assigned from a counter, rendered in decimal; a collision with an existing
//! identifier is refused as a write conflict (`Backend`), so the adapter
//! never has to trust the counter for uniqueness.

use crate::entities::{apply_update, IsComplete, ItemModel, PersistedItem, ToDoId, ValidatedToDo};
use crate::errors::RepositoryError;
use crate::repository::{listing_of, models_of, Repository};
use vstd::prelude::*;
use vstd::string::*;

verus! {

/// The (owner, id) key under which an item model is stored.
pub open spec fn key_of(m: ItemModel) -> (Seq<char>, Seq<char>) {
    (m.owner, m.id)
}

/// No two models in the sequence share an (owner, id) key.
pub open spec fn unique_keys(s: Seq<ItemModel>) -> bool {
    forall|i: int, j: int|
        0 <= i < j < s.len() ==> key_of(#[trigger] s[i]) != key_of(#[trigger] s[j])
}

/// The contents map derived from a sequence of stored models.
pub open spec fn map_of_items(s: Seq<ItemModel>) -> Map<(Seq<char>, Seq<char>), ItemModel>
    decreases s.len(),
{
    if s.len() == 0 {
        Map::empty()
    } else {
        map_of_items(s.drop_last()).insert(key_of(s.last()), s.last())
    }
}

/// A key is in the derived map exactly when some element of the sequence
/// carries it.
pub proof fn lemma_map_of_items_contains(s: Seq<ItemModel>, k: (Seq<char>, Seq<char>))
    ensures
        map_of_items(s).contains_key(k) <==> exists|i: int|
            0 <= i < s.len() && key_of(#[trigger] s[i]) == k,
    decreases s.len(),
{
    if s.len() > 0 {
        lemma_map_of_items_contains(s.drop_last(), k);
        if key_of(s.last()) == k {
            assert(key_of(s[s.len() - 1]) == k);
        } else if map_of_items(s).contains_key(k) {
            let i = choose|i: int| 0 <= i < s.drop_last().len() && key_of(#[trigger] s.drop_last()[i]) == k;
            assert(key_of(s[i]) == k);
        } else if exists|i: int| 0 <= i < s.len() && key_of(#[trigger] s[i]) == k {
            let i = choose|i: int| 0 <= i < s.len() && key_of(#[trigger] s[i]) == k;
            assert(i < s.len() - 1);
            assert(key_of(s.drop_last()[i]) == k);
        }
    }
}

/// With pairwise-distinct keys, the derived map holds each element under its
/// own key.
pub proof fn lemma_map_of_items_index(s: Seq<ItemModel>, i: int)
    requires
        unique_keys(s),
        0 <= i < s.len(),
    ensures
        map_of_items(s).contains_key(key_of(s[i])),
        map_of_items(s)[key_of(s[i])] == s[i],
    decreases s.len(),
{
    if i < s.len() - 1 {
        assert(unique_keys(s.drop_last())) by {
            assert(forall|a: int, b: int|
                0 <= a < b < s.drop_last().len() ==> key_of(#[trigger] s.drop_last()[a]) != key_of(
                    #[trigger] s.drop_last()[b],
                ));
        }
        lemma_map_of_items_index(s.drop_last(), i);
        assert(s.drop_last()[i] == s[i]);
        assert(key_of(s[i]) != key_of(s.last()));
    }
}

/// Replacing the element at `i` by one with the same key turns the derived
/// map into the old map with that key re-bound.
pub proof fn lemma_map_of_items_update(s: Seq<ItemModel>, i: int, x: ItemModel)
    requires
        unique_keys(s),
        0 <= i < s.len(),
        key_of(x) == key_of(s[i]),
    ensures
        map_of_items(s.update(i, x)) == map_of_items(s).insert(key_of(x), x),
    decreases s.len(),
{
    let t = s.update(i, x);
    if i == s.len() - 1 {
        assert(t.drop_last() =~= s.drop_last());
        assert(t.last() == x);
        assert(map_of_items(s).insert(key_of(x), x) =~= map_of_items(s.drop_last()).insert(
            key_of(x),
            x,
        ));
    } else {
        assert(t.drop_last() =~= s.drop_last().update(i, x));
        assert(t.last() == s.last());
        assert(unique_keys(s.drop_last())) by {
            assert(forall|a: int, b: int|
                0 <= a < b < s.drop_last().len() ==> key_of(#[trigger] s.drop_last()[a]) != key_of(
                    #[trigger] s.drop_last()[b],
                ));
        }
        assert(s.drop_last()[i] == s[i]);
        lemma_map_of_items_update(s.drop_last(), i, x);
        assert(key_of(x) != key_of(s.last()));
        assert(map_of_items(s.drop_last()).insert(key_of(x), x).insert(key_of(s.last()), s.last())
            =~= map_of_items(s.drop_last()).insert(key_of(s.last()), s.last()).insert(
            key_of(x),
            x,
        ));
    }
}

/// The character of one decimal digit.
pub open spec fn digit_char(d: nat) -> char {
    if d == 0 {
        '0'
    } else if d == 1 {
        '1'
    } else if d == 2 {
        '2'
    } else if d == 3 {
        '3'
    } else if d == 4 {
        '4'
    } else if d == 5 {
        '5'
    } else if d == 6 {
        '6'
    } else if d == 7 {
        '7'
    } else if d == 8 {
        '8'
    } else {
        '9'
    }
}

/// The decimal rendering of a natural number, most significant digit first.
pub open spec fn decimal_digits(n: nat) -> Seq<char>
    decreases n,
{
    if n < 10 {
        seq![digit_char(n)]
    } else {
        decimal_digits(n / 10).push(digit_char(n % 10))
    }
}

fn digit_text(d: u64) -> (r: &'static str)
    requires
        d < 10,
    ensures
        r@ == seq![digit_char(d as nat)],
{
    proof {
        reveal_strlit("0");
        reveal_strlit("1");
        reveal_strlit("2");
        reveal_strlit("3");
        reveal_strlit("4");
        reveal_strlit("5");
        reveal_strlit("6");
        reveal_strlit("7");
        reveal_strlit("8");
        reveal_strlit("9");
    }
    let r = match d {
        0 => "0",
        1 => "1",
        2 => "2",
        3 => "3",
        4 => "4",
        5 => "5",
        6 => "6",
        7 => "7",
        8 => "8",
        _ => "9",
    };
    proof {
        assert(r@ =~= seq![digit_char(d as nat)]);
    }
    r
}

/// Renders a counter value in decimal; the result is never empty.
fn decimal_string(n: u64) -> (r: String)
    ensures
        r@ == decimal_digits(n as nat),
        r@.len() >= 1,
    decreases n,
{
    if n < 10 {
        String::from_str(digit_text(n))
    } else {
        let mut s = decimal_string(n / 10);
        s.append(digit_text(n % 10));
        proof {
            assert(s@ =~= decimal_digits(n as nat));
        }
        s
    }
}

/// Storage adapter holding everything in process memory.
pub struct InMemoryRepository {
    items: Vec<PersistedItem>,
    next_id: u64,
    now: String,
}

impl InMemoryRepository {
    /// An empty repository.  `clock_label` is the timestamp this adapter
    /// records whenever an item becomes complete.
    pub fn new(clock_label: String) -> (r: Self)
        ensures
            r.inv(),
            r.contents() == Map::<(Seq<char>, Seq<char>), ItemModel>::empty(),
            r.clock() == clock_label@,
    {
        let r = InMemoryRepository { items: Vec::new(), next_id: 1, now: clock_label };
        proof {
            assert(models_of(r.items@) =~= Seq::<ItemModel>::empty());
        }
        r
    }

    /// The position of the item stored under `(owner_id, id)`, if any.
    fn find_index(&self, owner_id: &String, id: &String) -> (r: Option<usize>)
        ensures
            match r {
                Some(i) => i < self.items@.len() && key_of(models_of(self.items@)[i as int]) == (
                    owner_id@,
                    id@,
                ),
                None => forall|j: int|
                    0 <= j < self.items@.len() ==> key_of(#[trigger] models_of(self.items@)[j])
                        != (owner_id@, id@),
            },
    {
        let mut j: usize = 0;
        while j < self.items.len()
            invariant
                j <= self.items@.len(),
                forall|jj: int|
                    0 <= jj < j ==> key_of(#[trigger] models_of(self.items@)[jj]) != (
                        owner_id@,
                        id@,
                    ),
            decreases self.items@.len() - j,
        {
            let it = &self.items[j];
            let owner_text = it.owner_id.get_value();
            let id_text = it.id.get_value();
            if owner_text == *owner_id && id_text == *id {
                return Some(j);
            }
            j = j + 1;
        }
        None
    }

    /// The item stored under `(owner_id, id)`: `Some` exactly when one is
    /// stored, and then the stored record itself.  Unlike the trait-level
    /// `fetch`, this adapter's lookup cannot fail for any other reason.
    pub fn fetch_stored(&self, owner_id: &String, id: &String) -> (r: Option<PersistedItem>)
        requires
            self.inv(),
        ensures
            match r {
                Some(item) => self.contents().contains_key((owner_id@, id@)) && item@
                    == self.contents()[(owner_id@, id@)],
                None => !self.contents().contains_key((owner_id@, id@)),
            },
    {
        match self.find_index(owner_id, id) {
            Some(i) => {
                let item = self.items[i].clone();
                proof {
                    lemma_map_of_items_index(models_of(self.items@), i as int);
                }
                Some(item)
            },
            None => {
                proof {
                    lemma_map_of_items_contains(models_of(self.items@), (owner_id@, id@));
                }
                None
            },
        }
    }

    /// All items of one owner, in storage order.  A listing never fails:
    /// an owner with no items gets an empty vector.
    pub fn items_of_owner(&self, owner_id: &String) -> (r: Vec<PersistedItem>)
        requires
            self.inv(),
        ensures
            listing_of(self.contents(), owner_id@, models_of(r@)),
    {
        let ghost ms = models_of(self.items@);
        let mut result: Vec<PersistedItem> = Vec::new();
        let ghost mut picked: Seq<int> = Seq::empty();
        let mut j: usize = 0;
        while j < self.items.len()
            invariant
                self.inv(),
                ms == models_of(self.items@),
                j <= self.items@.len(),
                picked.len() == result@.len(),
                forall|a: int| 0 <= a < picked.len() ==> 0 <= #[trigger] picked[a] < j,
                forall|a: int|
                    0 <= a < picked.len() ==> result@[a] == self.items@[#[trigger] picked[a]],
                forall|a: int|
                    0 <= a < picked.len() ==> ms[#[trigger] picked[a]].owner == owner_id@,
                forall|a: int, b: int|
                    0 <= a < b < picked.len() ==> picked[a] < picked[b],
                forall|jj: int|
                    0 <= jj < j && ms[jj].owner == owner_id@ ==> exists|a: int|
                        0 <= a < picked.len() && #[trigger] picked[a] == jj,
            decreases self.items@.len() - j,
        {
            let it = &self.items[j];
            let owner_text = it.owner_id.get_value();
            if owner_text == *owner_id {
                result.push(it.clone());
                proof {
                    let old_picked = picked;
                    picked = picked.push(j as int);
                    assert forall|jj: int| 0 <= jj < j + 1 && ms[jj].owner == owner_id@ implies
                        exists|a: int| 0 <= a < picked.len() && #[trigger] picked[a] == jj by {
                        if jj == j {
                            assert(picked[picked.len() - 1] == jj);
                        } else {
                            let a = choose|a: int|
                                0 <= a < old_picked.len() && #[trigger] old_picked[a] == jj;
                            assert(picked[a] == jj);
                        }
                    }
                }
            } else {
                proof {
                    assert(ms[j as int] == self.items@[j as int]@);
                    assert(ms[j as int].owner != owner_id@);
                }
            }
            j = j + 1;
        }
        proof {
            let out = models_of(result@);
            assert forall|i: int| 0 <= i < out.len() implies (#[trigger] out[i]).owner == owner_id@
                && self.contents().contains_key((owner_id@, out[i].id)) && self.contents()[
                (owner_id@, out[i].id)] == out[i] by {
                assert(out[i] == ms[picked[i]]);
                lemma_map_of_items_index(ms, picked[i]);
                assert(key_of(ms[picked[i]]) == (owner_id@, out[i].id));
            }
            assert forall|a: int, b: int| 0 <= a < b < out.len() implies out[a].id != out[b].id by {
                assert(out[a] == ms[picked[a]]);
                assert(out[b] == ms[picked[b]]);
                assert(picked[a] < picked[b]);
                assert(key_of(ms[picked[a]]) != key_of(ms[picked[b]]));
            }
            assert forall|k: (Seq<char>, Seq<char>)|
                #[trigger] self.contents().contains_key(k) && k.0 == owner_id@ implies exists|i: int|
                0 <= i < out.len() && (#[trigger] out[i]).id == k.1 by {
                lemma_map_of_items_contains(ms, k);
                let jj = choose|jj: int| 0 <= jj < ms.len() && key_of(#[trigger] ms[jj]) == k;
                assert(ms[jj].owner == owner_id@);
                let a = choose|a: int| 0 <= a < picked.len() && #[trigger] picked[a] == jj;
                assert(out[a] == ms[jj]);
                assert(out[a].id == k.1);
            }
        }
        result
    }
}

impl Repository for InMemoryRepository {
    closed spec fn inv(&self) -> bool {
        unique_keys(models_of(self.items@))
    }

    closed spec fn contents(&self) -> Map<(Seq<char>, Seq<char>), ItemModel> {
        map_of_items(models_of(self.items@))
    }

    closed spec fn clock(&self) -> Seq<char> {
        self.now@
    }

    fn store(&mut self, entity: ValidatedToDo) -> (r: Result<PersistedItem, RepositoryError>) {
        let id_text = decimal_string(self.next_id);
        let owner_text = entity.owner_id.get_value();
        if self.find_index(&owner_text, &id_text).is_some() {
            // The fresh identifier is already taken: refuse as a write
            // conflict rather than overwrite.
            return Err(RepositoryError::Backend);
        }
        if self.next_id < u64::MAX {
            self.next_id = self.next_id + 1;
        }
        let id = match ToDoId::new(id_text) {
            Ok(id) => id,
            Err(_) => {
                return Err(RepositoryError::Backend);
            },
        };
        let completed_on = if entity.is_complete == IsComplete::COMPLETE {
            self.now.clone()
        } else {
            String::new()
        };
        let item = PersistedItem {
            id,
            title: entity.title,
            owner_id: entity.owner_id,
            is_complete: entity.is_complete,
            completed_on,
        };
        let result = item.clone();
        let ghost old_models = models_of(self.items@);
        self.items.push(item);
        proof {
            lemma_map_of_items_contains(old_models, key_of(result@));
            assert(models_of(self.items@) =~= old_models.push(result@));
            assert(models_of(self.items@).drop_last() =~= old_models);
            assert(unique_keys(models_of(self.items@)));
        }
        Ok(result)
    }

    fn fetch(&self, owner_id: &String, id: &String) -> (r: Result<
        PersistedItem,
        RepositoryError,
    >) {
        match self.fetch_stored(owner_id, id) {
            Some(item) => Ok(item),
            None => Err(RepositoryError::NotFound),
        }
    }

    fn update(&mut self, owner_id: &String, id: &String, fields: ValidatedToDo) -> (r: Result<
        PersistedItem,
        RepositoryError,
    >) {
        match self.find_index(owner_id, id) {
            None => {
                proof {
                    lemma_map_of_items_contains(models_of(self.items@), (owner_id@, id@));
                }
                Err(RepositoryError::NotFound)
            },
            Some(i) => {
                let ghost old_models = models_of(self.items@);
                let updated = apply_update(&self.items[i], &fields, &self.now);
                let result = updated.clone();
                proof {
                    lemma_map_of_items_index(old_models, i as int);
                    lemma_map_of_items_update(old_models, i as int, updated@);
                }
                self.items[i] = updated;
                proof {
                    assert(models_of(self.items@) =~= old_models.update(i as int, result@));
                    assert forall|a: int, b: int|
                        0 <= a < b < models_of(self.items@).len() implies key_of(
                        #[trigger] models_of(self.items@)[a]) != key_of(
                        #[trigger] models_of(self.items@)[b]) by {
                        assert(key_of(models_of(self.items@)[a]) == key_of(old_models[a]));
                        assert(key_of(models_of(self.items@)[b]) == key_of(old_models[b]));
                    }
                }
                Ok(result)
            },
        }
    }

    fn list(&self, owner_id: &String) -> (r: Result<Vec<PersistedItem>, RepositoryError>) {
        Ok(self.items_of_owner(owner_id))
    }
}

} // verus!
