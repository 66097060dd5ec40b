//! Collections of records that are found by an identifier: lookup, putting
//! a record in, and taking records out.

use crate::types::{Character, Persona};
use vstd::prelude::*;
use vstd::string::*;

verus! {

/// A record of a collection: it has an identifier and refers to an image.
pub trait Record: Sized {
    /// The identifier by which the record is found.
    spec fn key(&self) -> Seq<char>;

    /// The image that the record refers to.
    spec fn image(&self) -> Seq<char>;

    /// Whether the record has the identifier `id`.
    fn has_key(&self, id: &String) -> (r: bool)
        ensures
            r == (self.key() == id@),
    ;

    /// A copy of the reference to the record's image.
    fn image_path(&self) -> (r: String)
        ensures
            r@ == self.image(),
    ;

    /// Whether two records have the same identifier.
    fn same_key(&self, other: &Self) -> (r: bool)
        ensures
            r == (self.key() == other.key()),
    ;
}

impl Record for Character {
    open spec fn key(&self) -> Seq<char> {
        self@.id
    }

    open spec fn image(&self) -> Seq<char> {
        self@.img
    }

    fn has_key(&self, id: &String) -> (r: bool) {
        self.id == *id
    }

    fn image_path(&self) -> (r: String) {
        self.img.clone()
    }

    fn same_key(&self, other: &Self) -> (r: bool) {
        self.id == other.id
    }
}

impl Record for Persona {
    open spec fn key(&self) -> Seq<char> {
        self@.id
    }

    open spec fn image(&self) -> Seq<char> {
        self@.img
    }

    fn has_key(&self, id: &String) -> (r: bool) {
        self.id == *id
    }

    fn image_path(&self) -> (r: String) {
        self.img.clone()
    }

    fn same_key(&self, other: &Self) -> (r: bool) {
        self.id == other.id
    }
}

/// Whether some record of `items` has the identifier `id`.
pub open spec fn holds<T: Record>(items: Seq<T>, id: Seq<char>) -> bool {
    exists|i: int| 0 <= i < items.len() && #[trigger] items[i].key() == id
}

/// The position of the first record of `items` with the identifier `id`, or the
/// length of `items` if none has it.
pub open spec fn first_match<T: Record>(items: Seq<T>, id: Seq<char>) -> int
    decreases items.len(),
{
    if items.len() == 0 {
        0
    } else if items[0].key() == id {
        0
    } else {
        1 + first_match(items.drop_first(), id)
    }
}

/// The record that a lookup of `id` gives: the first one with that identifier.
pub open spec fn found<T: Record>(items: Seq<T>, id: Seq<char>) -> Option<T> {
    if holds(items, id) {
        Some(items[first_match(items, id)])
    } else {
        None
    }
}

/// `items` after `item` was put in: in place of the first record with its
/// identifier, or at the end if there is none.
pub open spec fn upserted<T: Record>(items: Seq<T>, item: T) -> Seq<T> {
    if holds(items, item.key()) {
        items.update(first_match(items, item.key()), item)
    } else {
        items.push(item)
    }
}

/// `items` without the records that have the identifier `id`.
pub open spec fn without<T: Record>(items: Seq<T>, id: Seq<char>) -> Seq<T> {
    items.filter(|x: T| x.key() != id)
}

/// The image of the last record of `items` with the identifier `id`.
pub open spec fn last_image<T: Record>(items: Seq<T>, id: Seq<char>) -> Option<Seq<char>>
    decreases items.len(),
{
    if items.len() == 0 {
        None
    } else if items.last().key() == id {
        Some(items.last().image())
    } else {
        last_image(items.drop_last(), id)
    }
}

/// `first_match` is the least position with the identifier, and the length
/// exactly when no record has it.
pub proof fn lemma_first_match<T: Record>(items: Seq<T>, id: Seq<char>)
    ensures
        0 <= first_match(items, id) <= items.len(),
        holds(items, id) <==> first_match(items, id) < items.len(),
        first_match(items, id) < items.len() ==> items[first_match(items, id)].key() == id,
        forall|j: int| 0 <= j < first_match(items, id) ==> (#[trigger] items[j]).key() != id,
    decreases items.len(),
{
    if items.len() == 0 {
    } else if items[0].key() == id {
    } else {
        let rest = items.drop_first();
        lemma_first_match(rest, id);
        let m = first_match(rest, id);
        assert forall|j: int| 0 <= j < m + 1 implies (#[trigger] items[j]).key() != id by {
            if j > 0 {
                assert(rest[j - 1] == items[j]);
            }
        }
        if m < rest.len() {
            assert(rest[m] == items[m + 1]);
        }
        if holds(items, id) {
            let i = choose|i: int| 0 <= i < items.len() && #[trigger] items[i].key() == id;
            assert(rest[i - 1] == items[i]);
            assert(rest[i - 1].key() == id);
        }
    }
}

/// A position that holds the identifier and has none before it is `first_match`.
pub proof fn lemma_first_match_is<T: Record>(items: Seq<T>, id: Seq<char>, i: int)
    requires
        0 <= i <= items.len(),
        i < items.len() ==> items[i].key() == id,
        forall|j: int| 0 <= j < i ==> (#[trigger] items[j]).key() != id,
    ensures
        first_match(items, id) == i,
{
    lemma_first_match(items, id);
    let m = first_match(items, id);
    if m < i {
        assert(items[m].key() != id);
    } else if i < m {
        assert(items[i].key() != id);
    }
}

/// What stays after a removal are the records with another identifier, each
/// of which was there before.
pub proof fn lemma_without_members<T: Record>(items: Seq<T>, id: Seq<char>)
    ensures
        forall|i: int|
            0 <= i < without(items, id).len() ==> (#[trigger] without(items, id)[i]).key() != id
                && items.contains(without(items, id)[i]),
        forall|i: int|
            0 <= i < items.len() && (#[trigger] items[i]).key() != id ==> without(items, id).contains(
                items[i],
            ),
    decreases items.len(),
{
    reveal(Seq::filter);
    if items.len() > 0 {
        let front = items.drop_last();
        let last = items.last();
        let kept = without(front, id);
        let after = without(items, id);
        lemma_without_members(front, id);
        if last.key() != id {
            assert(after == kept.push(last));
        } else {
            assert(after == kept);
        }
        assert forall|i: int| 0 <= i < after.len() implies (#[trigger] after[i]).key() != id
            && items.contains(after[i]) by {
            if i < kept.len() {
                assert(after[i] == kept[i]);
                assert(front.contains(kept[i]));
                let k = choose|k: int| 0 <= k < front.len() && front[k] == kept[i];
                assert(items[k] == kept[i]);
            } else {
                assert(items[items.len() - 1] == after[i]);
            }
        }
        assert forall|i: int| 0 <= i < items.len() && (#[trigger] items[i]).key() != id implies after.contains(
            items[i],
        ) by {
            if i < front.len() {
                assert(front[i] == items[i]);
                assert(kept.contains(front[i]));
                let k = choose|k: int| 0 <= k < kept.len() && kept[k] == front[i];
                assert(after[k] == items[i]);
            } else {
                assert(after[after.len() - 1] == items[i]);
            }
        }
    }
}

/// The text of an optional string.
pub open spec fn text_of(o: Option<String>) -> Option<Seq<char>> {
    match o {
        Some(s) => Some(s@),
        None => None,
    }
}

/// Finds the first record of `items` with the identifier `id`.
pub fn position<T: Record>(items: &Vec<T>, id: &String) -> (r: Option<usize>)
    ensures
        r is Some == holds(items@, id@),
        r matches Some(i) ==> i < items@.len() && i == first_match(items@, id@),
{
    let mut i: usize = 0;
    while i < items.len()
        invariant
            i <= items.len(),
            forall|j: int| 0 <= j < i ==> (#[trigger] items@[j]).key() != id@,
        decreases items.len() - i,
    {
        if items[i].has_key(id) {
            proof {
                lemma_first_match_is(items@, id@, i as int);
                lemma_first_match(items@, id@);
            }
            return Some(i);
        }
        i += 1;
    }
    proof {
        lemma_first_match_is(items@, id@, i as int);
        lemma_first_match(items@, id@);
    }
    None
}

/// Puts `item` into `items`: in place of the first record with its
/// identifier, or at the end if no record has it.
pub fn upsert<T: Record>(items: &mut Vec<T>, item: T)
    ensures
        final(items)@ == upserted(old(items)@, item),
{
    let mut i: usize = 0;
    while i < items.len()
        invariant
            i <= items.len(),
            items@ == old(items)@,
            forall|j: int| 0 <= j < i ==> (#[trigger] items@[j]).key() != item.key(),
        decreases items.len() - i,
    {
        if items[i].same_key(&item) {
            proof {
                lemma_first_match_is(items@, item.key(), i as int);
                lemma_first_match(items@, item.key());
            }
            items.set(i, item);
            return ;
        }
        i += 1;
    }
    proof {
        lemma_first_match_is(items@, item.key(), i as int);
        lemma_first_match(items@, item.key());
    }
    items.push(item);
}

/// Removes from `items` every record with the identifier `id`, and returns the
/// image of the last one removed.
pub fn remove_records<T: Record>(items: &mut Vec<T>, id: &String) -> (image: Option<String>)
    ensures
        final(items)@ == without(old(items)@, id@),
        text_of(image) == last_image(old(items)@, id@),
{
    let ghost before = items@;
    let ghost mut seen: int = 0;
    let mut image: Option<String> = None;
    let mut i: usize = 0;
    proof {
        reveal(Seq::filter);
        assert(before.take(0).filter(|x: T| x.key() != id@) == Seq::<T>::empty());
        assert(before.skip(0) == before);
    }
    while i < items.len()
        invariant
            0 <= seen <= before.len(),
            i <= items.len(),
            items@.take(i as int) == without(before.take(seen), id@),
            items@.skip(i as int) == before.skip(seen),
            text_of(image) == last_image(before.take(seen), id@),
        decreases items.len() - i,
    {
        proof {
            assert(items@.skip(i as int).len() == items@.len() - i);
            assert(before.skip(seen).len() == before.len() - seen);
            assert(items@[i as int] == items@.skip(i as int)[0]);
            assert(before[seen] == before.skip(seen)[0]);
            assert(before.take(seen + 1) == before.take(seen).push(before[seen]));
            assert(before.take(seen + 1).drop_last() == before.take(seen));
            before.take(seen).lemma_filter_push(before[seen], |x: T| x.key() != id@);
        }
        let ghost prev = items@;
        if items[i].has_key(id) {
            let gone = items.remove(i);
            image = Some(gone.image_path());
            proof {
                assert(items@.take(i as int) == prev.take(i as int));
                let rest = items@.skip(i as int);
                let wanted = before.skip(seen + 1);
                assert forall|k: int| 0 <= k < rest.len() implies rest[k] == wanted[k] by {
                    assert(prev.skip(i as int)[k + 1] == before.skip(seen)[k + 1]);
                }
                assert(rest == wanted);
            }
        } else {
            proof {
                assert(items@.take(i + 1) == items@.take(i as int).push(items@[i as int]));
                let rest = items@.skip(i + 1);
                let wanted = before.skip(seen + 1);
                assert forall|k: int| 0 <= k < rest.len() implies rest[k] == wanted[k] by {
                    assert(prev.skip(i as int)[k + 1] == before.skip(seen)[k + 1]);
                }
                assert(rest == wanted);
            }
            i += 1;
        }
        proof {
            seen = seen + 1;
        }
    }
    proof {
        assert(items@.skip(i as int).len() == 0);
        assert(before.take(seen) == before);
        assert(items@.take(i as int) == items@);
    }
    image
}

} // verus!
