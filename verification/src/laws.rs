//! What holds of the entity store as a whole, stated over the same spec
//! functions as the contracts of its operations.

use crate::failure::Failure;
use crate::history::{conversation_key, is_record_of, records_of_character};
use crate::records::{
    first_match, found, holds, last_image, lemma_first_match, lemma_first_match_is,
    lemma_without_members, text_of, upserted, without, Record,
};
use crate::store::{image_to_remove, lookup_of, removal_of, update_of, FileContent, Removal};
use crate::types::Character;
use vstd::prelude::*;

verus! {

/// Whether no two records of `items` have the same identifier.
pub open spec fn distinct_keys<T: Record>(items: Seq<T>) -> bool {
    forall|i: int, j: int|
        0 <= i < j < items.len() ==> (#[trigger] items[i]).key() != (#[trigger] items[j]).key()
}

/// A record that was put into a collection is the one that a lookup of its
/// identifier gives.
pub proof fn lemma_upsert_then_get<T: Record>(items: Seq<T>, item: T)
    ensures
        found(upserted(items, item), item.key()) == Some(item),
{
    let id = item.key();
    let after = upserted(items, item);
    lemma_first_match(items, id);
    let at = first_match(items, id);
    assert(after[at] == item);
    assert(after[at].key() == id);
    assert forall|j: int| 0 <= j < at implies (#[trigger] after[j]).key() != id by {
        assert(after[j] == items[j]);
    }
    lemma_first_match_is(after, id, at);
}

/// The round trip of a record through the store: where putting a record
/// into a collection that was read gave `put`, a lookup of the record's
/// identifier in the collection that was then persisted gives the record.
pub proof fn lemma_update_then_load<T: Record>(
    items: Vec<T>,
    item: T,
    put: Result<Vec<T>, Failure>,
    before: Seq<char>,
    after: Seq<char>,
    got: Result<T, Failure>,
)
    requires
        update_of(FileContent::Parsed(items), item, put),
        put is Ok ==> lookup_of(FileContent::Parsed(put->Ok_0), item.key(), before, after, got),
    ensures
        put is Ok,
        got == Ok::<T, Failure>(item),
{
    lemma_upsert_then_get(items@, item);
}

/// Putting a record into a collection leaves the lookups of every other
/// identifier as they were.
pub proof fn lemma_upsert_keeps_others<T: Record>(items: Seq<T>, item: T, other: Seq<char>)
    requires
        other != item.key(),
    ensures
        found(upserted(items, item), other) == found(items, other),
{
    let id = item.key();
    let after = upserted(items, item);
    lemma_first_match(items, id);
    lemma_first_match(items, other);
    lemma_first_match(after, other);
    let at = first_match(items, id);
    let m = first_match(items, other);
    if m < items.len() {
        assert(m != at);
        assert(after[m] == items[m]);
        assert forall|j: int| 0 <= j < m implies (#[trigger] after[j]).key() != other by {
            if j != at {
                assert(after[j] == items[j]);
            }
        }
        lemma_first_match_is(after, other, m);
    } else {
        if holds(after, other) {
            let i = choose|i: int| 0 <= i < after.len() && #[trigger] after[i].key() == other;
            if i < items.len() && i != at {
                assert(after[i] == items[i]);
                assert(items[i].key() == other);
            }
        }
    }
}

/// Putting a record into a collection whose identifiers are distinct leaves
/// them distinct.
pub proof fn lemma_upsert_keeps_distinct<T: Record>(items: Seq<T>, item: T)
    requires
        distinct_keys(items),
    ensures
        distinct_keys(upserted(items, item)),
{
    let id = item.key();
    let after = upserted(items, item);
    lemma_first_match(items, id);
    let at = first_match(items, id);
    assert forall|i: int, j: int| 0 <= i < j < after.len() implies (#[trigger] after[i]).key() != (
    #[trigger] after[j]).key() by {
        if at < items.len() {
            if i != at && j != at {
                assert(after[i] == items[i]);
                assert(after[j] == items[j]);
            } else if i == at {
                assert(after[j] == items[j]);
                assert(items[at].key() != items[j].key());
            } else {
                assert(after[i] == items[i]);
                assert(items[i].key() != items[at].key());
            }
        } else {
            if j < items.len() {
                assert(after[i] == items[i]);
                assert(after[j] == items[j]);
            } else {
                assert(after[i] == items[i]);
                assert(items[i].key() != id);
            }
        }
    }
}

/// Removing the records with an identifier from a collection whose
/// identifiers are distinct leaves them distinct.
pub proof fn lemma_removal_keeps_distinct<T: Record>(items: Seq<T>, id: Seq<char>)
    requires
        distinct_keys(items),
    ensures
        distinct_keys(without(items, id)),
    decreases items.len(),
{
    reveal(Seq::filter);
    if items.len() > 0 {
        let front = items.drop_last();
        let last = items.last();
        assert forall|a: int, b: int| 0 <= a < b < front.len() implies (#[trigger] front[a]).key() != (
        #[trigger] front[b]).key() by {
            assert(front[a] == items[a]);
            assert(front[b] == items[b]);
        }
        lemma_removal_keeps_distinct(front, id);
        lemma_without_members(front, id);
        let kept = without(front, id);
        let after = without(items, id);
        if last.key() != id {
            assert(after == kept.push(last));
            assert forall|a: int, b: int| 0 <= a < b < after.len() implies (#[trigger] after[a]).key() != (
            #[trigger] after[b]).key() by {
                assert(after[a] == kept[a]);
                if b < kept.len() {
                    assert(after[b] == kept[b]);
                } else {
                    assert(front.contains(kept[a]));
                    let k = choose|k: int| 0 <= k < front.len() && front[k] == kept[a];
                    assert(items[k] == front[k]);
                    assert(items[k].key() != items[items.len() - 1].key());
                }
            }
        } else {
            assert(after == kept);
        }
    }
}

/// After the records with an identifier were removed, a lookup of it finds
/// nothing, and a lookup of any other identifier finds what it found before.
pub proof fn lemma_removed_is_gone<T: Record>(items: Seq<T>, id: Seq<char>, other: Seq<char>)
    ensures
        found(without(items, id), id) is None,
        other != id ==> found(without(items, id), other) == found(items, other),
{
    lemma_without_members(items, id);
    if other != id {
        lemma_without_keeps_first(items, id, other);
    }
}

proof fn lemma_without_keeps_first<T: Record>(items: Seq<T>, id: Seq<char>, other: Seq<char>)
    requires
        other != id,
    ensures
        found(without(items, id), other) == found(items, other),
    decreases items.len(),
{
    reveal(Seq::filter);
    let after = without(items, id);
    lemma_first_match(items, other);
    lemma_first_match(after, other);
    if items.len() > 0 {
        let front = items.drop_last();
        let last = items.last();
        lemma_without_keeps_first(front, id, other);
        lemma_first_match(front, other);
        let front_after = without(front, id);
        lemma_first_match(front_after, other);
        let m = first_match(front, other);
        let k = first_match(front_after, other);
        if holds(front, other) {
            assert(front[m] == items[m]);
            assert forall|j: int| 0 <= j < m implies (#[trigger] items[j]).key() != other by {
                assert(front[j] == items[j]);
            }
            lemma_first_match_is(items, other, m);
            assert(after[k] == front_after[k]);
            assert forall|j: int| 0 <= j < k implies (#[trigger] after[j]).key() != other by {
                assert(front_after[j] == after[j]);
            }
            lemma_first_match_is(after, other, k);
        } else {
            assert forall|j: int| 0 <= j < front.len() implies (#[trigger] items[j]).key() != other by {
                assert(front[j] == items[j]);
            }
            assert forall|j: int| 0 <= j < front_after.len() implies (#[trigger] after[j]).key()
                != other by {
                assert(front_after[j] == after[j]);
            }
            if last.key() == other {
                assert(after == front_after.push(last));
                lemma_first_match_is(items, other, items.len() - 1);
                lemma_first_match_is(after, other, after.len() - 1);
            }
        }
    }
}

/// Where a collection holds an identifier, its removal hands back an image:
/// that of a record with the identifier, and, where the identifiers are
/// distinct, that of the record which a lookup gives.
pub proof fn lemma_removed_image<T: Record>(items: Seq<T>, id: Seq<char>)
    requires
        holds(items, id),
    ensures
        last_image(items, id) is Some,
        exists|i: int|
            0 <= i < items.len() && (#[trigger] items[i]).key() == id && last_image(items, id) == Some(
                items[i].image(),
            ),
        distinct_keys(items) ==> last_image(items, id) == Some(found(items, id)->0.image()),
    decreases items.len(),
{
    let witness = choose|i: int| 0 <= i < items.len() && #[trigger] items[i].key() == id;
    lemma_first_match(items, id);
    let at = first_match(items, id);
    if items.last().key() == id {
        let n = items.len() - 1;
        assert(items[n].key() == id);
        if distinct_keys(items) && at < n {
            assert(items[at].key() != items[n].key());
        }
    } else {
        let front = items.drop_last();
        assert(front[witness] == items[witness]);
        assert(front[witness].key() == id);
        lemma_removed_image(front, id);
        let i = choose|i: int|
            0 <= i < front.len() && (#[trigger] front[i]).key() == id && last_image(front, id) == Some(
                front[i].image(),
            );
        assert(items[i] == front[i]);
        if distinct_keys(items) {
            assert forall|a: int, b: int| 0 <= a < b < front.len() implies (#[trigger] front[a]).key() != (
            #[trigger] front[b]).key() by {
                assert(front[a] == items[a]);
                assert(front[b] == items[b]);
            }
            lemma_first_match(front, id);
            let m = first_match(front, id);
            assert(front[m] == items[m]);
            assert forall|j: int| 0 <= j < m implies (#[trigger] items[j]).key() != id by {
                assert(front[j] == items[j]);
            }
            lemma_first_match_is(items, id, m);
        }
    }
}

/// With a character go the records of its conversations and no other file: a
/// file of the history directory is picked for removal exactly when its key
/// names the character, so the records of every other character stay.
pub proof fn lemma_history_cascade(file_names: Seq<String>, character_id: Seq<char>, name: String)
    ensures
        records_of_character(file_names, character_id).contains(name) <==> file_names.contains(name)
            && is_record_of(name@, character_id),
        conversation_key(name@) matches Some(key) && key.0 != character_id ==> !records_of_character(
            file_names,
            character_id,
        ).contains(name),
{
    let picked = |name: String| is_record_of(name@, character_id);
    let gone = records_of_character(file_names, character_id);
    if gone.contains(name) {
        file_names.lemma_filter_contains_rev(picked, name);
        let i = choose|i: int| 0 <= i < gone.len() && gone[i] == name;
        file_names.lemma_filter_pred(picked, i);
    }
    if file_names.contains(name) && is_record_of(name@, character_id) {
        let i = choose|i: int| 0 <= i < file_names.len() && file_names[i] == name;
        file_names.lemma_filter_contains(picked, i);
    }
}

/// The cascade of a character's removal. Where the collection holds the
/// character, the removal succeeds; a lookup of the character then finds
/// nothing, and a lookup of any other finds what it found before; a file of
/// the history directory is named for removal exactly when it records a
/// conversation with the character; and, the identifiers being distinct, the
/// image file that is named is the character's own, unless that is the
/// placeholder.
pub proof fn lemma_delete_cascade(
    characters: Vec<Character>,
    id: Seq<char>,
    history_files: Seq<String>,
    r: Result<Removal<Character>, Failure>,
    other: Seq<char>,
    name: String,
)
    requires
        holds(characters@, id),
        removal_of(
            FileContent::Parsed(characters),
            id,
            "Personnage non trouvé"@,
            records_of_character(history_files, id),
            r,
        ),
    ensures
        r is Ok,
        found(r->Ok_0.remaining@, id) is None,
        other != id ==> found(r->Ok_0.remaining@, other) == found(characters@, other),
        r->Ok_0.history_files@.contains(name) <==> history_files.contains(name) && is_record_of(
            name@,
            id,
        ),
        distinct_keys(characters@) ==> text_of(r->Ok_0.image_file) == image_to_remove(
            found(characters@, id)->0.img@,
        ),
{
    lemma_removed_is_gone(characters@, id, other);
    lemma_history_cascade(history_files, id, name);
    lemma_removed_image(characters@, id);
}

/// The placeholder is exempt from the cascade: where every record with the
/// identifier refers to the placeholder, the removal succeeds and names no
/// image file.
pub proof fn lemma_placeholder_exemption(
    characters: Vec<Character>,
    id: Seq<char>,
    history_files: Seq<String>,
    r: Result<Removal<Character>, Failure>,
)
    requires
        holds(characters@, id),
        forall|i: int|
            0 <= i < characters@.len() && (#[trigger] characters@[i]).key() == id ==> characters@[i].img@
                == "placeholder.png"@,
        removal_of(
            FileContent::Parsed(characters),
            id,
            "Personnage non trouvé"@,
            records_of_character(history_files, id),
            r,
        ),
    ensures
        r is Ok,
        r->Ok_0.image_file is None,
{
    lemma_removed_image(characters@, id);
}

} // verus!
