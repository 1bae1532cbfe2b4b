//! Laws that relate the store's operations to one another, stated over the
//! mathematical values that the operations' contracts use.

use vstd::prelude::*;

use crate::book::{BookFields, BookView, UpdateFields};
use crate::store::{ids_of, lists_exactly, StoreState};

verus! {

/// An operation that may change the store.
pub enum Operation {
    /// Create a book with the given fields.
    Create(BookFields),
    /// Apply a change to the book under an identifier.
    Update(i32, UpdateFields),
    /// Remove the book under an identifier.
    Delete(i32),
}

/// The store after one operation: a failing operation leaves it as it was.
pub open spec fn step(s: StoreState, op: Operation) -> StoreState {
    match op {
        Operation::Create(fields) => if s.has_free_id() {
            s.create(fields)
        } else {
            s
        },
        Operation::Update(id, change) => if s.books.contains_key(id) {
            s.update(id, change)
        } else {
            s
        },
        Operation::Delete(id) => if s.books.contains_key(id) {
            s.delete(id)
        } else {
            s
        },
    }
}

/// The store after the operations of `ops`, applied in order.
pub open spec fn run(s: StoreState, ops: Seq<Operation>) -> StoreState
    decreases ops.len(),
{
    if ops.len() == 0 {
        s
    } else {
        step(run(s, ops.drop_last()), ops.last())
    }
}

/// The identifiers that the successful creations among `ops` return, in order.
pub open spec fn assigned(s: StoreState, ops: Seq<Operation>) -> Seq<i32>
    decreases ops.len(),
{
    if ops.len() == 0 {
        Seq::empty()
    } else {
        let before = run(s, ops.drop_last());
        let earlier = assigned(s, ops.drop_last());
        if ops.last() is Create && before.has_free_id() {
            earlier.push(before.next_id())
        } else {
            earlier
        }
    }
}

/// Some sequence of operations leads from the store `initial` to the store
/// `s`.
pub open spec fn reachable(initial: StoreState, s: StoreState) -> bool {
    exists|ops: Seq<Operation>| #[trigger] run(initial, ops) == s
}

/// The creations of `inputs`, in order.
pub open spec fn creations(inputs: Seq<BookFields>) -> Seq<Operation> {
    Seq::new(inputs.len(), |i: int| Operation::Create(inputs[i]))
}

/// Every operation keeps the store well formed and never lowers the last
/// assigned identifier.
pub proof fn lemma_step_keeps_wf(s: StoreState, op: Operation)
    requires
        s.wf(),
    ensures
        step(s, op).wf(),
        s.last_id <= step(s, op).last_id,
{
}

/// Any sequence of operations keeps the store well formed and never lowers
/// the last assigned identifier.
pub proof fn lemma_run_keeps_wf(s: StoreState, ops: Seq<Operation>)
    requires
        s.wf(),
    ensures
        run(s, ops).wf(),
        s.last_id <= run(s, ops).last_id,
    decreases ops.len(),
{
    if ops.len() > 0 {
        lemma_run_keeps_wf(s, ops.drop_last());
        lemma_step_keeps_wf(run(s, ops.drop_last()), ops.last());
    }
}

/// Every store is reached from itself, by no operation at all.
pub proof fn lemma_reachable_from_itself(s: StoreState)
    ensures
        reachable(s, s),
{
    assert(run(s, Seq::<Operation>::empty()) == s);
}

/// One more operation on a store that was reached from `initial` gives a
/// store that is reached from `initial`.
pub proof fn lemma_step_stays_reachable(initial: StoreState, s: StoreState, op: Operation)
    requires
        reachable(initial, s),
    ensures
        reachable(initial, step(s, op)),
{
    let ops = choose|ops: Seq<Operation>| #[trigger] run(initial, ops) == s;
    let longer = ops.push(op);
    assert(longer.drop_last() =~= ops);
    assert(run(initial, longer) == step(s, op));
}

/// A store that is reached from a well-formed store is well formed, and its
/// last assigned identifier is not below that of the store it was reached
/// from.
pub proof fn lemma_reachable_is_wf(initial: StoreState, s: StoreState)
    requires
        initial.wf(),
        reachable(initial, s),
    ensures
        s.wf(),
        initial.last_id <= s.last_id,
{
    let ops = choose|ops: Seq<Operation>| #[trigger] run(initial, ops) == s;
    lemma_run_keeps_wf(initial, ops);
}

/// A book that was created is found under the identifier it received, with
/// the fields it was created with.
pub proof fn lemma_create_then_find(s: StoreState, fields: BookFields)
    requires
        s.wf(),
        s.has_free_id(),
    ensures
        s.create(fields).wf(),
        s.create(fields).books.contains_key(s.created(fields).id),
        s.create(fields).books[s.created(fields).id] == s.created(fields),
        s.created(fields).fields == fields,
        !s.books.contains_key(s.created(fields).id),
{
}

/// Creating a book leaves every other book as it was.
pub proof fn lemma_create_keeps_others(s: StoreState, fields: BookFields, other: i32)
    requires
        s.wf(),
        s.has_free_id(),
        other != s.next_id(),
    ensures
        s.create(fields).books.contains_key(other) == s.books.contains_key(other),
        s.books.contains_key(other) ==> s.create(fields).books[other] == s.books[other],
{
}

/// Whatever operations are interleaved, deletions included, the identifiers
/// that creations return are pairwise distinct, and none of them was assigned
/// before the operations began.
pub proof fn lemma_ids_never_reused(s: StoreState, ops: Seq<Operation>)
    requires
        s.wf(),
    ensures
        assigned(s, ops).no_duplicates(),
        forall|i: int|
            0 <= i < assigned(s, ops).len() ==> s.last_id < #[trigger] assigned(s, ops)[i] <= run(
                s,
                ops,
            ).last_id,
        forall|i: int|
            0 <= i < assigned(s, ops).len() ==> !s.books.contains_key(
                #[trigger] assigned(s, ops)[i],
            ),
    decreases ops.len(),
{
    if ops.len() > 0 {
        let before = run(s, ops.drop_last());
        let earlier = assigned(s, ops.drop_last());
        lemma_ids_never_reused(s, ops.drop_last());
        lemma_run_keeps_wf(s, ops.drop_last());
        lemma_step_keeps_wf(before, ops.last());
        if ops.last() is Create && before.has_free_id() {
            let ids = assigned(s, ops);
            assert(ids == earlier.push(before.next_id()));
            assert forall|i: int, j: int| 0 <= i < ids.len() && 0 <= j < ids.len() && i != j implies ids[i]
                != ids[j] by {
                if i < earlier.len() {
                    assert(ids[i] == earlier[i]);
                }
                if j < earlier.len() {
                    assert(ids[j] == earlier[j]);
                }
            }
            assert forall|i: int| 0 <= i < ids.len() implies s.last_id < #[trigger] ids[i] <= run(
                s,
                ops,
            ).last_id && !s.books.contains_key(ids[i]) by {
                if i < earlier.len() {
                    assert(ids[i] == earlier[i]);
                }
            }
        }
    }
}

/// After an update the book under `id` keeps its identifier, holds every
/// supplied field and keeps every omitted one; no other book changes, and no
/// identifier is assigned.
pub proof fn lemma_update_then_find(s: StoreState, id: i32, change: UpdateFields)
    requires
        s.wf(),
        s.books.contains_key(id),
    ensures
        s.update(id, change).wf(),
        s.update(id, change).books.contains_key(id),
        s.update(id, change).books[id] == s.updated(id, change),
        s.updated(id, change).id == id,
        change.reflected_in(s.updated(id, change).fields),
        change.omitted_kept(s.books[id].fields, s.updated(id, change).fields),
        s.update(id, change).books.dom() == s.books.dom(),
        forall|k: i32|
            k != id && s.books.contains_key(k) ==> #[trigger] s.update(id, change).books[k]
                == s.books[k],
        s.update(id, change).last_id == s.last_id,
{
    assert(s.update(id, change).books.dom() =~= s.books.dom());
}

/// After a deletion nothing is found under `id`; every other book stays as it
/// was, and no identifier is assigned.
pub proof fn lemma_delete_then_find(s: StoreState, id: i32)
    requires
        s.wf(),
        s.books.contains_key(id),
    ensures
        s.delete(id).wf(),
        !s.delete(id).books.contains_key(id),
        s.delete(id).books.dom() == s.books.dom().remove(id),
        forall|k: i32|
            k != id && s.books.contains_key(k) ==> #[trigger] s.delete(id).books[k] == s.books[k],
        s.delete(id).last_id == s.last_id,
{
    assert(s.delete(id).books.dom() =~= s.books.dom().remove(id));
}

/// Updating or deleting under an identifier that holds no book changes
/// nothing.
pub proof fn lemma_absent_id_changes_nothing(s: StoreState, id: i32, change: UpdateFields)
    requires
        !s.books.contains_key(id),
    ensures
        step(s, Operation::Update(id, change)) == s,
        step(s, Operation::Delete(id)) == s,
{
}

/// A listing of the empty store is empty.
pub proof fn lemma_all_of_empty(records: Seq<BookView>)
    requires
        lists_exactly(records, StoreState::empty().books),
    ensures
        records.len() == 0,
{
    if records.len() > 0 {
        assert(StoreState::empty().books.contains_key(records[0].id));
    }
}

/// After the books of `inputs` were created in an empty store, and nothing
/// was deleted, the store holds exactly one book for each input: the book for
/// input `i` has the identifier `i + 1` and the fields of that input.
pub proof fn lemma_store_after_creations(inputs: Seq<BookFields>)
    requires
        inputs.len() <= i32::MAX,
    ensures
        run(StoreState::empty(), creations(inputs)).wf(),
        run(StoreState::empty(), creations(inputs)).last_id == inputs.len(),
        run(StoreState::empty(), creations(inputs)).books.len() == inputs.len(),
        forall|k: i32|
            #[trigger] run(StoreState::empty(), creations(inputs)).books.contains_key(k) <==> 1 <= k
                <= inputs.len(),
        forall|i: int|
            0 <= i < inputs.len() ==> run(StoreState::empty(), creations(inputs)).books[(i
                + 1) as i32] == (BookView { id: (i + 1) as i32, fields: #[trigger] inputs[i] }),
    decreases inputs.len(),
{
    let end = run(StoreState::empty(), creations(inputs));
    if inputs.len() == 0 {
        assert(end.books.dom() =~= Set::<i32>::empty());
    } else {
        let shorter = inputs.drop_last();
        lemma_store_after_creations(shorter);
        assert(creations(inputs).drop_last() =~= creations(shorter));
        let before = run(StoreState::empty(), creations(shorter));
        assert(creations(inputs).last() == Operation::Create(inputs.last()));
        assert(end == before.create(inputs.last()));
        assert(end.books.dom() =~= before.books.dom().insert(inputs.len() as i32));
        assert forall|i: int| 0 <= i < inputs.len() implies end.books[(i + 1) as i32] == (BookView {
            id: (i + 1) as i32,
            fields: #[trigger] inputs[i],
        }) by {
            if i < shorter.len() {
                assert(shorter[i] == inputs[i]);
            }
        }
    }
}

/// In whatever order the books of `inputs` are created in an empty store,
/// every creation succeeds, and the one that comes at place `i` receives the
/// identifier `i + 1`: as many distinct identifiers as there are inputs.
pub proof fn lemma_ids_of_creations(inputs: Seq<BookFields>)
    requires
        inputs.len() <= i32::MAX,
    ensures
        assigned(StoreState::empty(), creations(inputs)).len() == inputs.len(),
        assigned(StoreState::empty(), creations(inputs)).no_duplicates(),
        forall|i: int|
            0 <= i < inputs.len() ==> #[trigger] assigned(StoreState::empty(), creations(inputs))[i]
                == i + 1,
    decreases inputs.len(),
{
    lemma_ids_never_reused(StoreState::empty(), creations(inputs));
    if inputs.len() > 0 {
        let shorter = inputs.drop_last();
        lemma_ids_of_creations(shorter);
        lemma_store_after_creations(shorter);
        assert(creations(inputs).drop_last() =~= creations(shorter));
        assert(creations(inputs).last() == Operation::Create(inputs.last()));
    }
}

/// After the books of `inputs` were created in an empty store, and nothing
/// was deleted, a listing of the store has as many records as there are
/// inputs, and holds for each input a record with that input's fields.
pub proof fn lemma_all_after_creations(inputs: Seq<BookFields>, records: Seq<BookView>)
    requires
        inputs.len() <= i32::MAX,
        lists_exactly(records, run(StoreState::empty(), creations(inputs)).books),
    ensures
        records.len() == inputs.len(),
        forall|i: int|
            0 <= i < inputs.len() ==> records.contains(
                BookView { id: (i + 1) as i32, fields: #[trigger] inputs[i] },
            ),
{
    let end = run(StoreState::empty(), creations(inputs));
    lemma_store_after_creations(inputs);
    let ids = ids_of(records);
    ids.unique_seq_to_set();
    assert(ids.len() == records.len());
    assert forall|i: int| 0 <= i < inputs.len() implies records.contains(
        BookView { id: (i + 1) as i32, fields: #[trigger] inputs[i] },
    ) by {
        let k = (i + 1) as i32;
        assert(end.books.contains_key(k));
        assert(ids.to_set().contains(k));
        let j = choose|j: int| 0 <= j < ids.len() && ids[j] == k;
        assert(records[j].id == k);
        assert(end.books[records[j].id] == records[j]);
    }
}

} // verus!
