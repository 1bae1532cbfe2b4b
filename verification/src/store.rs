//! The store: a map from identifier to book, with identifiers that are never
//! handed out twice.

use std::collections::HashMap;
use vstd::prelude::*;
use vstd::std_specs::hash::spec_hash_map_iter;
use vstd::std_specs::iter::IteratorSpec;

use crate::book::{Book, BookFields, BookView, CreateBook, UpdateBook, UpdateFields};
use crate::error::RepositoryError;

verus! {

/// The store as a mathematical value: the books it holds, by identifier, and
/// the last identifier it has assigned (0 before the first).
pub struct StoreState {
    pub books: Map<i32, BookView>,
    pub last_id: i32,
}

impl StoreState {
    /// The store that holds nothing and has assigned no identifier.
    pub open spec fn empty() -> StoreState {
        StoreState { books: Map::empty(), last_id: 0 }
    }

    /// Finitely many books, each kept under its own identifier, and every
    /// identifier in use is one that was assigned.
    pub open spec fn wf(self) -> bool {
        &&& self.books.dom().finite()
        &&& 0 <= self.last_id
        &&& forall|k: i32| #[trigger]
            self.books.contains_key(k) ==> 1 <= k <= self.last_id && self.books[k].id == k
    }

    /// An identifier is left to assign.
    pub open spec fn has_free_id(self) -> bool {
        self.last_id < i32::MAX
    }

    /// The identifier that the next created book receives.
    pub open spec fn next_id(self) -> i32
        recommends
            self.has_free_id(),
    {
        (self.last_id + 1) as i32
    }

    /// The book that `create` stores for `fields`.
    pub open spec fn created(self, fields: BookFields) -> BookView {
        BookView { id: self.next_id(), fields }
    }

    /// The store after a book with `fields` was created.
    pub open spec fn create(self, fields: BookFields) -> StoreState {
        StoreState {
            books: self.books.insert(self.next_id(), self.created(fields)),
            last_id: self.next_id(),
        }
    }

    /// The book kept under `id` once `change` is applied to it.
    pub open spec fn updated(self, id: i32, change: UpdateFields) -> BookView
        recommends
            self.books.contains_key(id),
    {
        BookView { id, fields: change.apply(self.books[id].fields) }
    }

    /// The store after `change` was applied to the book under `id`.
    pub open spec fn update(self, id: i32, change: UpdateFields) -> StoreState
        recommends
            self.books.contains_key(id),
    {
        StoreState { books: self.books.insert(id, self.updated(id, change)), last_id: self.last_id }
    }

    /// The store after the book under `id` was removed.
    pub open spec fn delete(self, id: i32) -> StoreState {
        StoreState { books: self.books.remove(id), last_id: self.last_id }
    }
}

/// The identifiers of `records`, in order.
pub open spec fn ids_of(records: Seq<BookView>) -> Seq<i32> {
    Seq::new(records.len(), |i: int| records[i].id)
}

/// The mathematical values of `books`, in order.
pub open spec fn views_of(books: Seq<Book>) -> Seq<BookView> {
    Seq::new(books.len(), |i: int| books[i]@)
}

/// `records` holds every book of `books` exactly once, in some order, and
/// nothing else.
pub open spec fn lists_exactly(records: Seq<BookView>, books: Map<i32, BookView>) -> bool {
    &&& ids_of(records).no_duplicates()
    &&& ids_of(records).to_set() == books.dom()
    &&& forall|i: int|
        0 <= i < records.len() ==> books.contains_key(#[trigger] records[i].id)
            && books[records[i].id] == records[i]
}

/// The books of an in-memory repository, keyed by identifier.
pub struct BookStore {
    books: HashMap<i32, Book>,
    last_id: i32,
}

impl View for BookStore {
    type V = StoreState;

    closed spec fn view(&self) -> StoreState {
        StoreState {
            books: Map::new(|k: i32| self.books@.contains_key(k), |k: i32| self.books@[k]@),
            last_id: self.last_id,
        }
    }
}

impl BookStore {
    /// The store's invariant: that of its mathematical value.
    pub open spec fn wf(&self) -> bool {
        self@.wf()
    }

    /// An empty store.
    pub fn new() -> (res: Self)
        ensures
            res.wf(),
            res@ == StoreState::empty(),
    {
        let res = BookStore { books: HashMap::new(), last_id: 0 };
        assert(res@.books =~= Map::<i32, BookView>::empty());
        res
    }

    /// An empty store whose next identifier follows `last_id`, as if the
    /// identifiers up to `last_id` had been assigned already. A negative
    /// `last_id` counts as 0.
    pub fn starting_after(last_id: i32) -> (res: Self)
        ensures
            res.wf(),
            res@.books == Map::<i32, BookView>::empty(),
            res@.last_id == if last_id < 0 {
                0
            } else {
                last_id
            },
    {
        let start: i32 = if last_id < 0 {
            0
        } else {
            last_id
        };
        let res = BookStore { books: HashMap::new(), last_id: start };
        assert(res@.books =~= Map::<i32, BookView>::empty());
        res
    }

    /// The number of books in the store.
    pub fn len(&self) -> (res: usize)
        requires
            self.wf(),
        ensures
            res == self@.books.len(),
    {
        assert(self@.books.dom() =~= self.books@.dom());
        self.books.len()
    }

    /// Stores a new book with the fields of `payload` under an identifier that
    /// was never assigned before, and returns a copy of it. Fails only when no
    /// identifier is left.
    pub fn create(&mut self, payload: CreateBook) -> (res: Result<Book, RepositoryError>)
        requires
            old(self).wf(),
        ensures
            final(self).wf(),
            old(self)@.has_free_id() ==> final(self)@ == old(self)@.create(payload@) && res is Ok
                && res.unwrap()@ == old(self)@.created(payload@),
            !old(self)@.has_free_id() ==> final(self)@ == old(self)@ && res == Err::<
                Book,
                RepositoryError,
            >(RepositoryError::IdsExhausted),
    {
        if self.last_id == i32::MAX {
            return Err(RepositoryError::IdsExhausted);
        }
        let id: i32 = self.last_id + 1;
        let book = payload.into_book(id);
        let copy = book.clone();
        self.books.insert(id, book);
        self.last_id = id;
        assert(self@.books =~= old(self)@.create(payload@).books);
        Ok(copy)
    }

    /// A copy of the book under `id`, or `NotFound` when there is none.
    pub fn find(&self, id: i32) -> (res: Result<Book, RepositoryError>)
        requires
            self.wf(),
        ensures
            self@.books.contains_key(id) ==> res is Ok && res.unwrap()@ == self@.books[id],
            !self@.books.contains_key(id) ==> res == Err::<Book, RepositoryError>(
                RepositoryError::NotFound(id),
            ),
    {
        match self.books.get(&id) {
            Some(book) => Ok(book.clone()),
            None => Err(RepositoryError::NotFound(id)),
        }
    }

    /// A copy of every book in the store, each exactly once, in no particular
    /// order.
    pub fn all(&self) -> (res: Vec<Book>)
        requires
            self.wf(),
        ensures
            lists_exactly(views_of(res@), self@.books),
            res@.len() == self@.books.len(),
    {
        let mut res: Vec<Book> = Vec::new();
        for entry in it: self.books.iter()
            invariant
                self.wf(),
                it.seq() == spec_hash_map_iter(&self.books).remaining(),
                it.seq().no_duplicates(),
                res@.len() == it.index(),
                forall|i: int| 0 <= i < res@.len() ==> (#[trigger] res@[i])@ == (*it.seq()[i].1)@,
        {
            res.push(entry.1.clone());
        }
        proof {
            let pairs = spec_hash_map_iter(&self.books).remaining();
            let records = views_of(res@);
            let ids = ids_of(records);
            assert(self@.books.dom() =~= self.books@.dom());
            assert forall|i: int| 0 <= i < records.len() implies self@.books.contains_key(
                #[trigger] records[i].id,
            ) && self@.books[records[i].id] == records[i] && records[i].id == *pairs[i].0 by {
                assert(self.books@.contains_key(*pairs[i].0));
                assert(self@.books.contains_key(*pairs[i].0));
            }
            assert forall|i: int, j: int| 0 <= i < ids.len() && 0 <= j < ids.len() && i != j implies ids[i]
                != ids[j] by {
                assert(records[i].id == *pairs[i].0);
                assert(records[j].id == *pairs[j].0);
                if ids[i] == ids[j] {
                    assert(pairs[i] == pairs[j]);
                }
            }
            assert forall|k: i32| self@.books.dom().contains(k) implies ids.to_set().contains(k) by {
                assert(self.books@.contains_key(k));
                assert(pairs.contains((&k, &self.books@[k])));
                let i = choose|i: int| 0 <= i < pairs.len() && pairs[i] == (&k, &self.books@[k]);
                assert(ids[i] == k);
            }
            assert forall|k: i32| ids.to_set().contains(k) implies self@.books.dom().contains(k) by {
                let i = choose|i: int| 0 <= i < ids.len() && ids[i] == k;
                assert(records[i].id == k);
            }
            assert(ids.to_set() =~= self@.books.dom());
        }
        res
    }

    /// Overwrites the fields that `payload` supplies in the book under `id`,
    /// keeps the others, and returns a copy of the book as it then is. Fails
    /// with `NotFound`, changing nothing, when there is no such book.
    pub fn update(&mut self, id: i32, payload: UpdateBook) -> (res: Result<Book, RepositoryError>)
        requires
            old(self).wf(),
        ensures
            final(self).wf(),
            old(self)@.books.contains_key(id) ==> final(self)@ == old(self)@.update(id, payload@)
                && res is Ok && res.unwrap()@ == old(self)@.updated(id, payload@),
            !old(self)@.books.contains_key(id) ==> final(self)@ == old(self)@ && res == Err::<
                Book,
                RepositoryError,
            >(RepositoryError::NotFound(id)),
    {
        let book = match self.books.get(&id) {
            Some(current) => current.updated(id, payload),
            None => {
                return Err(RepositoryError::NotFound(id));
            },
        };
        let copy = book.clone();
        self.books.insert(id, book);
        assert(self@.books =~= old(self)@.update(id, payload@).books);
        Ok(copy)
    }

    /// Removes the book under `id`. Fails with `NotFound`, changing nothing,
    /// when there is no such book.
    pub fn delete(&mut self, id: i32) -> (res: Result<(), RepositoryError>)
        requires
            old(self).wf(),
        ensures
            final(self).wf(),
            old(self)@.books.contains_key(id) ==> final(self)@ == old(self)@.delete(id) && res
                == Ok::<(), RepositoryError>(()),
            !old(self)@.books.contains_key(id) ==> final(self)@ == old(self)@ && res == Err::<
                (),
                RepositoryError,
            >(RepositoryError::NotFound(id)),
    {
        match self.books.remove(&id) {
            Some(_) => {
                assert(self@.books =~= old(self)@.delete(id).books);
                Ok(())
            },
            None => {
                assert(self@.books =~= old(self)@.books);
                Err(RepositoryError::NotFound(id))
            },
        }
    }
}

} // verus!
