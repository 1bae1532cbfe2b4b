//! The repository interface and its in-memory implementation: one store behind
//! a read/write lock, shared by every clone of the handle.

use std::sync::Arc;
use vstd::prelude::*;
use vstd::rwlock::{ReadHandle, RwLock, RwLockPredicate, WriteHandle};

use crate::book::{Book, CreateBook, UpdateBook};
use crate::error::RepositoryError;
use crate::laws::{lemma_reachable_from_itself, lemma_step_stays_reachable, reachable, step, Operation};
use crate::store::{ids_of, lists_exactly, views_of, BookStore, StoreState};

verus! {

/// The operations that a repository of books offers. A repository may be
/// shared between callers, so a contract here states only what holds of a
/// result whatever the other callers have done.
pub trait BookRepository: Clone + Send + Sync + 'static {
    /// Stores a new book with the fields of `payload` and returns it.
    fn create(&self, payload: CreateBook) -> (res: Result<Book, RepositoryError>)
        ensures
            res matches Ok(book) ==> book@.fields == payload@,
    ;

    /// Returns the book under `id`.
    fn find(&self, id: i32) -> (res: Result<Book, RepositoryError>)
        ensures
            res matches Ok(book) ==> book@.id == id,
    ;

    /// Returns every stored book.
    fn all(&self) -> (res: Result<Vec<Book>, RepositoryError>)
        ensures
            res matches Ok(books) ==> ids_of(views_of(books@)).no_duplicates(),
    ;

    /// Overwrites the fields that `payload` supplies in the book under `id`
    /// and returns the book as it then is.
    fn update(&self, id: i32, payload: UpdateBook) -> (res: Result<Book, RepositoryError>)
        ensures
            res matches Ok(book) ==> book@.id == id && payload@.reflected_in(book@.fields),
    ;

    /// Removes the book under `id`.
    fn delete(&self, id: i32) -> (res: Result<(), RepositoryError>)
    ;
}

/// What the lock of an in-memory repository guarantees of the store it
/// guards: that the store is well formed, and that operations of the store
/// have led to it from the store that the repository was made with.
pub struct StoreInvariant {
    pub initial: StoreState,
}

impl RwLockPredicate<BookStore> for StoreInvariant {
    open spec fn inv(self, v: BookStore) -> bool {
        v.wf() && reachable(self.initial, v@)
    }
}

/// A repository that keeps its books in memory. Clones share one store.
pub struct BookRepositoryForMemory {
    store: Arc<RwLock<BookStore, StoreInvariant>>,
}

impl Clone for BookRepositoryForMemory {
    fn clone(&self) -> (res: Self)
        ensures
            res == *self,
    {
        BookRepositoryForMemory { store: self.store.clone() }
    }
}

impl BookRepositoryForMemory {
    /// The store that the repository was made with. Every store that the
    /// repository ever holds is reached from this one.
    pub closed spec fn initial(&self) -> StoreState {
        self.store.pred().initial
    }

    /// A repository that starts with an empty store.
    pub fn new() -> (res: Self)
        ensures
            res.initial() == StoreState::empty(),
    {
        let store = BookStore::new();
        proof {
            lemma_reachable_from_itself(StoreState::empty());
        }
        BookRepositoryForMemory {
            store: Arc::new(
                RwLock::new(store, Ghost(StoreInvariant { initial: StoreState::empty() })),
            ),
        }
    }

    /// Takes the store out of this repository's lock for writing; no other
    /// caller reads or writes it until the handle has taken a store back.
    /// The store is well formed and was reached from the initial one.
    fn write_store_ref(&self) -> (res: (BookStore, WriteHandle<'_, BookStore, StoreInvariant>))
        ensures
            res.1.rwlock() == *self.store,
            res.0.wf(),
            reachable(self.initial(), res.0@),
    {
        self.store.acquire_write()
    }

    /// Opens the store of this repository's lock for reading; no caller
    /// writes it until the handle is released. The store is well formed and
    /// was reached from the initial one.
    fn read_store_ref(&self) -> (res: ReadHandle<'_, BookStore, StoreInvariant>)
        ensures
            res.rwlock() == *self.store,
            res.view().wf(),
            reachable(self.initial(), res.view()@),
    {
        self.store.acquire_read()
    }
}

impl BookRepository for BookRepositoryForMemory {
    /// Holds the lock for writing while the store creates the book. Fails
    /// only when the store has no identifier left.
    fn create(&self, payload: CreateBook) -> (res: Result<Book, RepositoryError>)
        ensures
            res matches Ok(book) ==> book@.id >= 1,
            res matches Err(e) ==> e == RepositoryError::IdsExhausted,
    {
        let (mut store, handle) = self.write_store_ref();
        let ghost before = store@;
        let ghost fields = payload@;
        let res = store.create(payload);
        proof {
            assert(store@ == step(before, Operation::Create(fields)));
            lemma_step_stays_reachable(self.initial(), before, Operation::Create(fields));
        }
        handle.release_write(store);
        res
    }

    /// Holds the lock for reading while the store looks the book up. Fails
    /// only with `NotFound(id)`.
    fn find(&self, id: i32) -> (res: Result<Book, RepositoryError>)
        ensures
            res matches Ok(book) ==> book@.id >= 1,
            res matches Err(e) ==> e == RepositoryError::NotFound(id),
    {
        let handle = self.read_store_ref();
        let res = handle.borrow().find(id);
        handle.release_read();
        res
    }

    /// Holds the lock for reading while the store copies its books. Never
    /// fails: the result lists, each book exactly once, a store that was
    /// reached from the initial one.
    fn all(&self) -> (res: Result<Vec<Book>, RepositoryError>)
        ensures
            res is Ok,
            exists|s: StoreState| #[trigger]
                reachable(self.initial(), s) && lists_exactly(views_of(res.unwrap()@), s.books),
    {
        let handle = self.read_store_ref();
        let books = handle.borrow().all();
        proof {
            let s = handle.view()@;
            assert(reachable(self.initial(), s) && lists_exactly(views_of(books@), s.books));
        }
        handle.release_read();
        Ok(books)
    }

    /// Holds the lock for writing while the store changes the book. Fails
    /// only with `NotFound(id)`.
    fn update(&self, id: i32, payload: UpdateBook) -> (res: Result<Book, RepositoryError>)
        ensures
            res matches Err(e) ==> e == RepositoryError::NotFound(id),
    {
        let (mut store, handle) = self.write_store_ref();
        let ghost before = store@;
        let ghost change = payload@;
        let res = store.update(id, payload);
        proof {
            assert(store@ == step(before, Operation::Update(id, change)));
            lemma_step_stays_reachable(self.initial(), before, Operation::Update(id, change));
        }
        handle.release_write(store);
        res
    }

    /// Holds the lock for writing while the store removes the book. Succeeds
    /// exactly when the store that it found under the lock, one that was
    /// reached from the initial store, held a book under `id`, which no
    /// store does for an `id` below 1; fails only with `NotFound(id)`.
    fn delete(&self, id: i32) -> (res: Result<(), RepositoryError>)
        ensures
            res matches Err(e) ==> e == RepositoryError::NotFound(id),
            id < 1 ==> res is Err,
            exists|s: StoreState| #[trigger]
                reachable(self.initial(), s) && (res is Ok <==> s.books.contains_key(id)),
    {
        let (mut store, handle) = self.write_store_ref();
        let ghost before = store@;
        let res = store.delete(id);
        proof {
            assert(store@ == step(before, Operation::Delete(id)));
            lemma_step_stays_reachable(self.initial(), before, Operation::Delete(id));
            assert(reachable(self.initial(), before) && (res is Ok <==> before.books.contains_key(
                id,
            )));
        }
        handle.release_write(store);
        res
    }
}

} // verus!
