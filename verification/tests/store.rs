use book_store::book::{Book, CreateBook, UpdateBook};
use book_store::error::RepositoryError;
use book_store::status::{status_code, Endpoint, BAD_REQUEST};
use book_store::store::BookStore;

fn input(n: u32) -> CreateBook {
    CreateBook::new(
        format!("name{}", n),
        format!("isbn{}", n),
        format!("author{}", n),
        n,
        format!("publisher{}", n),
    )
}

fn book(id: i32, n: u32) -> Book {
    Book::new(
        id,
        format!("name{}", n),
        format!("isbn{}", n),
        format!("author{}", n),
        n,
        format!("publisher{}", n),
    )
}

#[test]
fn new_store_is_empty() {
    let store = BookStore::new();
    assert_eq!(0, store.len());
    assert_eq!(Vec::<Book>::new(), store.all());
    assert_eq!(Err(RepositoryError::NotFound(1)), store.find(1));
}

#[test]
fn create_then_find_returns_an_equal_book() {
    let mut store = BookStore::new();
    let created = store.create(input(5)).unwrap();
    assert_eq!(book(1, 5), created);
    assert_eq!(Ok(book(1, 5)), store.find(created.id()));
    assert_eq!(1, store.len());
}

#[test]
fn create_accepts_the_same_fields_twice() {
    let mut store = BookStore::new();
    assert_eq!(Ok(book(1, 3)), store.create(input(3)));
    assert_eq!(Ok(book(2, 3)), store.create(input(3)));
    assert_eq!(2, store.len());
}

#[test]
fn all_lists_every_created_book_once() {
    let mut store = BookStore::new();
    let n: u32 = 20;
    for i in 1..=n {
        store.create(input(i)).unwrap();
    }
    let mut books = store.all();
    assert_eq!(20, books.len());
    books.sort_by_key(|b| b.id());
    let expected: Vec<Book> = (1..=n).map(|i| book(i as i32, i)).collect();
    assert_eq!(expected, books);
}

#[test]
fn update_overwrites_supplied_fields_and_keeps_the_others() {
    let mut store = BookStore::new();
    store.create(input(1)).unwrap();
    store.create(input(2)).unwrap();

    let change = UpdateBook::new(None, Some("new isbn".to_string()), None, Some(9), None);
    let expected = Book::new(
        2,
        "name2".to_string(),
        "new isbn".to_string(),
        "author2".to_string(),
        9,
        "publisher2".to_string(),
    );
    assert_eq!(Ok(expected.clone()), store.update(2, change));
    assert_eq!(Ok(expected), store.find(2));
    assert_eq!(Ok(book(1, 1)), store.find(1));

    let change = UpdateBook::new(
        Some("n".to_string()),
        None,
        Some("a".to_string()),
        None,
        Some("p".to_string()),
    );
    let expected = Book::new(
        2,
        "n".to_string(),
        "new isbn".to_string(),
        "a".to_string(),
        9,
        "p".to_string(),
    );
    assert_eq!(Ok(expected.clone()), store.update(2, change));
    assert_eq!(Ok(expected), store.find(2));
}

#[test]
fn update_with_nothing_supplied_keeps_the_book() {
    let mut store = BookStore::new();
    store.create(input(1)).unwrap();
    assert_eq!(
        Ok(book(1, 1)),
        store.update(1, UpdateBook::new(None, None, None, None, None))
    );
    assert_eq!(Ok(book(1, 1)), store.find(1));
}

#[test]
fn update_of_an_absent_id_changes_nothing() {
    let mut store = BookStore::new();
    store.create(input(1)).unwrap();
    let change = UpdateBook::new(Some("other".to_string()), None, None, None, None);
    assert_eq!(Err(RepositoryError::NotFound(2)), store.update(2, change));
    assert_eq!(vec![book(1, 1)], store.all());
    assert_eq!(Ok(book(2, 2)), store.create(input(2)));
}

#[test]
fn delete_then_find_reports_not_found() {
    let mut store = BookStore::new();
    store.create(input(1)).unwrap();
    store.create(input(2)).unwrap();
    assert_eq!(Ok(()), store.delete(1));
    assert_eq!(Err(RepositoryError::NotFound(1)), store.find(1));
    assert_eq!(vec![book(2, 2)], store.all());
    assert_eq!(1, store.len());
}

#[test]
fn delete_of_an_absent_id_changes_nothing() {
    let mut store = BookStore::new();
    store.create(input(1)).unwrap();
    assert_eq!(Err(RepositoryError::NotFound(5)), store.delete(5));
    assert_eq!(Ok(()), store.delete(1));
    assert_eq!(Err(RepositoryError::NotFound(1)), store.delete(1));
    assert_eq!(0, store.len());
}

#[test]
fn deleted_identifiers_are_never_assigned_again() {
    let mut store = BookStore::new();
    let mut seen: Vec<i32> = Vec::new();
    for round in 1..=10u32 {
        let created = store.create(input(round)).unwrap();
        assert!(!seen.contains(&created.id()));
        seen.push(created.id());
        if round % 2 == 0 {
            assert_eq!(Ok(()), store.delete(created.id()));
        }
    }
    assert_eq!(vec![1, 2, 3, 4, 5, 6, 7, 8, 9, 10], seen);
    assert_eq!(5, store.len());
}

#[test]
fn starting_after_continues_the_numbering() {
    let mut store = BookStore::starting_after(41);
    assert_eq!(0, store.len());
    assert_eq!(Ok(book(42, 1)), store.create(input(1)));
    let mut store = BookStore::starting_after(-3);
    assert_eq!(Ok(book(1, 1)), store.create(input(1)));
}

#[test]
fn create_fails_once_every_identifier_is_assigned() {
    let mut store = BookStore::starting_after(i32::MAX - 1);
    assert_eq!(Ok(book(i32::MAX, 1)), store.create(input(1)));
    let res = store.create(input(2));
    assert_eq!(Err(RepositoryError::IdsExhausted), res);
    assert_eq!(500, status_code(Endpoint::CreateBook, &res));
    assert_eq!(vec![book(i32::MAX, 1)], store.all());
    assert_eq!(Ok(()), store.delete(i32::MAX));
    assert_eq!(Err(RepositoryError::IdsExhausted), store.create(input(3)));
    assert_eq!(0, store.len());
}

#[test]
fn clones_of_inputs_and_books_are_equal_to_them() {
    let payload = input(4);
    assert_eq!(payload, payload.clone());
    let b = book(9, 4);
    assert_eq!(b, b.clone());
    assert_eq!(b, payload.into_book(9));
    let change = UpdateBook::new(Some("t".to_string()), None, None, Some(2), None);
    assert_eq!(change, change.clone());
}

#[test]
fn updated_builds_the_changed_book_under_the_given_id() {
    let b = book(3, 1);
    let change = UpdateBook::new(None, None, Some("someone".to_string()), None, None);
    let expected = Book::new(
        3,
        "name1".to_string(),
        "isbn1".to_string(),
        "someone".to_string(),
        1,
        "publisher1".to_string(),
    );
    assert_eq!(expected, b.updated(3, change));
}

#[test]
fn each_endpoint_has_its_status() {
    let ok: Result<(), RepositoryError> = Ok(());
    assert_eq!(201, status_code(Endpoint::CreateBook, &ok));
    assert_eq!(200, status_code(Endpoint::FindBook, &ok));
    assert_eq!(200, status_code(Endpoint::AllBooks, &ok));
    assert_eq!(201, status_code(Endpoint::UpdateBook, &ok));
    assert_eq!(204, status_code(Endpoint::DeleteBook, &ok));
    let missing: Result<(), RepositoryError> = Err(RepositoryError::NotFound(3));
    assert_eq!(404, status_code(Endpoint::FindBook, &missing));
    assert_eq!(404, status_code(Endpoint::UpdateBook, &missing));
    assert_eq!(404, status_code(Endpoint::DeleteBook, &missing));
    let full: Result<(), RepositoryError> = Err(RepositoryError::IdsExhausted);
    assert_eq!(500, status_code(Endpoint::CreateBook, &full));
    assert_eq!(400, BAD_REQUEST);
}
