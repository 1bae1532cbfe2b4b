//! Book records and the inputs that create and change them.

use vstd::prelude::*;

verus! {

/// The five descriptive fields of a book, as mathematical values.
pub struct BookFields {
    pub name: Seq<char>,
    pub isbn_code: Seq<char>,
    pub author: Seq<char>,
    pub revision_number: u32,
    pub publisher: Seq<char>,
}

/// A stored book as a mathematical value: its identifier and its descriptive fields.
pub struct BookView {
    pub id: i32,
    pub fields: BookFields,
}

/// A partial change to the descriptive fields: `Some` overwrites, `None` keeps.
pub struct UpdateFields {
    pub name: Option<Seq<char>>,
    pub isbn_code: Option<Seq<char>>,
    pub author: Option<Seq<char>>,
    pub revision_number: Option<u32>,
    pub publisher: Option<Seq<char>>,
}

impl UpdateFields {
    /// The fields that result from applying this change to `current`.
    pub open spec fn apply(self, current: BookFields) -> BookFields {
        BookFields {
            name: match self.name {
                Some(v) => v,
                None => current.name,
            },
            isbn_code: match self.isbn_code {
                Some(v) => v,
                None => current.isbn_code,
            },
            author: match self.author {
                Some(v) => v,
                None => current.author,
            },
            revision_number: match self.revision_number {
                Some(v) => v,
                None => current.revision_number,
            },
            publisher: match self.publisher {
                Some(v) => v,
                None => current.publisher,
            },
        }
    }

    /// Every field that this change supplies has the supplied value in `fields`.
    pub open spec fn reflected_in(self, fields: BookFields) -> bool {
        &&& self.name matches Some(v) ==> fields.name == v
        &&& self.isbn_code matches Some(v) ==> fields.isbn_code == v
        &&& self.author matches Some(v) ==> fields.author == v
        &&& self.revision_number matches Some(v) ==> fields.revision_number == v
        &&& self.publisher matches Some(v) ==> fields.publisher == v
    }

    /// Every field that this change omits has the same value in `before` and `after`.
    pub open spec fn omitted_kept(self, before: BookFields, after: BookFields) -> bool {
        &&& self.name is None ==> after.name == before.name
        &&& self.isbn_code is None ==> after.isbn_code == before.isbn_code
        &&& self.author is None ==> after.author == before.author
        &&& self.revision_number is None ==> after.revision_number == before.revision_number
        &&& self.publisher is None ==> after.publisher == before.publisher
    }
}

/// The characters of an optional string.
pub open spec fn text_of(text: Option<String>) -> Option<Seq<char>> {
    match text {
        Some(v) => Some(v@),
        None => None,
    }
}

/// A stored book: an identifier assigned by the store and five descriptive fields.
#[derive(Debug, PartialEq, Eq)]
pub struct Book {
    id: i32,
    name: String,
    isbn_code: String,
    author: String,
    revision_number: u32,
    publisher: String,
}

impl View for Book {
    type V = BookView;

    closed spec fn view(&self) -> BookView {
        BookView {
            id: self.id,
            fields: BookFields {
                name: self.name@,
                isbn_code: self.isbn_code@,
                author: self.author@,
                revision_number: self.revision_number,
                publisher: self.publisher@,
            },
        }
    }
}

impl Clone for Book {
    fn clone(&self) -> (res: Self)
        ensures
            res@ == self@,
    {
        Book {
            id: self.id,
            name: self.name.clone(),
            isbn_code: self.isbn_code.clone(),
            author: self.author.clone(),
            revision_number: self.revision_number,
            publisher: self.publisher.clone(),
        }
    }
}

impl Book {
    /// Builds a book from its identifier and descriptive fields.
    pub fn new(
        id: i32,
        name: String,
        isbn_code: String,
        author: String,
        revision_number: u32,
        publisher: String,
    ) -> (res: Self)
        ensures
            res@ == (BookView {
                id,
                fields: BookFields {
                    name: name@,
                    isbn_code: isbn_code@,
                    author: author@,
                    revision_number,
                    publisher: publisher@,
                },
            }),
    {
        Book { id, name, isbn_code, author, revision_number, publisher }
    }

    /// The identifier under which the store keeps this book.
    pub fn id(&self) -> (res: i32)
        ensures
            res == self@.id,
    {
        self.id
    }

    /// The book's title.
    pub fn name(&self) -> (res: &String)
        ensures
            res@ == self@.fields.name,
    {
        &self.name
    }

    /// The book's ISBN code.
    pub fn isbn_code(&self) -> (res: &String)
        ensures
            res@ == self@.fields.isbn_code,
    {
        &self.isbn_code
    }

    /// The book's author.
    pub fn author(&self) -> (res: &String)
        ensures
            res@ == self@.fields.author,
    {
        &self.author
    }

    /// The book's revision number.
    pub fn revision_number(&self) -> (res: u32)
        ensures
            res == self@.fields.revision_number,
    {
        self.revision_number
    }

    /// The book's publisher.
    pub fn publisher(&self) -> (res: &String)
        ensures
            res@ == self@.fields.publisher,
    {
        &self.publisher
    }

    /// The book stored under `id` when `change` is applied to this one.
    pub fn updated(&self, id: i32, change: UpdateBook) -> (res: Book)
        ensures
            res@ == (BookView { id, fields: change@.apply(self@.fields) }),
    {
        let name = match change.name {
            Some(v) => v,
            None => self.name.clone(),
        };
        let isbn_code = match change.isbn_code {
            Some(v) => v,
            None => self.isbn_code.clone(),
        };
        let author = match change.author {
            Some(v) => v,
            None => self.author.clone(),
        };
        let revision_number = match change.revision_number {
            Some(v) => v,
            None => self.revision_number,
        };
        let publisher = match change.publisher {
            Some(v) => v,
            None => self.publisher.clone(),
        };
        Book { id, name, isbn_code, author, revision_number, publisher }
    }
}

/// The descriptive fields of a book to be created; all are required.
#[derive(Debug, PartialEq, Eq)]
pub struct CreateBook {
    name: String,
    isbn_code: String,
    author: String,
    revision_number: u32,
    publisher: String,
}

impl View for CreateBook {
    type V = BookFields;

    closed spec fn view(&self) -> BookFields {
        BookFields {
            name: self.name@,
            isbn_code: self.isbn_code@,
            author: self.author@,
            revision_number: self.revision_number,
            publisher: self.publisher@,
        }
    }
}

impl Clone for CreateBook {
    fn clone(&self) -> (res: Self)
        ensures
            res@ == self@,
    {
        CreateBook {
            name: self.name.clone(),
            isbn_code: self.isbn_code.clone(),
            author: self.author.clone(),
            revision_number: self.revision_number,
            publisher: self.publisher.clone(),
        }
    }
}

impl CreateBook {
    /// Builds a creation input from the five descriptive fields.
    pub fn new(
        name: String,
        isbn_code: String,
        author: String,
        revision_number: u32,
        publisher: String,
    ) -> (res: Self)
        ensures
            res@ == (BookFields {
                name: name@,
                isbn_code: isbn_code@,
                author: author@,
                revision_number,
                publisher: publisher@,
            }),
    {
        CreateBook { name, isbn_code, author, revision_number, publisher }
    }

    /// The title of the book to create.
    pub fn name(&self) -> (res: &String)
        ensures
            res@ == self@.name,
    {
        &self.name
    }

    /// The ISBN code of the book to create.
    pub fn isbn_code(&self) -> (res: &String)
        ensures
            res@ == self@.isbn_code,
    {
        &self.isbn_code
    }

    /// The author of the book to create.
    pub fn author(&self) -> (res: &String)
        ensures
            res@ == self@.author,
    {
        &self.author
    }

    /// The revision number of the book to create.
    pub fn revision_number(&self) -> (res: u32)
        ensures
            res == self@.revision_number,
    {
        self.revision_number
    }

    /// The publisher of the book to create.
    pub fn publisher(&self) -> (res: &String)
        ensures
            res@ == self@.publisher,
    {
        &self.publisher
    }

    /// The book that holds these fields under the identifier `id`.
    pub fn into_book(self, id: i32) -> (res: Book)
        ensures
            res@ == (BookView { id, fields: self@ }),
    {
        Book {
            id,
            name: self.name,
            isbn_code: self.isbn_code,
            author: self.author,
            revision_number: self.revision_number,
            publisher: self.publisher,
        }
    }
}

/// A partial change to a book: a field that is `Some` overwrites the stored one,
/// a field that is `None` leaves it as it is.
#[derive(Debug, PartialEq, Eq)]
pub struct UpdateBook {
    name: Option<String>,
    isbn_code: Option<String>,
    author: Option<String>,
    revision_number: Option<u32>,
    publisher: Option<String>,
}

impl View for UpdateBook {
    type V = UpdateFields;

    closed spec fn view(&self) -> UpdateFields {
        UpdateFields {
            name: text_of(self.name),
            isbn_code: text_of(self.isbn_code),
            author: text_of(self.author),
            revision_number: self.revision_number,
            publisher: text_of(self.publisher),
        }
    }
}

impl Clone for UpdateBook {
    fn clone(&self) -> (res: Self)
        ensures
            res@ == self@,
    {
        UpdateBook {
            name: match &self.name {
                Some(v) => Some(v.clone()),
                None => None,
            },
            isbn_code: match &self.isbn_code {
                Some(v) => Some(v.clone()),
                None => None,
            },
            author: match &self.author {
                Some(v) => Some(v.clone()),
                None => None,
            },
            revision_number: self.revision_number,
            publisher: match &self.publisher {
                Some(v) => Some(v.clone()),
                None => None,
            },
        }
    }
}

impl UpdateBook {
    /// Builds a change from the fields to overwrite.
    pub fn new(
        name: Option<String>,
        isbn_code: Option<String>,
        author: Option<String>,
        revision_number: Option<u32>,
        publisher: Option<String>,
    ) -> (res: Self)
        ensures
            res@ == (UpdateFields {
                name: text_of(name),
                isbn_code: text_of(isbn_code),
                author: text_of(author),
                revision_number,
                publisher: text_of(publisher),
            }),
    {
        UpdateBook { name, isbn_code, author, revision_number, publisher }
    }

    /// The new title, if the change supplies one.
    pub fn name(&self) -> (res: &Option<String>)
        ensures
            text_of(*res) == self@.name,
    {
        &self.name
    }

    /// The new ISBN code, if the change supplies one.
    pub fn isbn_code(&self) -> (res: &Option<String>)
        ensures
            text_of(*res) == self@.isbn_code,
    {
        &self.isbn_code
    }

    /// The new author, if the change supplies one.
    pub fn author(&self) -> (res: &Option<String>)
        ensures
            text_of(*res) == self@.author,
    {
        &self.author
    }

    /// The new revision number, if the change supplies one.
    pub fn revision_number(&self) -> (res: Option<u32>)
        ensures
            res == self@.revision_number,
    {
        self.revision_number
    }

    /// The new publisher, if the change supplies one.
    pub fn publisher(&self) -> (res: &Option<String>)
        ensures
            text_of(*res) == self@.publisher,
    {
        &self.publisher
    }
}

} // verus!
