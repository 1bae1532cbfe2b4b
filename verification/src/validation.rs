//! The rules that the fields of a book must meet before they reach a
//! repository: every text is between 1 and 100 characters long, and a
//! revision number is at least 1.

use vstd::prelude::*;
use vstd::string::StrSliceExecFns;

use crate::book::{text_of, BookFields, CreateBook, UpdateBook, UpdateFields};

verus! {

/// The greatest number of characters that a text field may hold.
pub const MAX_TEXT_LENGTH: usize = 100;

/// The smallest revision number that a book may have.
pub const MIN_REVISION_NUMBER: u32 = 1;

/// The descriptive fields of a book.
#[derive(Clone, Copy, Debug, PartialEq, Eq, Structural)]
pub enum Field {
    Name,
    IsbnCode,
    Author,
    RevisionNumber,
    Publisher,
}

/// The rules that a field can break.
#[derive(Clone, Copy, Debug, PartialEq, Eq, Structural)]
pub enum Rule {
    /// A text must hold at least one character.
    NotEmpty,
    /// A text must hold no more than `MAX_TEXT_LENGTH` characters.
    MaxLength,
    /// A revision number must be at least `MIN_REVISION_NUMBER`.
    MinRevision,
}

/// A rule that a field breaks.
#[derive(Clone, Copy, Debug, PartialEq, Eq, Structural)]
pub struct Violation {
    pub field: Field,
    pub rule: Rule,
}

/// The text is neither empty nor too long.
pub open spec fn valid_text(text: Seq<char>) -> bool {
    1 <= text.len() <= MAX_TEXT_LENGTH
}

/// The revision number is not below the minimum.
pub open spec fn valid_revision(revision_number: u32) -> bool {
    revision_number >= MIN_REVISION_NUMBER
}

/// Every field meets its rule.
pub open spec fn valid_fields(fields: BookFields) -> bool {
    &&& valid_text(fields.name)
    &&& valid_text(fields.isbn_code)
    &&& valid_text(fields.author)
    &&& valid_revision(fields.revision_number)
    &&& valid_text(fields.publisher)
}

/// Every field that the change supplies meets its rule.
pub open spec fn valid_change(change: UpdateFields) -> bool {
    &&& change.name matches Some(text) ==> valid_text(text)
    &&& change.isbn_code matches Some(text) ==> valid_text(text)
    &&& change.author matches Some(text) ==> valid_text(text)
    &&& change.revision_number matches Some(n) ==> valid_revision(n)
    &&& change.publisher matches Some(text) ==> valid_text(text)
}

/// The rule that `text` breaks as the value of `field`, if any.
pub open spec fn text_violations(field: Field, text: Seq<char>) -> Seq<Violation> {
    if text.len() < 1 {
        seq![Violation { field, rule: Rule::NotEmpty }]
    } else if text.len() > MAX_TEXT_LENGTH {
        seq![Violation { field, rule: Rule::MaxLength }]
    } else {
        Seq::empty()
    }
}

/// The rule that `revision_number` breaks, if any.
pub open spec fn revision_violations(revision_number: u32) -> Seq<Violation> {
    if revision_number < MIN_REVISION_NUMBER {
        seq![Violation { field: Field::RevisionNumber, rule: Rule::MinRevision }]
    } else {
        Seq::empty()
    }
}

/// The rules that an optional text breaks: none where it is absent.
pub open spec fn optional_text_violations(field: Field, text: Option<Seq<char>>) -> Seq<
    Violation,
> {
    match text {
        Some(text) => text_violations(field, text),
        None => Seq::empty(),
    }
}

/// The rules that an optional revision number breaks: none where it is
/// absent.
pub open spec fn optional_revision_violations(revision_number: Option<u32>) -> Seq<Violation> {
    match revision_number {
        Some(n) => revision_violations(n),
        None => Seq::empty(),
    }
}

/// Every rule that `fields` breaks, field by field in the order name, ISBN
/// code, author, revision number, publisher.
pub open spec fn violations(fields: BookFields) -> Seq<Violation> {
    text_violations(Field::Name, fields.name) + text_violations(Field::IsbnCode, fields.isbn_code)
        + text_violations(Field::Author, fields.author) + revision_violations(
        fields.revision_number,
    ) + text_violations(Field::Publisher, fields.publisher)
}

/// Every rule that the supplied fields of `change` break, in the same order.
pub open spec fn change_violations(change: UpdateFields) -> Seq<Violation> {
    optional_text_violations(Field::Name, change.name) + optional_text_violations(
        Field::IsbnCode,
        change.isbn_code,
    ) + optional_text_violations(Field::Author, change.author) + optional_revision_violations(
        change.revision_number,
    ) + optional_text_violations(Field::Publisher, change.publisher)
}

/// Appends to `found` the rule that `text` breaks as the value of `field`.
fn check_text(field: Field, text: &String, found: &mut Vec<Violation>)
    ensures
        final(found)@ == old(found)@ + text_violations(field, text@),
{
    let length = text.as_str().unicode_len();
    if length < 1 {
        found.push(Violation { field, rule: Rule::NotEmpty });
    } else if length > MAX_TEXT_LENGTH {
        found.push(Violation { field, rule: Rule::MaxLength });
    }
    assert(found@ =~= old(found)@ + text_violations(field, text@));
}

/// Appends to `found` the rule that `revision_number` breaks.
fn check_revision(revision_number: u32, found: &mut Vec<Violation>)
    ensures
        final(found)@ == old(found)@ + revision_violations(revision_number),
{
    if revision_number < MIN_REVISION_NUMBER {
        found.push(Violation { field: Field::RevisionNumber, rule: Rule::MinRevision });
    }
    assert(found@ =~= old(found)@ + revision_violations(revision_number));
}

/// Appends to `found` the rule that an optional text breaks.
fn check_optional_text(field: Field, text: &Option<String>, found: &mut Vec<Violation>)
    ensures
        final(found)@ == old(found)@ + optional_text_violations(field, text_of(*text)),
{
    match text {
        Some(text) => check_text(field, text, found),
        None => {
            assert(found@ =~= old(found)@ + Seq::<Violation>::empty());
        },
    }
}

impl CreateBook {
    /// Checks every field against its rule. Succeeds exactly when all fields
    /// are valid, and otherwise reports every rule that is broken.
    pub fn validate(&self) -> (res: Result<(), Vec<Violation>>)
        ensures
            res is Ok <==> valid_fields(self@),
            res matches Err(found) ==> found@ == violations(self@),
    {
        let mut found: Vec<Violation> = Vec::new();
        check_text(Field::Name, self.name(), &mut found);
        check_text(Field::IsbnCode, self.isbn_code(), &mut found);
        check_text(Field::Author, self.author(), &mut found);
        check_revision(self.revision_number(), &mut found);
        check_text(Field::Publisher, self.publisher(), &mut found);
        proof {
            assert(found@ =~= violations(self@));
            lemma_valid_fields_break_no_rule(self@);
        }
        if found.len() == 0 {
            Ok(())
        } else {
            Err(found)
        }
    }
}

impl UpdateBook {
    /// Checks every supplied field against its rule. Succeeds exactly when
    /// all of them are valid, and otherwise reports every rule that is broken.
    pub fn validate(&self) -> (res: Result<(), Vec<Violation>>)
        ensures
            res is Ok <==> valid_change(self@),
            res matches Err(found) ==> found@ == change_violations(self@),
    {
        let mut found: Vec<Violation> = Vec::new();
        check_optional_text(Field::Name, self.name(), &mut found);
        check_optional_text(Field::IsbnCode, self.isbn_code(), &mut found);
        check_optional_text(Field::Author, self.author(), &mut found);
        match self.revision_number() {
            Some(n) => check_revision(n, &mut found),
            None => {},
        }
        check_optional_text(Field::Publisher, self.publisher(), &mut found);
        proof {
            assert(found@ =~= change_violations(self@));
            lemma_valid_change_breaks_no_rule(self@);
        }
        if found.len() == 0 {
            Ok(())
        } else {
            Err(found)
        }
    }
}

/// Fields are valid exactly when they break no rule.
pub proof fn lemma_valid_fields_break_no_rule(fields: BookFields)
    ensures
        valid_fields(fields) <==> violations(fields).len() == 0,
{
}

/// A change is valid exactly when its supplied fields break no rule.
pub proof fn lemma_valid_change_breaks_no_rule(change: UpdateFields)
    ensures
        valid_change(change) <==> change_violations(change).len() == 0,
{
}

/// A valid change applied to valid fields gives valid fields.
pub proof fn lemma_valid_change_keeps_fields_valid(fields: BookFields, change: UpdateFields)
    requires
        valid_fields(fields),
        valid_change(change),
    ensures
        valid_fields(change.apply(fields)),
{
}

} // verus!
