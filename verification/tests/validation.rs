use book_store::book::{CreateBook, UpdateBook};
use book_store::rejection::{parse_rejection, validation_rejection};
use book_store::validation::{Field, Rule, Violation, MAX_TEXT_LENGTH, MIN_REVISION_NUMBER};

fn text(length: usize) -> String {
    "a".repeat(length)
}

#[test]
fn fields_within_the_rules_are_valid() {
    let payload = CreateBook::new(
        "created_book".to_string(),
        "isbn_code".to_string(),
        "author".to_string(),
        1,
        "publisher".to_string(),
    );
    assert_eq!(Ok(()), payload.validate());
    let payload = CreateBook::new(text(1), text(100), text(50), u32::MAX, text(100));
    assert_eq!(Ok(()), payload.validate());
    assert_eq!(100, MAX_TEXT_LENGTH);
    assert_eq!(1, MIN_REVISION_NUMBER);
}

#[test]
fn an_empty_text_breaks_the_not_empty_rule() {
    let payload = CreateBook::new(String::new(), text(3), text(3), 1, text(3));
    assert_eq!(
        Err(vec![Violation { field: Field::Name, rule: Rule::NotEmpty }]),
        payload.validate()
    );
}

#[test]
fn a_text_of_101_characters_breaks_the_max_length_rule() {
    let payload = CreateBook::new(text(3), text(101), text(3), 1, text(3));
    assert_eq!(
        Err(vec![Violation { field: Field::IsbnCode, rule: Rule::MaxLength }]),
        payload.validate()
    );
}

#[test]
fn length_is_counted_in_characters() {
    let hundred = "\u{e9}".repeat(100);
    assert_eq!(200, hundred.len());
    let payload = CreateBook::new(hundred, text(3), text(3), 1, text(3));
    assert_eq!(Ok(()), payload.validate());
    let payload = CreateBook::new("\u{e9}".repeat(101), text(3), text(3), 1, text(3));
    assert_eq!(
        Err(vec![Violation { field: Field::Name, rule: Rule::MaxLength }]),
        payload.validate()
    );
}

#[test]
fn revision_zero_breaks_the_min_revision_rule() {
    let payload = CreateBook::new(text(3), text(3), text(3), 0, text(3));
    assert_eq!(
        Err(vec![Violation { field: Field::RevisionNumber, rule: Rule::MinRevision }]),
        payload.validate()
    );
}

#[test]
fn every_broken_rule_is_reported_in_field_order() {
    let payload = CreateBook::new(String::new(), text(101), String::new(), 0, text(200));
    assert_eq!(
        Err(vec![
            Violation { field: Field::Name, rule: Rule::NotEmpty },
            Violation { field: Field::IsbnCode, rule: Rule::MaxLength },
            Violation { field: Field::Author, rule: Rule::NotEmpty },
            Violation { field: Field::RevisionNumber, rule: Rule::MinRevision },
            Violation { field: Field::Publisher, rule: Rule::MaxLength },
        ]),
        payload.validate()
    );
}

#[test]
fn a_change_is_checked_only_where_it_supplies_a_field() {
    assert_eq!(Ok(()), UpdateBook::new(None, None, None, None, None).validate());
    assert_eq!(
        Ok(()),
        UpdateBook::new(Some(text(1)), None, Some(text(100)), Some(1), None).validate()
    );
    assert_eq!(
        Err(vec![
            Violation { field: Field::Name, rule: Rule::NotEmpty },
            Violation { field: Field::RevisionNumber, rule: Rule::MinRevision },
            Violation { field: Field::Publisher, rule: Rule::MaxLength },
        ]),
        UpdateBook::new(Some(String::new()), None, None, Some(0), Some(text(101))).validate()
    );
    assert_eq!(
        Err(vec![
            Violation { field: Field::IsbnCode, rule: Rule::MaxLength },
            Violation { field: Field::Author, rule: Rule::NotEmpty },
        ]),
        UpdateBook::new(None, Some(text(101)), Some(String::new()), None, None).validate()
    );
}

#[test]
fn a_parse_rejection_quotes_the_reason() {
    assert_eq!(
        (400, "json parse error: [missing field `name`]".to_string()),
        parse_rejection("missing field `name`")
    );
    assert_eq!((400, "json parse error: []".to_string()), parse_rejection(""));
    assert_eq!(
        (400, "json parse error: [a\nb]".to_string()),
        parse_rejection("a\nb")
    );
}

#[test]
fn a_validation_rejection_is_one_line() {
    assert_eq!(
        (400, "Validation error: [name: Can not be empty,author: Over string length]".to_string()),
        validation_rejection("name: Can not be empty\nauthor: Over string length")
    );
    assert_eq!(
        (400, "Validation error: [,,x,]".to_string()),
        validation_rejection("\n\nx\n")
    );
    assert_eq!(
        (400, "Validation error: [plain]".to_string()),
        validation_rejection("plain")
    );
    assert_eq!((400, "Validation error: []".to_string()), validation_rejection(""));
}
