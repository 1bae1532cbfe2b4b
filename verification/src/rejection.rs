//! What the service answers to a request that it turns away before the
//! repository is asked: the status and the text of the answer.

use vstd::prelude::*;
use vstd::string::StringExecFns;

use crate::status::BAD_REQUEST;

verus! {

/// `text` with every occurrence of the character `from` replaced by `to`.
pub open spec fn replaced(text: Seq<char>, from: char, to: Seq<char>) -> Seq<char>
    decreases text.len(),
{
    if text.len() == 0 {
        Seq::empty()
    } else {
        replaced(text.drop_last(), from, to) + if text.last() == from {
            to
        } else {
            seq![text.last()]
        }
    }
}

/// The text of the answer to a body that could not be read as JSON.
pub open spec fn parse_rejection_text(reason: Seq<char>) -> Seq<char> {
    "json parse error: ["@ + reason + "]"@
}

/// The text of the answer to a body that broke a validation rule: the reason
/// on one line, with a comma wherever it had a line break.
pub open spec fn validation_rejection_text(reason: Seq<char>) -> Seq<char> {
    "Validation error: ["@ + replaced(reason, '\n', ","@) + "]"@
}

/// Calls `str::replace` of the standard library with a character as the
/// pattern. Its contract is not proved: it states what the documentation of
/// `replace` says, that the result is a new string in which every match of
/// the pattern, here every occurrence of `from`, is replaced by `to`.
#[verifier::external_body]
fn replace_char(text: &str, from: char, to: &str) -> (res: String)
    ensures
        res@ == replaced(text@, from, to@),
{
    text.replace(from, to)
}

/// The answer to a body that could not be read as JSON: status 400 and a
/// text that quotes the reason.
pub fn parse_rejection(reason: &str) -> (res: (u16, String))
    ensures
        res.0 == BAD_REQUEST,
        res.1@ == parse_rejection_text(reason@),
{
    let mut message = String::from_str("json parse error: [");
    message.append(reason);
    message.append("]");
    (BAD_REQUEST, message)
}

/// The answer to a body that broke a validation rule: status 400 and a
/// one-line text that quotes the reason.
pub fn validation_rejection(reason: &str) -> (res: (u16, String))
    ensures
        res.0 == BAD_REQUEST,
        res.1@ == validation_rejection_text(reason@),
{
    let mut message = String::from_str("Validation error: [");
    let one_line = replace_char(reason, '\n', ",");
    message.append(one_line.as_str());
    message.append("]");
    (BAD_REQUEST, message)
}

/// A replacement text that holds no line break leaves none in the result
/// when line breaks are replaced.
pub proof fn lemma_replaced_holds_no_line_break(text: Seq<char>, to: Seq<char>)
    requires
        !to.contains('\n'),
    ensures
        !replaced(text, '\n', to).contains('\n'),
    decreases text.len(),
{
    if text.len() > 0 {
        lemma_replaced_holds_no_line_break(text.drop_last(), to);
        let head = replaced(text.drop_last(), '\n', to);
        let tail = if text.last() == '\n' {
            to
        } else {
            seq![text.last()]
        };
        assert(replaced(text, '\n', to) == head + tail);
        if (head + tail).contains('\n') {
            let i = choose|i: int| 0 <= i < (head + tail).len() && (head + tail)[i] == '\n';
            if i < head.len() {
                assert(head[i] == '\n');
                assert(head.contains('\n'));
            } else {
                assert(tail[i - head.len()] == '\n');
                assert(tail.contains('\n'));
            }
        }
    }
}

} // verus!
