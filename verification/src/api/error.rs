//! The errors that endpoints answer with, and the HTTP answer of each.

use vstd::prelude::*;
use vstd::string::StringExecFns;

use crate::api::middleware::console::{spec_is_client_error, spec_is_server_error};
use crate::text::push_char;

verus! {

broadcast use vstd::string::group_string_axioms;

/// An error of an endpoint. Errors that come from the database, from input
/// validation or from a malformed JSON body hold the text that describes them.
#[derive(Debug)]
pub enum Error {
    DatabaseError(String),
    ValidationError(String),
    JsonRejection(String),
    Unauthorized,
    NotFound(String),
    Conflict,
    BadRequest(String),
    InternalServerError(String),
}

/// The status code and the body text of an error's HTTP answer.
pub struct ErrorResponse {
    pub status: u16,
    pub message: String,
}

/// `text` with every line feed replaced by a comma and a space.
pub open spec fn replace_newlines(text: Seq<char>) -> Seq<char>
    decreases text.len(),
{
    if text.len() == 0 {
        Seq::empty()
    } else {
        replace_newlines(text.drop_last()) + if text.last() == '\n' {
            seq![',', ' ']
        } else {
            seq![text.last()]
        }
    }
}

/// Replaces every line feed of `text` by ", ".
pub fn replace_newlines_in(text: &str) -> (r: String)
    ensures
        r@ == replace_newlines(text@),
{
    let mut out = String::new();
    let sep: &str = ", ";
    proof {
        reveal_strlit(", ");
    }
    for c in it: text.chars()
        invariant
            it.seq() == text@,
            sep@ == seq![',', ' '],
            out@ == replace_newlines(text@.take(it.index() as int)),
    {
        proof {
            assert(text@.take(it.index() + 1).drop_last() =~= text@.take(it.index() as int));
        }
        if c == '\n' {
            out.append(sep);
        } else {
            push_char(&mut out, c);
        }
    }
    proof {
        assert(text@.take(text@.len() as int) =~= text@);
    }
    out
}

/// The text that describes an error: the wrapped description for the errors
/// that carry one, and a fixed sentence for the others.
pub open spec fn error_text(e: Error) -> Seq<char> {
    match e {
        Error::DatabaseError(t) => t@,
        Error::ValidationError(t) => t@,
        Error::JsonRejection(t) => t@,
        Error::Unauthorized => "Invalid login or password"@,
        Error::NotFound(t) => t@,
        Error::Conflict => "Resource already exists"@,
        Error::BadRequest(t) => t@,
        Error::InternalServerError(t) => t@,
    }
}

/// The HTTP status code that answers an error.
pub open spec fn error_status(e: Error) -> u16 {
    match e {
        Error::DatabaseError(_) => 500,
        Error::ValidationError(_) => 400,
        Error::JsonRejection(_) => 400,
        Error::Unauthorized => 401,
        Error::NotFound(_) => 404,
        Error::Conflict => 409,
        Error::BadRequest(_) => 400,
        Error::InternalServerError(_) => 500,
    }
}

/// The body text that answers an error. A validation error is introduced by
/// a sentence and bracketed, and its line feeds become ", "; every other
/// error answers with its own text.
pub open spec fn error_message(e: Error) -> Seq<char> {
    match e {
        Error::ValidationError(t) => replace_newlines(
            "Input validation error: ["@ + t@ + "]"@,
        ),
        _ => error_text(e),
    }
}

impl Error {
    /// The text that describes this error.
    pub fn text(&self) -> (r: String)
        ensures
            r@ == error_text(*self),
    {
        match self {
            Error::DatabaseError(t) => t.clone(),
            Error::ValidationError(t) => t.clone(),
            Error::JsonRejection(t) => t.clone(),
            Error::Unauthorized => String::from_str("Invalid login or password"),
            Error::NotFound(t) => t.clone(),
            Error::Conflict => String::from_str("Resource already exists"),
            Error::BadRequest(t) => t.clone(),
            Error::InternalServerError(t) => t.clone(),
        }
    }

    /// The HTTP answer to this error: its status code and its body text.
    pub fn into_response(self) -> (r: ErrorResponse)
        ensures
            r.status == error_status(self),
            r.message@ == error_message(self),
    {
        let status: u16 = match &self {
            Error::DatabaseError(_) => 500,
            Error::ValidationError(_) => 400,
            Error::JsonRejection(_) => 400,
            Error::Unauthorized => 401,
            Error::NotFound(_) => 404,
            Error::Conflict => 409,
            Error::BadRequest(_) => 400,
            Error::InternalServerError(_) => 500,
        };
        let message = match &self {
            Error::ValidationError(t) => {
                let framed = String::from_str("Input validation error: [").concat(t.as_str()).concat(
                    "]",
                );
                replace_newlines_in(framed.as_str())
            },
            _ => self.text(),
        };
        ErrorResponse { status, message }
    }
}

/// No line feed is left after the replacement.
pub proof fn lemma_replace_newlines_leaves_no_newline(text: Seq<char>)
    ensures
        !replace_newlines(text).contains('\n'),
    decreases text.len(),
{
    if text.len() > 0 {
        lemma_replace_newlines_leaves_no_newline(text.drop_last());
        let head = replace_newlines(text.drop_last());
        let tail = if text.last() == '\n' {
            seq![',', ' ']
        } else {
            seq![text.last()]
        };
        assert forall|i: int| 0 <= i < (head + tail).len() implies (head + tail)[i] != '\n' by {
            if i < head.len() {
                assert((head + tail)[i] == head[i]);
            } else {
                assert((head + tail)[i] == tail[i - head.len()]);
            }
        }
    }
}

/// Text without a line feed is left as it is.
pub proof fn lemma_replace_newlines_keeps_text_without_newline(text: Seq<char>)
    requires
        !text.contains('\n'),
    ensures
        replace_newlines(text) == text,
    decreases text.len(),
{
    if text.len() > 0 {
        assert(!text.drop_last().contains('\n')) by {
            if text.drop_last().contains('\n') {
                let i = choose|i: int| 0 <= i < text.drop_last().len() && text.drop_last()[i] == '\n';
                assert(text[i] == '\n');
            }
        }
        lemma_replace_newlines_keeps_text_without_newline(text.drop_last());
        assert(text.last() != '\n') by {
            assert(text[text.len() - 1] == text.last());
        }
        assert(text.drop_last() + seq![text.last()] =~= text);
    }
}

/// The answer to a validation error is a single line, whatever the
/// validation text holds.
pub proof fn lemma_validation_answer_is_one_line(text: String)
    ensures
        !error_message(Error::ValidationError(text)).contains('\n'),
{
    lemma_replace_newlines_leaves_no_newline("Input validation error: ["@ + text@ + "]"@);
}

/// Every error is answered with a status code of the client-error or of the
/// server-error class.
pub proof fn lemma_error_status_is_an_error_class(e: Error)
    ensures
        spec_is_client_error(error_status(e)) || spec_is_server_error(error_status(e)),
{
}

/// Every error but a validation error is answered with its own text.
pub proof fn lemma_answer_is_the_error_text(e: Error)
    requires
        !(e is ValidationError),
    ensures
        error_message(e) == error_text(e),
{
}

/// Replacing line feeds in two texts one after the other is replacing them
/// in the two texts joined.
pub proof fn lemma_replace_newlines_of_concat(a: Seq<char>, b: Seq<char>)
    ensures
        replace_newlines(a + b) == replace_newlines(a) + replace_newlines(b),
    decreases b.len(),
{
    if b.len() == 0 {
        assert(a + b =~= a);
        assert(replace_newlines(a) + replace_newlines(b) =~= replace_newlines(a));
    } else {
        lemma_replace_newlines_of_concat(a, b.drop_last());
        assert((a + b).drop_last() =~= a + b.drop_last());
        assert((a + b).last() == b.last());
        let tail = if b.last() == '\n' {
            seq![',', ' ']
        } else {
            seq![b.last()]
        };
        assert(replace_newlines(a) + replace_newlines(b.drop_last()) + tail =~= replace_newlines(a)
            + (replace_newlines(b.drop_last()) + tail));
    }
}

/// A line feed becomes ", " and every other character stays as it is.
pub proof fn lemma_replace_newlines_of_char(c: char)
    ensures
        replace_newlines(seq![c]) == if c == '\n' {
            seq![',', ' ']
        } else {
            seq![c]
        },
{
    assert(seq![c].drop_last() =~= Seq::<char>::empty());
    assert(seq![c].last() == c);
    assert(replace_newlines(Seq::<char>::empty()) == Seq::<char>::empty());
    assert(replace_newlines(seq![c]) == replace_newlines(seq![c].drop_last()) + if c == '\n' {
        seq![',', ' ']
    } else {
        seq![c]
    });
    assert(Seq::<char>::empty() + seq![',', ' '] =~= seq![',', ' ']);
    assert(Seq::<char>::empty() + seq![c] =~= seq![c]);
}

/// The answer to a validation error has status 400, and its body is the
/// validation text, with its line feeds replaced by ", ", after "Input
/// validation error: [" and before "]"; a text without a line feed stands in
/// the answer as it is.
pub proof fn lemma_validation_answer(text: String)
    ensures
        error_status(Error::ValidationError(text)) == 400,
        error_message(Error::ValidationError(text)) == "Input validation error: ["@
            + replace_newlines(text@) + "]"@,
        !text@.contains('\n') ==> error_message(Error::ValidationError(text))
            == "Input validation error: ["@ + text@ + "]"@,
{
    let prefix = "Input validation error: ["@;
    let suffix = "]"@;
    reveal_strlit("Input validation error: [");
    reveal_strlit("]");
    assert(!prefix.contains('\n'));
    assert(!suffix.contains('\n'));
    lemma_replace_newlines_keeps_text_without_newline(prefix);
    lemma_replace_newlines_keeps_text_without_newline(suffix);
    lemma_replace_newlines_of_concat(prefix + text@, suffix);
    lemma_replace_newlines_of_concat(prefix, text@);
    if !text@.contains('\n') {
        lemma_replace_newlines_keeps_text_without_newline(text@);
    }
}

/// The status code of each error.
pub proof fn lemma_error_statuses(e: Error)
    ensures
        e is DatabaseError ==> error_status(e) == 500,
        e is ValidationError ==> error_status(e) == 400,
        e is JsonRejection ==> error_status(e) == 400,
        e is Unauthorized ==> error_status(e) == 401,
        e is NotFound ==> error_status(e) == 404,
        e is Conflict ==> error_status(e) == 409,
        e is BadRequest ==> error_status(e) == 400,
        e is InternalServerError ==> error_status(e) == 500,
{
}

} // verus!
