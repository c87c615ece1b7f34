//! The parts of candidate ranking that compare terms rather than scores: which
//! candidates a deleted term blocks, and the ranker's error.

use vstd::prelude::*;

verus! {

/// A refused ranking request or configuration, naming the field.
#[derive(Debug, Clone, PartialEq, Eq)]
pub struct RankerError {
    field: &'static str,
    message: &'static str,
}

impl RankerError {
    pub closed spec fn field_spec(&self) -> Seq<char> {
        self.field@
    }

    pub closed spec fn message_spec(&self) -> Seq<char> {
        self.message@
    }

    pub fn invalid(field: &'static str, message: &'static str) -> (r: Self)
        ensures
            r.field_spec() == field@,
            r.message_spec() == message@,
    {
        RankerError { field, message }
    }

    pub fn field(&self) -> (r: &'static str)
        ensures
            r@ == self.field_spec(),
    {
        self.field
    }

    pub fn message(&self) -> (r: &'static str)
        ensures
            r@ == self.message_spec(),
    {
        self.message
    }
}

/// A term the user deleted, which blocks the candidates it names.
#[derive(Debug, Clone, PartialEq, Eq)]
pub struct DeletedTermSummary {
    pub input_code: String,
    pub text: String,
    pub reading: Option<String>,
}

pub open spec fn optional_text(s: Option<String>) -> Option<Seq<char>> {
    match s {
        Some(t) => Some(t@),
        None => None,
    }
}

pub open spec fn optional_str(s: Option<&str>) -> Option<Seq<char>> {
    match s {
        Some(t) => Some(t@),
        None => None,
    }
}

impl DeletedTermSummary {
    pub fn new(input_code: String, text: String, reading: Option<String>) -> (r: Self)
        ensures
            r.input_code@ == input_code@,
            r.text@ == text@,
            optional_text(r.reading) == optional_text(reading),
    {
        DeletedTermSummary { input_code, text, reading }
    }
}

/// Two readings conflict only when both are given and differ; a missing reading
/// matches any.
pub open spec fn readings_match(left: Option<Seq<char>>, right: Option<Seq<char>>) -> bool {
    match (left, right) {
        (Some(l), Some(r)) => l == r,
        _ => true,
    }
}

pub fn reading_matches(left: Option<&str>, right: Option<&str>) -> (r: bool)
    ensures
        r == readings_match(optional_str(left), optional_str(right)),
{
    match (left, right) {
        (Some(l), Some(r)) => crate::text::same_text(l, r),
        _ => true,
    }
}

/// A deleted term blocks a candidate of the same input code and text whose
/// reading does not conflict with the term's.
pub open spec fn blocks(
    deleted: DeletedTermSummary,
    input_code: Seq<char>,
    text: Seq<char>,
    reading: Option<Seq<char>>,
) -> bool {
    deleted.input_code@ == input_code && deleted.text@ == text && readings_match(
        optional_text(deleted.reading),
        reading,
    )
}

pub fn deleted_term_blocks(
    deleted: &DeletedTermSummary,
    input_code: &str,
    text: &str,
    reading: Option<&str>,
) -> (r: bool)
    ensures
        r == blocks(*deleted, input_code@, text@, optional_str(reading)),
{
    let own = match &deleted.reading {
        Some(t) => Some(t.as_str()),
        None => None,
    };
    crate::text::same_text(deleted.input_code.as_str(), input_code) && crate::text::same_text(
        deleted.text.as_str(),
        text,
    ) && reading_matches(own, reading)
}

/// Whether any deleted term blocks the candidate.
pub fn is_blocked_by_deleted(
    deleted_terms: &Vec<DeletedTermSummary>,
    input_code: &str,
    text: &str,
    reading: Option<&str>,
) -> (r: bool)
    ensures
        r == exists|i: int|
            0 <= i < deleted_terms@.len() && blocks(
                #[trigger] deleted_terms@[i],
                input_code@,
                text@,
                optional_str(reading),
            ),
{
    let mut i: usize = 0;
    while i < deleted_terms.len()
        invariant
            i <= deleted_terms@.len(),
            forall|k: int|
                0 <= k < i ==> !blocks(#[trigger] deleted_terms@[k], input_code@, text@, optional_str(reading)),
        decreases deleted_terms@.len() - i,
    {
        if deleted_term_blocks(&deleted_terms[i], input_code, text, reading) {
            return true;
        }
        i = i + 1;
    }
    false
}

} // verus!
