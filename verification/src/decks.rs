//! Decks of cards and their validation rules.

use vstd::prelude::*;
use vstd::utf8::encode_utf8;

use crate::error::AppError;
use crate::error::code_title_too_long;
use crate::error::code_title_too_short;
use crate::text::byte_len;

verus! {

/// A deck row as stored.
#[derive(Debug)]
pub struct Deck {
    pub id: i64,
    pub title: String,
    pub algorithm_id: i64,
    pub template_id: i64,
    pub created_at: i64,
    pub updated_at: Option<i64>,
}

/// Values for creating a deck.
#[derive(Debug)]
pub struct InsertDeckData {
    pub title: String,
    pub algorithm_id: i64,
    pub template_id: i64,
}

/// New values for an existing deck.
#[derive(Debug)]
pub struct UpdateDeckValues {
    pub title: String,
    pub algorithm_id: i64,
    pub template_id: i64,
}

/// An update request: the deck and its new values.
#[derive(Debug)]
pub struct UpdateDeckData {
    pub id: i64,
    pub values: UpdateDeckValues,
}

/// A deletion request.
#[derive(Debug)]
pub struct DeleteDeckData {
    pub id: i64,
}

/// Whether a title is accepted: between 1 and 255 UTF-8 bytes.
pub open spec fn title_len_ok(title: Seq<char>) -> bool {
    1 <= encode_utf8(title).len() <= 255
}

/// The code reported for a rejected title: too short below the minimum,
/// too long above the maximum.
pub open spec fn title_err_code(title: Seq<char>) -> Seq<char> {
    if encode_utf8(title).len() < 1 {
        code_title_too_short()
    } else {
        code_title_too_long()
    }
}

/// Reject a title outside the common length bounds.
pub fn validate_title(title: &str) -> (r: Result<(), AppError>)
    ensures
        r is Ok <==> title_len_ok(title@),
        r matches Err(e) ==> e.code@ == title_err_code(title@) && e.details is Some,
{
    if byte_len(title) < 1 {
        return Err(
            AppError::new("validation.common.title.too-short", Some("Min length: 1".to_owned())),
        );
    }
    if byte_len(title) > 255 {
        return Err(
            AppError::new("validation.common.title.too-long", Some("Max length: 255".to_owned())),
        );
    }
    Ok(())
}

impl InsertDeckData {
    /// Reject creation values with a bad title.
    pub fn validate(&self) -> (r: Result<(), AppError>)
        ensures
            r is Ok <==> title_len_ok(self.title@),
            r matches Err(e) ==> e.code@ == title_err_code(self.title@),
    {
        validate_title(self.title.as_str())
    }
}

impl UpdateDeckValues {
    /// Reject update values with a bad title.
    pub fn validate(&self) -> (r: Result<(), AppError>)
        ensures
            r is Ok <==> title_len_ok(self.title@),
            r matches Err(e) ==> e.code@ == title_err_code(self.title@),
    {
        validate_title(self.title.as_str())
    }
}

} // verus!
