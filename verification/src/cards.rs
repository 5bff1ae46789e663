//! Card content and the requests that change cards.
//!
//! A card's content maps a template field's id — rendered as its decimal
//! string — to the text entered for that field; every required field of
//! the template must be present and non-empty.

use vstd::prelude::*;

use crate::error::AppError;
use crate::error::code_cards_content_field_empty;
use crate::error::code_cards_progress_lapses;
use crate::error::code_cards_progress_learning_steps;
use crate::error::code_cards_progress_reps;
use crate::error::code_cards_progress_scheduled_days;
use crate::error::code_cards_progress_state;
use crate::templates::TemplateField;
use crate::text::dec_str_i64;
use crate::text::i64_to_string;

verus! {

/// The text entered for one template field.
#[derive(Debug)]
pub struct CardContentField {
    pub text: String,
}

/// A card's content: field id (as a decimal string) to entered text, each
/// id held at most once by well-formed content.
pub type CardContent = Vec<(String, CardContentField)>;

/// New content for an existing card.
#[derive(Debug)]
pub struct UpdateCardValues {
    pub content: CardContent,
}

/// An update request: the card and its new content.
#[derive(Debug)]
pub struct UpdateCardData {
    pub id: i64,
    pub values: UpdateCardValues,
}

/// A deletion request.
#[derive(Debug)]
pub struct DeleteCardData {
    pub id: i64,
}

/// A request to forget a card's learning progress.
#[derive(Debug)]
pub struct ResetCardProgressData {
    pub id: i64,
}

/// A query for one deck's cards.
#[derive(Debug)]
pub struct GetCardsParams {
    pub deck_id: i64,
}

/// The text the content's first entry for a key holds, if any.
pub open spec fn lookup_text(s: Seq<(String, CardContentField)>, k: Seq<char>) -> Option<
    Seq<char>,
>
    decreases s.len(),
{
    if s.len() == 0 {
        None
    } else if s.first().0@ == k {
        Some(s.first().1.text@)
    } else {
        lookup_text(s.drop_first(), k)
    }
}

/// Whether the content holds non-empty text for a template field's id.
pub open spec fn content_field_filled(s: Seq<(String, CardContentField)>, id: i64) -> bool {
    match lookup_text(s, dec_str_i64(id as int)) {
        Some(t) => t.len() > 0,
        None => false,
    }
}

/// Whether content satisfies a template: every required field is present
/// and non-empty.
pub open spec fn card_content_ok(
    s: Seq<(String, CardContentField)>,
    fields: Seq<TemplateField>,
) -> bool {
    forall|i: int|
        0 <= i < fields.len() ==> ((#[trigger] fields[i]).is_required ==> content_field_filled(
            s,
            fields[i].id,
        ))
}

proof fn lemma_lookup_text_skip(s: Seq<(String, CardContentField)>, k: Seq<char>, j: int)
    requires
        0 <= j <= s.len(),
        forall|m: int| 0 <= m < j ==> (#[trigger] s[m]).0@ != k,
    ensures
        lookup_text(s, k) == lookup_text(s.skip(j), k),
    decreases j,
{
    if j > 0 {
        lemma_lookup_text_skip(s, k, j - 1);
        assert(s.skip(j - 1).first() == s[j - 1]);
        assert(s.skip(j - 1).drop_first() =~= s.skip(j));
    } else {
        assert(s.skip(0) =~= s);
    }
}

/// The text the content's first entry for a key holds, if any.
fn content_lookup(content: &CardContent, key: &str) -> (r: Option<String>)
    ensures
        match r {
            Some(t) => lookup_text(content@, key@) == Some(t@),
            None => lookup_text(content@, key@) is None,
        },
{
    let needle: String = key.to_owned();
    let n = content.len();
    let mut j: usize = 0;
    while j < n
        invariant
            j <= n,
            n == content@.len(),
            needle@ == key@,
            forall|m: int| 0 <= m < j ==> (#[trigger] content@[m]).0@ != key@,
        decreases n - j,
    {
        let entry = &content[j];
        if entry.0 == needle {
            proof {
                lemma_lookup_text_skip(content@, key@, j as int);
                assert(content@.skip(j as int).first() == content@[j as int]);
            }
            return Some(entry.1.text.clone());
        }
        j += 1;
    }
    proof {
        lemma_lookup_text_skip(content@, key@, n as int);
        assert(content@.skip(n as int) =~= Seq::<(String, CardContentField)>::empty());
    }
    None
}

/// Reject content that leaves a required template field absent or empty.
pub fn validate_content(content: &CardContent, template_fields: &[TemplateField]) -> (r: Result<
    (),
    AppError,
>)
    ensures
        r is Ok <==> card_content_ok(content@, template_fields@),
        r matches Err(e) ==> e.code@ == code_cards_content_field_empty() && e.details is Some,
{
    let n = template_fields.len();
    let mut i: usize = 0;
    while i < n
        invariant
            i <= n,
            n == template_fields@.len(),
            forall|j: int|
                0 <= j < i ==> ((#[trigger] template_fields@[j]).is_required
                    ==> content_field_filled(content@, template_fields@[j].id)),
        decreases n - i,
    {
        let field = vstd::slice::slice_index_get(template_fields, i);
        if field.is_required {
            let field_key = i64_to_string(field.id);
            let filled = match content_lookup(content, field_key.as_str()) {
                Some(text) => !text.as_str().is_empty(),
                None => false,
            };
            if !filled {
                let mut details: String = "Field id: ".to_owned();
                details.append(field_key.as_str());
                return Err(AppError::new("validation.cards.content.field-empty", Some(details)));
            }
        }
        i += 1;
    }
    Ok(())
}

/// Reject a card state outside the known range of zero to three.
pub fn validate_state(state: i32) -> (r: Result<(), AppError>)
    ensures
        r is Ok <==> 0 <= state <= 3,
        r matches Err(e) ==> e.code@ == code_cards_progress_state() && e.details is Some,
{
    if state < 0 || state > 3 {
        let mut details: String = "State must be between 0 and 3, got ".to_owned();
        let rendered = i64_to_string(state as i64);
        details.append(rendered.as_str());
        return Err(AppError::new("validation.cards-progress.state", Some(details)));
    }
    Ok(())
}

/// Reject a negative scheduled-days count.
pub fn validate_scheduled_days(days: i32) -> (r: Result<(), AppError>)
    ensures
        r is Ok <==> days >= 0,
        r matches Err(e) ==> e.code@ == code_cards_progress_scheduled_days() && e.details is Some,
{
    if days < 0 {
        let mut details: String = "Scheduled days must be non-negative, got ".to_owned();
        let rendered = i64_to_string(days as i64);
        details.append(rendered.as_str());
        return Err(AppError::new("validation.cards-progress.scheduled-days", Some(details)));
    }
    Ok(())
}

/// Reject a negative learning-steps count.
pub fn validate_learning_steps(steps: i32) -> (r: Result<(), AppError>)
    ensures
        r is Ok <==> steps >= 0,
        r matches Err(e) ==> e.code@ == code_cards_progress_learning_steps() && e.details is Some,
{
    if steps < 0 {
        let mut details: String = "Learning steps must be non-negative, got ".to_owned();
        let rendered = i64_to_string(steps as i64);
        details.append(rendered.as_str());
        return Err(AppError::new("validation.cards-progress.learning-steps", Some(details)));
    }
    Ok(())
}

/// Reject a negative repetition count.
pub fn validate_reps(reps: i32) -> (r: Result<(), AppError>)
    ensures
        r is Ok <==> reps >= 0,
        r matches Err(e) ==> e.code@ == code_cards_progress_reps() && e.details is Some,
{
    if reps < 0 {
        let mut details: String = "Reps must be non-negative, got ".to_owned();
        let rendered = i64_to_string(reps as i64);
        details.append(rendered.as_str());
        return Err(AppError::new("validation.cards-progress.reps", Some(details)));
    }
    Ok(())
}

/// Reject a negative lapse count.
pub fn validate_lapses(lapses: i32) -> (r: Result<(), AppError>)
    ensures
        r is Ok <==> lapses >= 0,
        r matches Err(e) ==> e.code@ == code_cards_progress_lapses() && e.details is Some,
{
    if lapses < 0 {
        let mut details: String = "Lapses must be non-negative, got ".to_owned();
        let rendered = i64_to_string(lapses as i64);
        details.append(rendered.as_str());
        return Err(AppError::new("validation.cards-progress.lapses", Some(details)));
    }
    Ok(())
}

impl UpdateCardValues {
    /// Reject new content that leaves a required template field absent or
    /// empty.
    pub fn validate(&self, template_fields: &[TemplateField]) -> (r: Result<(), AppError>)
        ensures
            r is Ok <==> card_content_ok(self.content@, template_fields@),
            r matches Err(e) ==> e.code@ == code_cards_content_field_empty() && e.details is Some,
    {
        validate_content(&self.content, template_fields)
    }
}

} // verus!
