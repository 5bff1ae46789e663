//! Error type shared by every fallible operation of the crate.
//!
//! An error carries a stable machine-readable `code` and an optional
//! human-readable `details` string.  A missing key is never an error at any
//! layer of the vault: `get` reports it as `None` and `remove` succeeds.

use vstd::prelude::*;

verus! {

/// Machine-readable failure report: a stable code plus optional free-form
/// diagnostic text.  Secret values never appear in `details`.
#[derive(Debug)]
pub struct AppError {
    pub code: String,
    pub details: Option<String>,
}

impl Clone for AppError {
    /// An equal copy of the error.
    fn clone(&self) -> (r: AppError)
        ensures
            r == *self,
    {
        AppError {
            code: self.code.clone(),
            details: match &self.details {
                Some(d) => Some(d.clone()),
                None => None,
            },
        }
    }
}

/// Code attached to errors with no more precise classification.
pub open spec fn code_unknown() -> Seq<char> {
    "unknown"@
}

/// Code for a rejected settings update.
pub open spec fn code_db_update() -> Seq<char> {
    "db.update"@
}

/// Code attached to failures of the OS keyring backend.
pub open spec fn code_keyring() -> Seq<char> {
    "keyring"@
}

/// Code attached to failures of the file-backed store.
pub open spec fn code_secrets() -> Seq<char> {
    "secrets"@
}

/// Code attached to failures of the Windows credential-manager backend.
pub open spec fn code_windows_credentials() -> Seq<char> {
    "windows-credentials"@
}

/// Code for a rejected AI provider secret payload or profile id.
pub open spec fn code_validation_ai_provider() -> Seq<char> {
    "validation.ai-providers.provider"@
}

/// Code for a rejected AI profile title.
pub open spec fn code_validation_ai_title() -> Seq<char> {
    "validation.ai-providers.title"@
}

/// Code for a card state outside the known range.
pub open spec fn code_cards_progress_state() -> Seq<char> {
    "validation.cards-progress.state"@
}

/// Code for a negative scheduled-days count on a card.
pub open spec fn code_cards_progress_scheduled_days() -> Seq<char> {
    "validation.cards-progress.scheduled-days"@
}

/// Code for a negative learning-steps count on a card.
pub open spec fn code_cards_progress_learning_steps() -> Seq<char> {
    "validation.cards-progress.learning-steps"@
}

/// Code for a negative repetition count on a card.
pub open spec fn code_cards_progress_reps() -> Seq<char> {
    "validation.cards-progress.reps"@
}

/// Code for a negative lapse count on a card.
pub open spec fn code_cards_progress_lapses() -> Seq<char> {
    "validation.cards-progress.lapses"@
}

/// Code for a review rating outside the known range.
pub open spec fn code_reviews_rating() -> Seq<char> {
    "validation.reviews.rating"@
}

/// Code for a review state outside the known range.
pub open spec fn code_reviews_state() -> Seq<char> {
    "validation.reviews.state"@
}

/// Code for a negative scheduled-days count on a review.
pub open spec fn code_reviews_scheduled_days() -> Seq<char> {
    "validation.reviews.scheduled-days"@
}

/// Code for a negative learning-steps count on a review.
pub open spec fn code_reviews_learning_steps() -> Seq<char> {
    "validation.reviews.learning-steps"@
}

/// Code for a negative review duration.
pub open spec fn code_reviews_time() -> Seq<char> {
    "validation.reviews.time"@
}

/// Code for card content missing a required field's text.
pub open spec fn code_cards_content_field_empty() -> Seq<char> {
    "validation.cards.content.field-empty"@
}

/// Code for a template without fields.
pub open spec fn code_templates_fields_too_few() -> Seq<char> {
    "validation.templates.fields.too-few"@
}

/// Code for a template without layout steps.
pub open spec fn code_templates_layout_too_few() -> Seq<char> {
    "validation.templates.layout.too-few"@
}

/// Code for an update that changes a locked template's fields.
pub open spec fn code_templates_update_locked() -> Seq<char> {
    "validation.templates.update-locked"@
}

/// Code for a title below the common minimum length.
pub open spec fn code_title_too_short() -> Seq<char> {
    "validation.common.title.too-short"@
}

/// Code for a title above the common maximum length.
pub open spec fn code_title_too_long() -> Seq<char> {
    "validation.common.title.too-long"@
}

/// Code for a key chord bound twice within one hotkey scope.
pub open spec fn code_hotkeys_duplicate() -> Seq<char> {
    "validation.settings-hotkeys.duplicate-keys"@
}

/// Code for an unknown interface language tag.
pub open spec fn code_interface_language() -> Seq<char> {
    "validation.settings-interface.language"@
}

/// Code for an unknown interface theme tag.
pub open spec fn code_interface_theme() -> Seq<char> {
    "validation.settings-interface.theme"@
}

/// Code for an unknown interface motion tag.
pub open spec fn code_interface_motion() -> Seq<char> {
    "validation.settings-interface.motion"@
}

/// Code for a daily untouched-cards limit above the total limit.
pub open spec fn code_daily_limits_untouched() -> Seq<char> {
    "validation.settings-learning.daily-limits.untouched-exceeds-total"@
}

/// Code for a daily learn limit above the total limit.
pub open spec fn code_daily_limits_learn() -> Seq<char> {
    "validation.settings-learning.daily-limits.learn-exceeds-total"@
}

/// Code for a daily review limit above the total limit.
pub open spec fn code_daily_limits_review() -> Seq<char> {
    "validation.settings-learning.daily-limits.review-exceeds-total"@
}

/// Code for a learn-ahead hours value out of range.
pub open spec fn code_learn_ahead_hours() -> Seq<char> {
    "validation.settings-learning.learn-ahead-limit.hours-range"@
}

/// Code for a learn-ahead minutes value out of range.
pub open spec fn code_learn_ahead_minutes() -> Seq<char> {
    "validation.settings-learning.learn-ahead-limit.minutes-range"@
}

/// Code for a malformed day-start time of day.
pub open spec fn code_day_starts_at() -> Seq<char> {
    "validation.settings-learning.day-starts-at"@
}

impl AppError {
    /// Build an error from a code and optional diagnostic text.
    pub fn new(code: &str, details: Option<String>) -> (r: AppError)
        ensures
            r.code@ == code@,
            r.details == details,
    {
        AppError { code: code.to_owned(), details }
    }
}

} // verus!
