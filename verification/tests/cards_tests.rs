use koloda::cards::CardContentField;
use koloda::cards::UpdateCardValues;
use koloda::cards::validate_lapses;
use koloda::cards::validate_learning_steps;
use koloda::cards::validate_reps;
use koloda::cards::validate_scheduled_days;
use koloda::cards::validate_state;
use koloda::templates::TemplateField;

fn valid_template_fields() -> [TemplateField; 2] {
    [
        TemplateField {
            id: 1,
            title: "Front".to_string(),
            field_type: "text".to_string(),
            is_required: true,
        },
        TemplateField {
            id: 2,
            title: "Back".to_string(),
            field_type: "text".to_string(),
            is_required: false,
        },
    ]
}

fn entry(key: &str, text: &str) -> (String, CardContentField) {
    (key.to_string(), CardContentField { text: text.to_string() })
}

fn valid_card_content() -> Vec<(String, CardContentField)> {
    vec![entry("1", "Front text"), entry("2", "Back text")]
}

fn empty_required_field_content() -> Vec<(String, CardContentField)> {
    vec![entry("1", ""), entry("2", "Back text")]
}

fn missing_required_field_content() -> Vec<(String, CardContentField)> {
    vec![entry("2", "Back text")]
}

fn empty_optional_field_content() -> Vec<(String, CardContentField)> {
    vec![entry("1", "Front text"), entry("2", "")]
}

fn missing_optional_field_content() -> Vec<(String, CardContentField)> {
    vec![entry("1", "Front text")]
}

#[test]
fn test_update_card_content_valid_ok() {
    let values = UpdateCardValues { content: valid_card_content() };
    assert!(values.validate(&valid_template_fields()).is_ok());
}

#[test]
fn test_update_card_content_required_field_empty_fails() {
    let values = UpdateCardValues { content: empty_required_field_content() };
    let validation_result = values.validate(&valid_template_fields());
    assert!(validation_result.is_err());
    assert_eq!(
        validation_result.unwrap_err().code,
        "validation.cards.content.field-empty"
    );
}

#[test]
fn test_update_card_content_required_field_missing_fails() {
    let values = UpdateCardValues { content: missing_required_field_content() };
    let validation_result = values.validate(&valid_template_fields());
    assert!(validation_result.is_err());
    assert_eq!(
        validation_result.unwrap_err().code,
        "validation.cards.content.field-empty"
    );
}

#[test]
fn test_update_card_content_optional_field_empty_ok() {
    let values = UpdateCardValues { content: empty_optional_field_content() };
    assert!(values.validate(&valid_template_fields()).is_ok());
}

#[test]
fn test_update_card_content_optional_field_missing_ok() {
    let values = UpdateCardValues { content: missing_optional_field_content() };
    assert!(values.validate(&valid_template_fields()).is_ok());
}

#[test]
fn negative_field_ids_render_with_their_sign() {
    let fields = [TemplateField {
        id: -7,
        title: "Hidden".to_string(),
        field_type: "text".to_string(),
        is_required: true,
    }];
    let values = UpdateCardValues { content: vec![entry("-7", "present")] };
    assert!(values.validate(&fields).is_ok());

    let err = UpdateCardValues { content: vec![entry("7", "present")] }
        .validate(&fields)
        .err()
        .expect("the key must carry the sign");
    assert_eq!(err.details, Some("Field id: -7".to_string()));
}

#[test]
fn card_progress_state_bounds() {
    for state in 0..=3 {
        assert!(validate_state(state).is_ok(), "state {} is valid", state);
    }
    let err = validate_state(4).err().expect("out-of-range state is rejected");
    assert_eq!(err.code, "validation.cards-progress.state");
    assert_eq!(err.details, Some("State must be between 0 and 3, got 4".to_string()));
}

#[test]
fn card_progress_counters_must_not_be_negative() {
    assert!(validate_scheduled_days(10).is_ok());
    assert!(validate_learning_steps(0).is_ok());
    assert!(validate_reps(2).is_ok());
    assert!(validate_lapses(0).is_ok());

    assert_eq!(
        validate_scheduled_days(-1).err().expect("negative is rejected").code,
        "validation.cards-progress.scheduled-days"
    );
    assert_eq!(
        validate_learning_steps(-1).err().expect("negative is rejected").code,
        "validation.cards-progress.learning-steps"
    );
    assert_eq!(
        validate_reps(-1).err().expect("negative is rejected").code,
        "validation.cards-progress.reps"
    );
    assert_eq!(
        validate_lapses(-1).err().expect("negative is rejected").code,
        "validation.cards-progress.lapses"
    );
}
