use koloda::decks::InsertDeckData;
use koloda::decks::UpdateDeckValues;

#[test]
fn test_insert_deck_valid_title() {
    let data = InsertDeckData { title: "My Deck".to_string(), algorithm_id: 1, template_id: 1 };
    assert!(data.validate().is_ok());
}

#[test]
fn test_insert_deck_empty_title_fails() {
    let data = InsertDeckData { title: "".to_string(), algorithm_id: 1, template_id: 1 };
    let validation_result = data.validate();
    assert!(validation_result.is_err());
    assert_eq!(validation_result.unwrap_err().code, "validation.common.title.too-short");
}

#[test]
fn test_insert_deck_title_max_length_ok() {
    let data = InsertDeckData { title: "a".repeat(255), algorithm_id: 1, template_id: 1 };
    assert!(data.validate().is_ok());
}

#[test]
fn test_insert_deck_title_exceeds_max_length_fails() {
    let data = InsertDeckData { title: "a".repeat(256), algorithm_id: 1, template_id: 1 };
    let validation_result = data.validate();
    assert!(validation_result.is_err());
    assert_eq!(validation_result.unwrap_err().code, "validation.common.title.too-long");
}

#[test]
fn test_insert_deck_unicode_title_ok() {
    let data = InsertDeckData { title: "–ö–æ–ª–æ–¥–∞ –∫–∞—Ä—Ç–æ—á–µ–∫ üé¥".to_string(), algorithm_id: 1, template_id: 1 };
    assert!(data.validate().is_ok());
}

#[test]
fn test_insert_deck_single_char_title_ok() {
    let data = InsertDeckData { title: "A".to_string(), algorithm_id: 1, template_id: 1 };
    assert!(data.validate().is_ok());
}

#[test]
fn test_update_deck_valid_title() {
    let values = UpdateDeckValues { title: "Updated Deck".to_string(), algorithm_id: 2, template_id: 2 };
    assert!(values.validate().is_ok());
}

#[test]
fn test_update_deck_empty_title_fails() {
    let values = UpdateDeckValues { title: "".to_string(), algorithm_id: 1, template_id: 1 };
    let validation_result = values.validate();
    assert!(validation_result.is_err());
    assert_eq!(validation_result.unwrap_err().code, "validation.common.title.too-short");
}

#[test]
fn test_update_deck_title_max_length_ok() {
    let values = UpdateDeckValues { title: "a".repeat(255), algorithm_id: 1, template_id: 1 };
    assert!(values.validate().is_ok());
}

#[test]
fn test_update_deck_title_exceeds_max_length_fails() {
    let values = UpdateDeckValues { title: "a".repeat(256), algorithm_id: 1, template_id: 1 };
    let validation_result = values.validate();
    assert!(validation_result.is_err());
    assert_eq!(validation_result.unwrap_err().code, "validation.common.title.too-long");
}

#[test]
fn test_update_deck_unicode_title_ok() {
    let values = UpdateDeckValues { title: "Êõ¥Êñ∞„Åï„Çå„Åü„Éá„ÉÉ„Ç≠ üìö".to_string(), algorithm_id: 1, template_id: 1 };
    assert!(values.validate().is_ok());
}
