use koloda::settings_hotkeys::HotkeysSettings;

fn action(name: &str, keys: &[&str]) -> (String, Vec<String>) {
    (name.to_string(), keys.iter().map(|k| k.to_string()).collect())
}

#[test]
fn test_valid_hotkeys_settings_full() {
    let settings = HotkeysSettings {
        navigation: vec![
            action("dashboard", &["KeyH"]),
            action("decks", &["KeyD"]),
            action("algorithms", &["KeyP"]),
            action("templates", &["KeyT"]),
            action("settings", &["Control+Comma"]),
        ],
        grades: vec![
            action("again", &["Digit1"]),
            action("hard", &["Digit2"]),
            action("normal", &["Digit3"]),
            action("easy", &["Digit4"]),
        ],
    };
    assert!(settings.validate().is_ok());
}

#[test]
fn test_empty_navigation_and_grades() {
    let settings = HotkeysSettings { navigation: vec![], grades: vec![] };
    assert!(settings.validate().is_ok());
}

#[test]
fn test_empty_navigation_with_valid_grades() {
    let settings = HotkeysSettings {
        navigation: vec![],
        grades: vec![action("again", &["Digit1"])],
    };
    assert!(settings.validate().is_ok());
}

#[test]
fn test_empty_grades_with_valid_navigation() {
    let settings = HotkeysSettings {
        navigation: vec![action("dashboard", &["ArrowRight"])],
        grades: vec![],
    };
    assert!(settings.validate().is_ok());
}

#[test]
fn test_single_key_binding() {
    let settings = HotkeysSettings {
        navigation: vec![],
        grades: vec![action("again", &["Space"])],
    };
    assert!(settings.validate().is_ok());
}

#[test]
fn test_multiple_key_bindings_per_action() {
    let settings = HotkeysSettings {
        navigation: vec![action("dashboard", &["ArrowRight", "KeyJ"])],
        grades: vec![],
    };
    assert!(settings.validate().is_ok());
}

#[test]
fn test_multiple_actions_with_unique_keys() {
    let settings = HotkeysSettings {
        navigation: vec![
            action("dashboard", &["ArrowRight"]),
            action("decks", &["ArrowLeft"]),
            action("algorithms", &["Space"]),
        ],
        grades: vec![],
    };
    assert!(settings.validate().is_ok());
}

#[test]
fn test_key_bindings_with_modifiers() {
    let settings = HotkeysSettings {
        navigation: vec![action("dashboard", &["Control+ArrowRight", "Meta+ArrowRight"])],
        grades: vec![],
    };
    assert!(settings.validate().is_ok());
}

#[test]
fn test_extra_navigation_fields_ignored() {
    let settings = HotkeysSettings {
        navigation: vec![action("dashboard", &["ArrowRight"]), action("extraKey", &["X"])],
        grades: vec![],
    };
    assert!(settings.validate().is_ok(), "Should ignore extra navigation keys");
}

#[test]
fn test_extra_grades_fields_ignored() {
    let settings = HotkeysSettings {
        navigation: vec![],
        grades: vec![action("again", &["Digit1"]), action("extraKey", &["X"])],
    };
    assert!(settings.validate().is_ok(), "Should ignore extra grades keys");
}

#[test]
fn test_extra_top_level_fields_ignored() {
    let settings = HotkeysSettings {
        navigation: vec![action("dashboard", &["ArrowRight"])],
        grades: vec![action("again", &["Digit1"])],
    };
    assert!(settings.validate().is_ok());
}

#[test]
fn test_duplicate_keys_in_same_action_fails() {
    let settings = HotkeysSettings {
        navigation: vec![action("dashboard", &["ArrowRight", "ArrowRight"])],
        grades: vec![],
    };
    let result = settings.validate();
    assert!(result.is_err(), "Should fail with duplicate keys in same action");
    assert_eq!(result.unwrap_err().code, "validation.settings-hotkeys.duplicate-keys");
}

#[test]
fn test_duplicate_keys_in_different_actions_same_scope_fails() {
    let settings = HotkeysSettings {
        navigation: vec![
            action("dashboard", &["ArrowRight"]),
            action("decks", &["ArrowRight"]),
        ],
        grades: vec![],
    };
    let result = settings.validate();
    assert!(
        result.is_err(),
        "Should fail with duplicate keys across actions in same scope"
    );
    assert_eq!(result.unwrap_err().code, "validation.settings-hotkeys.duplicate-keys");
}

#[test]
fn test_duplicate_keys_between_scopes_allowed() {
    let settings = HotkeysSettings {
        navigation: vec![action("dashboard", &["Space"])],
        grades: vec![action("again", &["Space"])],
    };
    assert!(
        settings.validate().is_ok(),
        "Same key in different scopes should be allowed"
    );
}

#[test]
fn test_duplicate_keys_in_grades_fails() {
    let settings = HotkeysSettings {
        navigation: vec![],
        grades: vec![action("again", &["Digit1", "Digit1"])],
    };
    let result = settings.validate();
    assert!(result.is_err(), "Should fail with duplicate keys in grades");
    assert_eq!(result.unwrap_err().code, "validation.settings-hotkeys.duplicate-keys");
}

#[test]
fn test_duplicate_keys_across_different_grade_actions_fails() {
    let settings = HotkeysSettings {
        navigation: vec![],
        grades: vec![action("again", &["Digit1"]), action("hard", &["Digit1"])],
    };
    let result = settings.validate();
    assert!(result.is_err(), "Should fail with duplicate keys across grade actions");
    assert_eq!(result.unwrap_err().code, "validation.settings-hotkeys.duplicate-keys");
}

#[test]
fn test_duplicate_in_middle_of_multiple_keys_fails() {
    let settings = HotkeysSettings {
        navigation: vec![action("dashboard", &["ArrowRight", "KeyJ", "ArrowRight"])],
        grades: vec![],
    };
    let result = settings.validate();
    assert!(result.is_err(), "Should fail when duplicate appears later in array");
    assert_eq!(result.unwrap_err().code, "validation.settings-hotkeys.duplicate-keys");
}

#[test]
fn fill_defaults_adds_missing_actions_and_keeps_present_ones() {
    let mut settings = HotkeysSettings {
        navigation: vec![action("dashboard", &["KeyH"])],
        grades: vec![],
    };
    settings.fill_defaults();

    assert_eq!(settings.navigation[0], action("dashboard", &["KeyH"]));
    let nav_names: Vec<&str> = settings.navigation.iter().map(|e| e.0.as_str()).collect();
    for name in ["dashboard", "decks", "algorithms", "templates", "settings"] {
        assert!(nav_names.contains(&name), "navigation must hold {}", name);
    }
    assert_eq!(settings.navigation.len(), 5);
    let grade_names: Vec<&str> = settings.grades.iter().map(|e| e.0.as_str()).collect();
    for name in ["again", "hard", "normal", "easy"] {
        assert!(grade_names.contains(&name), "grades must hold {}", name);
    }
    for entry in settings.grades.iter() {
        assert!(entry.1.is_empty(), "filled-in actions start with no bindings");
    }
}
