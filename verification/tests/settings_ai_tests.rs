use koloda::ai::AIProfile;
use koloda::ai::AISecrets;
use koloda::settings_ai::AISettings;

#[test]
fn test_valid_ai_settings_empty_profiles() {
    let settings = AISettings { profiles: vec![] };
    assert!(settings.validate().is_ok());
}

#[test]
fn test_valid_ai_settings_with_openrouter_profile() {
    let settings = AISettings {
        profiles: vec![AIProfile {
            id: "profile-1".to_string(),
            title: Some("OpenRouter".to_string()),
            secrets: Some(AISecrets::OpenRouter { api_key: "secret-key".to_string() }),
            last_used_model: Some("openai/gpt-4o-mini".to_string()),
            created_at: "2026-01-01T00:00:00Z".to_string(),
            last_used_at: None,
        }],
    };
    assert!(settings.validate().is_ok());
}

#[test]
fn test_valid_ai_settings_with_lmstudio_profile_without_api_key() {
    let settings = AISettings {
        profiles: vec![AIProfile {
            id: "profile-2".to_string(),
            title: None,
            secrets: Some(AISecrets::LmStudio {
                base_url: "http://localhost:1234".to_string(),
                api_key: None,
            }),
            last_used_model: None,
            created_at: "2026-01-01T00:00:00Z".to_string(),
            last_used_at: None,
        }],
    };
    assert!(settings.validate().is_ok());
}

#[test]
fn test_ai_settings_extra_fields_ignored() {
    let settings = AISettings { profiles: vec![] };
    assert!(settings.validate().is_ok());
}
