use koloda::ai::AIProfile;
use koloda::ai::AISecrets;
use koloda::file_store::FileSecretStore;
use koloda::profiles::add_ai_profile;
use koloda::profiles::get_ai_profile_store_key;
use koloda::profiles::get_ai_profiles;
use koloda::profiles::reconstruct_secrets;
use koloda::profiles::redact_secrets;
use koloda::profiles::remove_ai_profile;
use koloda::profiles::touch_ai_profile;
use koloda::secret_store::SecretStore;
use koloda::settings_ai::AISettings;

fn api_key_of(secrets: &AISecrets) -> Option<String> {
    secrets.api_key().map(|k| k.to_string())
}

#[test]
fn store_key_is_prefixed_profile_id() {
    assert_eq!(get_ai_profile_store_key("abc-123"), "ai-profile-abc-123");
    assert_eq!(get_ai_profile_store_key(""), "ai-profile-");
}

#[test]
fn redaction_blanks_the_openrouter_key() {
    let secrets = AISecrets::OpenRouter {
        api_key: "k-123".to_string(),
    };
    let redacted = redact_secrets(&secrets);
    assert_eq!(redacted.provider(), "openrouter");
    assert_eq!(api_key_of(&redacted), Some("".to_string()));
}

#[test]
fn redaction_keeps_the_ollama_base_url() {
    let secrets = AISecrets::Ollama {
        base_url: "http://x".to_string(),
    };
    let redacted = redact_secrets(&secrets);
    match redacted {
        AISecrets::Ollama { base_url } => assert_eq!(base_url, "http://x"),
        _ => panic!("redaction must keep the provider"),
    }
}

#[test]
fn redaction_drops_the_lmstudio_key_and_keeps_the_url() {
    let secrets = AISecrets::LmStudio {
        base_url: "http://localhost:1234".to_string(),
        api_key: Some("k-9".to_string()),
    };
    let redacted = redact_secrets(&secrets);
    match redacted {
        AISecrets::LmStudio { base_url, api_key } => {
            assert_eq!(base_url, "http://localhost:1234");
            assert_eq!(api_key, None);
        },
        _ => panic!("redaction must keep the provider"),
    }
}

#[test]
fn reconstruction_restores_the_scalar() {
    let stored = AISecrets::OpenRouter {
        api_key: "".to_string(),
    };
    let rebuilt = reconstruct_secrets(&stored, "k-123".to_string());
    assert_eq!(api_key_of(&rebuilt), Some("k-123".to_string()));

    let stored = AISecrets::LmStudio {
        base_url: "http://l".to_string(),
        api_key: None,
    };
    let rebuilt = reconstruct_secrets(&stored, "k-456".to_string());
    match rebuilt {
        AISecrets::LmStudio { base_url, api_key } => {
            assert_eq!(base_url, "http://l");
            assert_eq!(api_key, Some("k-456".to_string()));
        },
        _ => panic!("reconstruction must keep the provider"),
    }
}

#[test]
fn added_profile_round_trips_through_vault_and_metadata() {
    let mut store = FileSecretStore::new("profiles-round-trip");
    let mut settings = AISettings::default();

    let created = add_ai_profile(
        &mut store,
        &mut settings,
        Some("Main".to_string()),
        Some(AISecrets::OpenRouter {
            api_key: "k-123".to_string(),
        }),
        "id-1".to_string(),
        "2026-01-02T03:04:05Z".to_string(),
    )
    .expect("creation should work");

    // The caller-visible profile carries the full scalar back.
    assert_eq!(created.id, "id-1");
    assert_eq!(created.title, Some("Main".to_string()));
    assert_eq!(created.created_at, "2026-01-02T03:04:05Z");
    assert_eq!(
        created.secrets.as_ref().and_then(|s| api_key_of(s)),
        Some("k-123".to_string())
    );

    // The vault holds the scalar under the derived key.
    assert_eq!(
        store.get("ai-profile-id-1").expect("vault get should work"),
        Some("k-123".to_string())
    );

    // The metadata row holds only the redacted payload.
    assert_eq!(settings.profiles.len(), 1);
    assert_eq!(
        settings.profiles[0].secrets.as_ref().and_then(|s| api_key_of(s)),
        Some("".to_string())
    );

    // Reading the profiles back restores the scalar.
    let listed = get_ai_profiles(&mut store, &settings).expect("listing should work");
    assert_eq!(listed.len(), 1);
    assert_eq!(
        listed[0].secrets.as_ref().and_then(|s| api_key_of(s)),
        Some("k-123".to_string())
    );
}

#[test]
fn invalid_secrets_are_rejected_and_nothing_is_stored() {
    let mut store = FileSecretStore::new("profiles-invalid");
    let mut settings = AISettings::default();

    let result = add_ai_profile(
        &mut store,
        &mut settings,
        None,
        Some(AISecrets::OpenRouter {
            api_key: "   ".to_string(),
        }),
        "id-1".to_string(),
        "2026-01-01T00:00:00Z".to_string(),
    );

    assert_eq!(result.err().expect("blank keys are rejected").code, "validation.ai-providers.provider");
    assert_eq!(settings.profiles.len(), 0);
    assert_eq!(store.get("ai-profile-id-1").expect("vault get should work"), None);
}

#[test]
fn profile_without_scalar_never_touches_the_vault() {
    let mut store = FileSecretStore::new("profiles-no-scalar");
    let mut settings = AISettings::default();

    let created = add_ai_profile(
        &mut store,
        &mut settings,
        None,
        Some(AISecrets::Ollama {
            base_url: "http://x".to_string(),
        }),
        "id-2".to_string(),
        "2026-01-01T00:00:00Z".to_string(),
    )
    .expect("creation should work");

    match created.secrets {
        Some(AISecrets::Ollama { base_url }) => assert_eq!(base_url, "http://x"),
        _ => panic!("the payload must keep its provider"),
    }
    assert_eq!(store.get("ai-profile-id-2").expect("vault get should work"), None);
}

#[test]
fn removal_clears_vault_and_metadata() {
    let mut store = FileSecretStore::new("profiles-removal");
    let mut settings = AISettings::default();

    add_ai_profile(
        &mut store,
        &mut settings,
        None,
        Some(AISecrets::OpenRouter {
            api_key: "abc".to_string(),
        }),
        "id-3".to_string(),
        "2026-01-01T00:00:00Z".to_string(),
    )
    .expect("creation should work");
    assert_eq!(
        store.get("ai-profile-id-3").expect("vault get should work"),
        Some("abc".to_string())
    );

    remove_ai_profile(&mut store, &mut settings, "id-3").expect("removal always succeeds");

    assert_eq!(store.get("ai-profile-id-3").expect("vault get should work"), None);
    assert_eq!(settings.profiles.len(), 0);
    let listed = get_ai_profiles(&mut store, &settings).expect("listing should work");
    assert_eq!(listed.len(), 0);
}

#[test]
fn touch_updates_bookkeeping_only() {
    let mut store = FileSecretStore::new("profiles-touch");
    let mut settings = AISettings::default();

    add_ai_profile(
        &mut store,
        &mut settings,
        Some("T".to_string()),
        Some(AISecrets::OpenRouter {
            api_key: "abc".to_string(),
        }),
        "id-4".to_string(),
        "2026-01-01T00:00:00Z".to_string(),
    )
    .expect("creation should work");

    touch_ai_profile(
        &mut settings,
        "id-4",
        Some("model-x".to_string()),
        "2026-02-02T00:00:00Z".to_string(),
    )
    .expect("touch always succeeds");

    let row = &settings.profiles[0];
    assert_eq!(row.last_used_at, Some("2026-02-02T00:00:00Z".to_string()));
    assert_eq!(row.last_used_model, Some("model-x".to_string()));
    assert_eq!(row.created_at, "2026-01-01T00:00:00Z");
    assert_eq!(
        store.get("ai-profile-id-4").expect("vault get should work"),
        Some("abc".to_string()),
        "touch never changes the vault"
    );

    touch_ai_profile(&mut settings, "missing-id", None, "2026-03-03T00:00:00Z".to_string())
        .expect("touch always succeeds");
    assert_eq!(settings.profiles[0].last_used_at, Some("2026-02-02T00:00:00Z".to_string()));
}

#[test]
fn listing_tolerates_a_vault_miss() {
    let mut store = FileSecretStore::new("profiles-miss");
    let settings = AISettings {
        profiles: vec![AIProfile {
            id: "ghost".to_string(),
            title: None,
            secrets: Some(AISecrets::OpenRouter {
                api_key: "".to_string(),
            }),
            last_used_model: None,
            created_at: "2026-01-01T00:00:00Z".to_string(),
            last_used_at: None,
        }],
    };

    let listed = get_ai_profiles(&mut store, &settings).expect("listing should work");
    assert_eq!(listed.len(), 1);
    assert_eq!(
        listed[0].secrets.as_ref().and_then(|s| api_key_of(s)),
        Some("".to_string()),
        "a vault miss keeps the stored, redacted payload"
    );
}
