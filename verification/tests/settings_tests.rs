use koloda::decks::InsertDeckData;
use koloda::decks::UpdateDeckValues;
use koloda::decks::validate_title;
use koloda::reviews::learning_day_range;
use koloda::reviews::parse_day_starts_at;
use koloda::settings::SettingsName;
use koloda::settings_ai::AISettings;
use koloda::settings_learning::DailyLimits;
use koloda::settings_learning::LearnAheadLimit;
use koloda::settings_learning::validate_day_starts_at;
use koloda::ai::AIProfile;
use koloda::ai::AISecrets;

#[test]
fn day_starts_at_accepts_valid_times() {
    assert!(validate_day_starts_at("00:00").is_ok());
    assert!(validate_day_starts_at("4:5").is_ok());
    assert!(validate_day_starts_at("23:59").is_ok());
    assert!(validate_day_starts_at("+4:30").is_ok());
}

#[test]
fn day_starts_at_rejects_malformed_times() {
    for bad in ["", "4", "4:30:00", "24:00", "12:60", "aa:bb", "-1:30", "12:", ":30"] {
        let err = validate_day_starts_at(bad).err().expect("must be rejected");
        assert_eq!(err.code, "validation.settings-learning.day-starts-at", "input: {}", bad);
    }
}

#[test]
fn day_start_parts_default_to_zero() {
    assert_eq!(parse_day_starts_at("4:30"), (4, 30));
    assert_eq!(parse_day_starts_at("garbage"), (0, 0));
    assert_eq!(parse_day_starts_at("4:30:00"), (0, 0));
    assert_eq!(parse_day_starts_at("xx:30"), (0, 30));
    assert_eq!(parse_day_starts_at("4:xx"), (4, 0));
}

#[test]
fn learning_day_range_wraps_the_moment() {
    // 2026-01-01 00:00:00 UTC in milliseconds.
    let now: i64 = 1_767_225_600_000;
    let (from, to) = learning_day_range(now, "4:00");
    assert_eq!(to - from, 86_400_000);
    assert!(from <= now && now < to);
    // Midnight lies before the 04:00 boundary, so the window began
    // yesterday at 04:00.
    assert_eq!(from, now - 20 * 3_600_000);
    assert_eq!(to, now + 4 * 3_600_000);

    let (from, to) = learning_day_range(now + 5 * 3_600_000, "4:00");
    assert_eq!(from, now + 4 * 3_600_000);
    assert_eq!(to, from + 86_400_000);
}

#[test]
fn daily_limits_zero_total_disables_checks() {
    let limits = DailyLimits { total: 0, untouched: 99, learn: 99, review: 99 };
    assert!(limits.validate().is_ok());
}

#[test]
fn daily_limits_reject_caps_above_total() {
    let limits = DailyLimits { total: 10, untouched: 11, learn: 0, review: 0 };
    assert_eq!(
        limits.validate().err().expect("must be rejected").code,
        "validation.settings-learning.daily-limits.untouched-exceeds-total"
    );
    let limits = DailyLimits { total: 10, untouched: 10, learn: 11, review: 0 };
    assert_eq!(
        limits.validate().err().expect("must be rejected").code,
        "validation.settings-learning.daily-limits.learn-exceeds-total"
    );
    let limits = DailyLimits { total: 10, untouched: 10, learn: 10, review: 11 };
    assert_eq!(
        limits.validate().err().expect("must be rejected").code,
        "validation.settings-learning.daily-limits.review-exceeds-total"
    );
    let limits = DailyLimits { total: 10, untouched: 10, learn: 10, review: 10 };
    assert!(limits.validate().is_ok());
}

#[test]
fn learn_ahead_limit_bounds() {
    assert!(LearnAheadLimit(48, 59).validate().is_ok());
    let err = LearnAheadLimit(49, 0).validate().err().expect("must be rejected");
    assert_eq!(err.code, "validation.settings-learning.learn-ahead-limit.hours-range");
    assert_eq!(err.details, Some("Hours out of range: 49".to_string()));
    let err = LearnAheadLimit(0, 60).validate().err().expect("must be rejected");
    assert_eq!(err.code, "validation.settings-learning.learn-ahead-limit.minutes-range");
}

#[test]
fn deck_title_bounds() {
    assert!(InsertDeckData { title: "A".to_string(), algorithm_id: 1, template_id: 1 }
        .validate()
        .is_ok());
    let err = InsertDeckData { title: "".to_string(), algorithm_id: 1, template_id: 1 }
        .validate()
        .err()
        .expect("empty titles are rejected");
    assert_eq!(err.code, "validation.common.title.too-short");
    let err = UpdateDeckValues { title: "a".repeat(256), algorithm_id: 1, template_id: 1 }
        .validate()
        .err()
        .expect("over-long titles are rejected");
    assert_eq!(err.code, "validation.common.title.too-long");
    assert!(validate_title(&"a".repeat(255)).is_ok());
}

#[test]
fn settings_names_round_trip_through_their_keys() {
    for name in [SettingsName::Interface, SettingsName::Learning, SettingsName::Hotkeys] {
        let key = name.as_key();
        let back = SettingsName::from_key(key).expect("known keys parse");
        assert_eq!(back, name);
    }
    let err = SettingsName::from_key("ai").err().expect("unknown keys are rejected");
    assert_eq!(err.code, "db.update");
}

#[test]
fn lmstudio_storage_validation_covers_the_optional_api_key() {
    // An empty (redacted) key and an absent key are fine as stored...
    let redacted = AISecrets::LmStudio {
        base_url: "http://localhost:1234".to_string(),
        api_key: Some("".to_string()),
    };
    assert!(redacted.validate_for_storage().is_ok());
    let absent = AISecrets::LmStudio {
        base_url: "http://localhost:1234".to_string(),
        api_key: None,
    };
    assert!(absent.validate_for_storage().is_ok());

    // ...but a present, whitespace-only key is rejected.
    let blank_key = AISecrets::LmStudio {
        base_url: "http://localhost:1234".to_string(),
        api_key: Some("   ".to_string()),
    };
    let err = blank_key.validate_for_storage().err().expect("whitespace-only keys are rejected");
    assert_eq!(err.code, "validation.ai-providers.provider");
    assert_eq!(err.details, Some("lmstudio.apiKey cannot be whitespace only".to_string()));
}

#[test]
fn ai_settings_report_the_first_invalid_profile() {
    let good = AIProfile {
        id: "ok".to_string(),
        title: None,
        secrets: Some(AISecrets::Ollama { base_url: "http://x".to_string() }),
        last_used_model: None,
        created_at: "2026-01-01T00:00:00Z".to_string(),
        last_used_at: None,
    };
    let bad = AIProfile {
        id: "bad".to_string(),
        title: Some("t".repeat(129)),
        secrets: None,
        last_used_model: None,
        created_at: "2026-01-01T00:00:00Z".to_string(),
        last_used_at: None,
    };
    let settings = AISettings { profiles: vec![good, bad] };
    let err = settings.validate().err().expect("one profile is invalid");
    assert_eq!(err.code, "validation.ai-providers.title");

    let empty = AISettings::default();
    assert!(empty.validate().is_ok());
    assert!(empty.validate_for_input().is_ok());
}
