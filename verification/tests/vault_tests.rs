use koloda::file_store::FileSecretStore;
use koloda::keyring_store::KeyringSecretStore;
use koloda::keyring_store::create_secret_store;
use koloda::secret_store::SecretStore;

#[test]
fn file_store_set_get_remove_round_trip() {
    let mut store = FileSecretStore::new("vault-round-trip");
    let key = "alpha";

    store.set(key, "v1").expect("set should work");
    assert_eq!(store.get(key).expect("get should work"), Some("v1".to_string()));

    store.remove(key).expect("remove should work");
    assert_eq!(store.get(key).expect("get after remove should work"), None);
}

#[test]
fn file_store_overwrite_updates_value() {
    let mut store = FileSecretStore::new("vault-overwrite");
    let key = "alpha";

    store.set(key, "v1").expect("first set should work");
    store.set(key, "v2").expect("second set should work");

    assert_eq!(store.get(key).expect("get should work"), Some("v2".to_string()));
}

#[test]
fn file_store_is_isolated_by_service() {
    let mut store_a = FileSecretStore::new("vault-service-a");
    let mut store_b = FileSecretStore::new("vault-service-b");
    let key = "shared-key";

    store_a.set(key, "a-value").expect("set on service A should work");
    assert_eq!(
        store_a.get(key).expect("get from service A should work"),
        Some("a-value".to_string())
    );
    assert_eq!(store_b.get(key).expect("get from service B should work"), None);
}

#[test]
fn file_store_interleaved_distinct_keys_stay_independent() {
    let mut store = FileSecretStore::new("vault-distinct-keys");
    let keys = ["k-0", "k-1", "k-2", "k-3"];
    let values = ["v-0", "v-1", "v-2", "v-3"];

    for i in 0..keys.len() {
        store.set(keys[i], values[i]).expect("set should work");
    }
    for i in 0..keys.len() {
        assert_eq!(
            store.get(keys[i]).expect("get should work"),
            Some(values[i].to_string()),
            "every key sees exactly its own value"
        );
    }
    store.remove(keys[1]).expect("remove should work");
    assert_eq!(store.get(keys[1]).expect("get should work"), None);
    for i in [0usize, 2, 3] {
        assert_eq!(
            store.get(keys[i]).expect("get should work"),
            Some(values[i].to_string()),
            "removing one key leaves the others alone"
        );
    }
}

#[test]
fn file_store_get_nonexistent_key() {
    let mut store = FileSecretStore::new("vault-missing");

    let result = store.get("nonexistent-key").expect("get should work");
    assert_eq!(result, None, "nonexistent key should return None");
}

#[test]
fn file_store_remove_absent_key_succeeds() {
    let mut store = FileSecretStore::new("vault-remove-absent");
    assert!(store.remove("never-stored").is_ok());
}

#[test]
fn file_store_renders_compact_json() {
    let mut store = FileSecretStore::new("vault-render");
    store.set("alpha", "v1").expect("set should work");
    store.set("beta", "v2").expect("set should work");

    let text = store.render().expect("render should work");
    assert_eq!(text, "{\"alpha\":\"v1\",\"beta\":\"v2\"}");
}

#[test]
fn file_store_save_and_load_round_trip() {
    let mut store = FileSecretStore::new("vault-save-load");
    store.set("plain", "value").expect("set should work");
    store
        .set("tricky \"key\"", "back\\slash and \n newline")
        .expect("set should work");

    let text = store.render().expect("render should work");
    let mut reloaded =
        FileSecretStore::from_text("vault-save-load", text.as_str()).expect("load should work");

    assert_eq!(
        reloaded.get("plain").expect("get should work"),
        Some("value".to_string())
    );
    assert_eq!(
        reloaded.get("tricky \"key\"").expect("get should work"),
        Some("back\\slash and \n newline".to_string())
    );
}

#[test]
fn file_store_loads_blank_text_as_empty() {
    let mut from_empty = FileSecretStore::from_text("vault-blank", "").expect("empty text loads");
    assert_eq!(from_empty.get("anything").expect("get should work"), None);

    let mut from_spaces =
        FileSecretStore::from_text("vault-blank", "  \n\t ").expect("blank text loads");
    assert_eq!(from_spaces.get("anything").expect("get should work"), None);
}

#[test]
fn file_store_rejects_malformed_text() {
    let result = FileSecretStore::from_text("vault-bad", "{\"key\": 7}");
    let err = result.err().expect("numbers are not secret strings");
    assert_eq!(err.code, "secrets");

    let result = FileSecretStore::from_text("vault-bad", "not json at all");
    assert_eq!(result.err().expect("garbage is rejected").code, "secrets");
}

#[test]
fn file_store_loads_what_other_writers_saved() {
    let text = "  {\n  \"a\": \"1\",\n  \"b\": \"two\"\n}\n";
    let mut store = FileSecretStore::from_text("vault-pretty", text).expect("pretty JSON loads");
    assert_eq!(store.get("a").expect("get should work"), Some("1".to_string()));
    assert_eq!(store.get("b").expect("get should work"), Some("two".to_string()));
}

#[test]
fn keyring_store_read_your_writes() {
    // The keyring crate is built here with its mock store, which keeps no
    // state between entries; the cache in front of it still guarantees
    // that a value successfully written is read back.
    let mut store = KeyringSecretStore::new("vault-keyring");
    store.set("alpha", "v1").expect("set should work");
    assert_eq!(store.get("alpha").expect("get should work"), Some("v1".to_string()));

    store.set("alpha", "v2").expect("overwrite should work");
    assert_eq!(store.get("alpha").expect("get should work"), Some("v2".to_string()));
}

#[test]
fn keyring_store_remove_then_get_is_none() {
    let mut store = create_secret_store("vault-keyring-remove");
    store.set("alpha", "v1").expect("set should work");
    store.remove("alpha").expect("remove should work");
    assert_eq!(store.get("alpha").expect("get should work"), None);
    assert!(store.remove("alpha").is_ok(), "removing an absent key succeeds");
}
