use koloda::windows_store::WindowsCredentialStore;
use koloda::windows_store::credential_missing;

#[test]
fn wide_target_is_utf16_with_nul() {
    let store = WindowsCredentialStore::new("svc");
    let wide = store.wide_target("key");
    let expected: Vec<u16> = "svc:key".encode_utf16().chain([0u16]).collect();
    assert_eq!(wide, expected);
}

#[test]
fn wide_target_encodes_surrogate_pairs() {
    let store = WindowsCredentialStore::new("svc");
    let wide = store.wide_target("k\u{1F511}");
    let expected: Vec<u16> = "svc:k\u{1F511}".encode_utf16().chain([0u16]).collect();
    assert_eq!(wide, expected);
    assert!(expected.contains(&0xD83D) && expected.contains(&0xDD11));
}

#[test]
fn decode_blob_accepts_utf8_and_rejects_garbage() {
    let ok = WindowsCredentialStore::decode_blob("s\u{00e9}cret".as_bytes().to_vec());
    assert_eq!(ok.expect("valid UTF-8 decodes"), "s\u{00e9}cret");

    let err = WindowsCredentialStore::decode_blob(vec![0xff, 0xfe, 0x00]);
    assert_eq!(err.err().expect("invalid UTF-8 is rejected").code, "windows-credentials");
}

#[test]
fn only_the_not_found_code_counts_as_a_missing_credential() {
    assert!(credential_missing(Some(1168)));
    assert!(!credential_missing(Some(5)));
    assert!(!credential_missing(None));
}

#[test]
fn cache_protocol_read_your_writes() {
    let mut store = WindowsCredentialStore::new("svc");
    assert_eq!(store.cached_value("k"), None);
    store.note_value("k", "v1");
    assert_eq!(store.cached_value("k"), Some("v1".to_string()));
    store.note_value("k", "v2");
    assert_eq!(store.cached_value("k"), Some("v2".to_string()));
    store.note_removed("k");
    assert_eq!(store.cached_value("k"), None);
}
