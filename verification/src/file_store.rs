//! File-backed vault: a JSON map of secret strings persisted as one file
//! per service.
//!
//! The store is the sole reader and writer of its backing file for the
//! process lifetime, so the full map is held here and is authoritative; the
//! embedding application loads the file's text into a store with
//! [`FileSecretStore::from_text`] at start and persists
//! [`FileSecretStore::render`] with an atomic replace after every write
//! (see [`crate::replace_plan`] for the replace protocol).  A read-through
//! cache sits in front of the map, is only ever filled from it, and is
//! never consulted for a negative answer.

use vstd::prelude::*;

use crate::error::AppError;
use crate::error::code_secrets;
use crate::secret_map::SecretMap;
use crate::secret_map::json_error_text;
use crate::secret_map::parse_json;
use crate::secret_map::parsed_vault_json;
use crate::secret_map::render_json;
use crate::secret_map::vault_json;
use crate::secret_store::SecretStore;
use crate::text::is_blank;
use crate::text::str_is_blank;

verus! {

/// Vault backend over one JSON file, modelled by its full key-value map.
pub struct FileSecretStore {
    service: String,
    contents: SecretMap,
    cache: SecretMap,
}

impl FileSecretStore {
    #[verifier::type_invariant]
    spec fn inv(self) -> bool {
        forall|k: Seq<char>| #[trigger]
            self.cache@.contains_key(k) ==> self.contents@.contains_key(k)
                && self.contents@[k] == self.cache@[k]
    }

    /// An empty store for the service, as for a service whose file does not
    /// exist yet.
    pub fn new(service: &str) -> (r: FileSecretStore)
        ensures
            r.service() == service@,
            r.known() == Map::<Seq<char>, Seq<char>>::empty(),
            r.exact(),
    {
        FileSecretStore {
            service: service.to_owned(),
            contents: SecretMap::new(),
            cache: SecretMap::new(),
        }
    }

    /// A store loaded from the text of its backing file.  Text that parses
    /// as a JSON object of strings yields those contents; blank text (a
    /// missing or empty file) yields an empty store; anything else is
    /// malformed and rejected.
    pub fn from_text(service: &str, text: &str) -> (r: Result<FileSecretStore, AppError>)
        ensures
            match r {
                Ok(st) => st.service() == service@ && st.exact() && match parsed_vault_json(
                    text@,
                ) {
                    Some(m) => st.known() == m,
                    None => is_blank(text@) && st.known() == Map::<
                        Seq<char>,
                        Seq<char>,
                    >::empty(),
                },
                Err(e) => parsed_vault_json(text@) is None && !is_blank(text@) && e.code@
                    == code_secrets(),
            },
    {
        match parse_json(text) {
            Ok(contents) => Ok(
                FileSecretStore { service: service.to_owned(), contents, cache: SecretMap::new() },
            ),
            Err(e) => {
                if str_is_blank(text) {
                    Ok(FileSecretStore::new(service))
                } else {
                    let mut details: String = "Failed to parse secrets file as JSON: ".to_owned();
                    let text_of_error = json_error_text(&e);
                    details.append(text_of_error.as_str());
                    Err(AppError::new("secrets", Some(details)))
                }
            },
        }
    }

    /// The JSON text holding the store's full contents, for the embedding
    /// application to persist; loading it back yields the same contents.
    pub fn render(&self) -> (r: Result<String, AppError>)
        ensures
            match r {
                Ok(s) => s@ == vault_json(self.known()) && parsed_vault_json(s@) == Some(
                    self.known(),
                ),
                Err(e) => e.code@ == code_secrets(),
            },
    {
        proof {
            use_type_invariant(self);
        }
        match render_json(&self.contents) {
            Ok(s) => Ok(s),
            Err(e) => {
                let mut details: String = "Failed to serialize secrets: ".to_owned();
                let text_of_error = json_error_text(&e);
                details.append(text_of_error.as_str());
                Err(AppError::new("secrets", Some(details)))
            },
        }
    }
}

impl SecretStore for FileSecretStore {
    closed spec fn service(&self) -> Seq<char> {
        self.service@
    }

    closed spec fn known(&self) -> Map<Seq<char>, Seq<char>> {
        self.contents@
    }

    closed spec fn exact(&self) -> bool {
        true
    }

    fn get(&mut self, key: &str) -> (r: Result<Option<String>, AppError>)
        ensures
            r is Ok,
    {
        proof {
            use_type_invariant(&*self);
        }
        match self.cache.get(key) {
            Some(v) => Ok(Some(v)),
            None => match self.contents.get(key) {
                Some(v) => {
                    let mut cache = SecretMap::new();
                    std::mem::swap(&mut cache, &mut self.cache);
                    cache.set(key, v.as_str());
                    self.cache = cache;
                    Ok(Some(v))
                },
                None => Ok(None),
            },
        }
    }

    fn set(&mut self, key: &str, value: &str) -> (r: Result<(), AppError>)
        ensures
            r is Ok,
    {
        proof {
            use_type_invariant(&*self);
        }
        let mut cache = SecretMap::new();
        std::mem::swap(&mut cache, &mut self.cache);
        let mut contents = SecretMap::new();
        std::mem::swap(&mut contents, &mut self.contents);
        contents.set(key, value);
        cache.set(key, value);
        self.contents = contents;
        self.cache = cache;
        Ok(())
    }

    fn remove(&mut self, key: &str) -> (r: Result<(), AppError>)
        ensures
            r is Ok,
    {
        proof {
            use_type_invariant(&*self);
        }
        let mut cache = SecretMap::new();
        std::mem::swap(&mut cache, &mut self.cache);
        let mut contents = SecretMap::new();
        std::mem::swap(&mut contents, &mut self.contents);
        contents.remove(key);
        cache.remove(key);
        self.contents = contents;
        self.cache = cache;
        Ok(())
    }
}

} // verus!
