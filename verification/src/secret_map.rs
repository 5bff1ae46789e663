//! In-memory map from secret keys to secret values.
//!
//! One `SecretMap` models the full contents of a file-backed store and the
//! read-through cache of every backend.  Keys are held at most once; the
//! abstract value of a map is a `Map<Seq<char>, Seq<char>>`.

use vstd::prelude::*;

verus! {

/// A key-to-value map of secret strings with each key held at most once.
pub struct SecretMap {
    entries: Vec<(String, String)>,
}

/// Abstract contents of a sequence of key-value pairs; a later pair wins
/// over an earlier pair with the same key.
pub open spec fn pairs_to_map(s: Seq<(String, String)>) -> Map<Seq<char>, Seq<char>>
    decreases s.len(),
{
    if s.len() == 0 {
        Map::empty()
    } else {
        pairs_to_map(s.drop_last()).insert(s.last().0@, s.last().1@)
    }
}

spec fn distinct_keys(s: Seq<(String, String)>) -> bool {
    forall|i: int, j: int| 0 <= i < j < s.len() ==> s[i].0@ != s[j].0@
}

proof fn lemma_pairs_map_complete(s: Seq<(String, String)>, i: int)
    requires
        distinct_keys(s),
        0 <= i < s.len(),
    ensures
        pairs_to_map(s).contains_key(s[i].0@),
        pairs_to_map(s)[s[i].0@] == s[i].1@,
    decreases s.len(),
{
    if i < s.len() - 1 {
        assert(distinct_keys(s.drop_last()));
        lemma_pairs_map_complete(s.drop_last(), i);
        assert(s.drop_last()[i] == s[i]);
        assert(s[i].0@ != s.last().0@);
    }
}

proof fn lemma_pairs_map_sound(s: Seq<(String, String)>, k: Seq<char>)
    requires
        pairs_to_map(s).contains_key(k),
    ensures
        exists|i: int| 0 <= i < s.len() && s[i].0@ == k,
    decreases s.len(),
{
    if s.len() > 0 {
        if s.last().0@ == k {
            assert(s[s.len() - 1].0@ == k);
        } else {
            lemma_pairs_map_sound(s.drop_last(), k);
            let i = choose|i: int| 0 <= i < s.drop_last().len() && s.drop_last()[i].0@ == k;
            assert(s[i].0@ == k);
        }
    }
}

proof fn lemma_distinct_remove(s: Seq<(String, String)>, i: int)
    requires
        distinct_keys(s),
        0 <= i < s.len(),
    ensures
        distinct_keys(s.remove(i)),
        forall|j: int| 0 <= j < s.remove(i).len() ==> s.remove(i)[j].0@ != s[i].0@,
{
    assert forall|j: int| 0 <= j < s.remove(i).len() implies s.remove(i)[j].0@ != s[i].0@ by {
        if j < i {
            assert(s.remove(i)[j] == s[j]);
        } else {
            assert(s.remove(i)[j] == s[j + 1]);
        }
    }
}

proof fn lemma_pairs_map_remove(s: Seq<(String, String)>, i: int)
    requires
        distinct_keys(s),
        0 <= i < s.len(),
    ensures
        pairs_to_map(s.remove(i)) == pairs_to_map(s).remove(s[i].0@),
    decreases s.len(),
{
    let k = s[i].0@;
    if i == s.len() - 1 {
        assert(s.remove(i) =~= s.drop_last());
        if pairs_to_map(s.drop_last()).contains_key(k) {
            lemma_pairs_map_sound(s.drop_last(), k);
            let j = choose|j: int| 0 <= j < s.drop_last().len() && s.drop_last()[j].0@ == k;
            assert(s[j].0@ == s[i].0@);
            assert(false);
        }
        assert(pairs_to_map(s.drop_last()) =~= pairs_to_map(s).remove(k));
    } else {
        assert(distinct_keys(s.drop_last()));
        lemma_pairs_map_remove(s.drop_last(), i);
        assert(s.remove(i).drop_last() =~= s.drop_last().remove(i));
        assert(s.remove(i).last() == s.last());
        assert(s.drop_last()[i] == s[i]);
        assert(s.last().0@ != k);
        assert(pairs_to_map(s.remove(i)) == pairs_to_map(s.drop_last().remove(i)).insert(
            s.last().0@,
            s.last().1@,
        ));
        assert(pairs_to_map(s.remove(i)) =~= pairs_to_map(s).remove(k));
    }
}

proof fn lemma_pairs_map_push(s: Seq<(String, String)>, e: (String, String))
    ensures
        pairs_to_map(s.push(e)) == pairs_to_map(s).insert(e.0@, e.1@),
{
    assert(s.push(e).drop_last() =~= s);
    assert(s.push(e).last() == e);
}

/// Index of the entry holding `key`, if any.
fn vec_find(entries: &Vec<(String, String)>, key: &str) -> (r: Option<usize>)
    ensures
        match r {
            Some(i) => i < entries@.len() && entries@[i as int].0@ == key@,
            None => forall|j: int| 0 <= j < entries@.len() ==> entries@[j].0@ != key@,
        },
{
    let needle: String = key.to_owned();
    let n = entries.len();
    let mut i: usize = 0;
    while i < n
        invariant
            n == entries@.len(),
            i <= n,
            needle@ == key@,
            forall|j: int| 0 <= j < i ==> entries@[j].0@ != key@,
        decreases n - i,
    {
        let e = &entries[i];
        if e.0 == needle {
            return Some(i);
        }
        i += 1;
    }
    None
}

/// Bind `key` to `value` in the entry list, dropping any earlier binding.
fn vec_set_key(entries: &mut Vec<(String, String)>, key: &str, value: &str)
    requires
        distinct_keys(old(entries)@),
    ensures
        distinct_keys(final(entries)@),
        pairs_to_map(final(entries)@) == pairs_to_map(old(entries)@).insert(key@, value@),
{
    let ghost m0 = pairs_to_map(entries@);
    match vec_find(entries, key) {
        Some(i) => {
            proof {
                lemma_distinct_remove(entries@, i as int);
                lemma_pairs_map_remove(entries@, i as int);
            }
            entries.remove(i);
        },
        None => {
            proof {
                if pairs_to_map(entries@).contains_key(key@) {
                    lemma_pairs_map_sound(entries@, key@);
                }
            }
        },
    }
    let ghost trimmed_entries = entries@;
    entries.push((key.to_owned(), value.to_owned()));
    proof {
        assert(entries@.drop_last() =~= trimmed_entries);
        lemma_pairs_map_push(trimmed_entries, entries@.last());
        assert(pairs_to_map(trimmed_entries) =~= m0.remove(key@));
        assert(pairs_to_map(entries@) =~= m0.insert(key@, value@));
        assert forall|i: int, j: int|
            0 <= i < j < entries@.len() implies entries@[i].0@ != entries@[j].0@ by {
            if j == entries@.len() - 1 {
                assert(entries@[i] == trimmed_entries[i]);
            }
        }
    }
}

/// Drop any binding of `key` from the entry list.
fn vec_remove_key(entries: &mut Vec<(String, String)>, key: &str)
    requires
        distinct_keys(old(entries)@),
    ensures
        distinct_keys(final(entries)@),
        pairs_to_map(final(entries)@) == pairs_to_map(old(entries)@).remove(key@),
{
    match vec_find(entries, key) {
        Some(i) => {
            proof {
                lemma_distinct_remove(entries@, i as int);
                lemma_pairs_map_remove(entries@, i as int);
            }
            entries.remove(i);
        },
        None => {
            proof {
                if pairs_to_map(entries@).contains_key(key@) {
                    lemma_pairs_map_sound(entries@, key@);
                }
                assert(pairs_to_map(entries@) =~= pairs_to_map(entries@).remove(key@));
            }
        },
    }
}

#[verifier::external_type_specification]
#[verifier::external_body]
pub struct ExSerdeJsonError(serde_json::Error);

/// The JSON text that serialising a map of secret strings produces.
pub uninterp spec fn vault_json(m: Map<Seq<char>, Seq<char>>) -> Seq<char>;

/// The map of secret strings that parsing a piece of text yields, or `None`
/// where the text is not a JSON object of strings.
pub uninterp spec fn parsed_vault_json(text: Seq<char>) -> Option<Map<Seq<char>, Seq<char>>>;

/// Relies on serde_json::to_string for an ordered map of strings: the
/// rendered text is a function of the key-value contents alone (keys are
/// written in sorted order), and serde_json::from_str parses it back to the
/// same map.
#[verifier::external_body]
pub(crate) fn render_json(m: &SecretMap) -> (r: Result<String, serde_json::Error>)
    ensures
        r matches Ok(s) ==> s@ == vault_json(m@) && parsed_vault_json(vault_json(m@))
            == Some(m@),
{
    let sorted: std::collections::BTreeMap<&String, &String> =
        m.entries.iter().map(|e| (&e.0, &e.1)).collect();
    serde_json::to_string(&sorted)
}

/// Relies on serde_json::from_str for an ordered map of strings: success and
/// the parsed contents are functions of the input text alone.
#[verifier::external_body]
pub(crate) fn parse_json(text: &str) -> (r: Result<SecretMap, serde_json::Error>)
    ensures
        r matches Ok(m) ==> parsed_vault_json(text@) == Some(m@),
        r is Err ==> parsed_vault_json(text@) is None,
{
    let parsed: std::collections::BTreeMap<String, String> = serde_json::from_str(text)?;
    Ok(SecretMap { entries: parsed.into_iter().collect() })
}

/// Relies on serde_json::Error's Display implementation for diagnostic text.
#[verifier::external_body]
pub(crate) fn json_error_text(e: &serde_json::Error) -> String {
    format!("{}", e)
}

impl View for SecretMap {
    type V = Map<Seq<char>, Seq<char>>;

    closed spec fn view(&self) -> Map<Seq<char>, Seq<char>> {
        pairs_to_map(self.entries@)
    }
}

impl SecretMap {
    #[verifier::type_invariant]
    spec fn inv(self) -> bool {
        distinct_keys(self.entries@)
    }

    /// An empty map.
    pub fn new() -> (r: SecretMap)
        ensures
            r@ == Map::<Seq<char>, Seq<char>>::empty(),
    {
        SecretMap { entries: Vec::new() }
    }

    /// Look the key up; `None` exactly when the map does not hold it.
    pub fn get(&self, key: &str) -> (r: Option<String>)
        ensures
            match r {
                Some(v) => self@.contains_key(key@) && v@ == self@[key@],
                None => !self@.contains_key(key@),
            },
    {
        proof {
            use_type_invariant(self);
        }
        match vec_find(&self.entries, key) {
            Some(i) => {
                proof {
                    lemma_pairs_map_complete(self.entries@, i as int);
                }
                Some(self.entries[i].1.clone())
            },
            None => {
                proof {
                    if self@.contains_key(key@) {
                        lemma_pairs_map_sound(self.entries@, key@);
                    }
                }
                None
            },
        }
    }

    /// Bind the key to the value, replacing any earlier binding.
    pub fn set(&mut self, key: &str, value: &str)
        ensures
            final(self)@ == old(self)@.insert(key@, value@),
    {
        proof {
            use_type_invariant(&*self);
        }
        let mut entries: Vec<(String, String)> = Vec::new();
        std::mem::swap(&mut entries, &mut self.entries);
        vec_set_key(&mut entries, key, value);
        self.entries = entries;
    }

    /// Drop the key's binding; absent keys are left alone.
    pub fn remove(&mut self, key: &str)
        ensures
            final(self)@ == old(self)@.remove(key@),
    {
        proof {
            use_type_invariant(&*self);
        }
        let mut entries: Vec<(String, String)> = Vec::new();
        std::mem::swap(&mut entries, &mut self.entries);
        vec_remove_key(&mut entries, key);
        self.entries = entries;
    }
}

} // verus!
