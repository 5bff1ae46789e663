//! Core of the Windows credential-manager backend.
//!
//! The raw platform calls (CredReadW, CredWriteW, CredDeleteW) are unsafe
//! FFI and live in the embedding application, compiled only on that
//! platform; everything they need decided or marshalled is verified here:
//! the wide-character target name `"{service}:{key}"`, the decoding of a
//! returned credential blob, and the read-through cache protocol — the
//! platform store is written before the cache, so a failed write is never
//! reflected here, and a `get` served from the cache returns the last
//! value successfully written.

use vstd::prelude::*;
use vstd::utf8::encode_utf8;
use vstd::utf8::valid_utf8;

use crate::error::AppError;
use crate::error::code_windows_credentials;
use crate::secret_map::SecretMap;

verus! {

/// The UTF-16 code units of one character: the scalar itself below
/// 0x10000, a surrogate pair above.
pub open spec fn utf16_units(c: char) -> Seq<u16> {
    if (c as u32) < 0x10000 {
        seq![c as u16]
    } else {
        seq![
            (0xD800 + ((c as u32) - 0x10000) / 0x400) as u16,
            (0xDC00 + ((c as u32) - 0x10000) % 0x400) as u16,
        ]
    }
}

/// The UTF-16 code units of a string.
pub open spec fn wide_of(s: Seq<char>) -> Seq<u16>
    decreases s.len(),
{
    if s.len() == 0 {
        Seq::empty()
    } else {
        utf16_units(s.first()) + wide_of(s.drop_first())
    }
}

proof fn lemma_wide_of_push(t: Seq<char>, c: char)
    ensures
        wide_of(t.push(c)) == wide_of(t) + utf16_units(c),
    decreases t.len(),
{
    if t.len() == 0 {
        let s1 = t.push(c);
        assert(s1.first() == c);
        assert(s1.drop_first() =~= Seq::<char>::empty());
        assert(wide_of(s1.drop_first()) =~= Seq::<u16>::empty());
        assert(wide_of(s1) == utf16_units(c) + wide_of(s1.drop_first()));
        assert(wide_of(t) =~= Seq::<u16>::empty());
        assert(wide_of(s1) =~= wide_of(t) + utf16_units(c));
    } else {
        assert(t.push(c).first() == t.first());
        assert(t.push(c).drop_first() =~= t.drop_first().push(c));
        lemma_wide_of_push(t.drop_first(), c);
        assert(wide_of(t.push(c)) =~= wide_of(t) + utf16_units(c));
    }
}

/// Append the UTF-16 code units of `s`.
fn push_wide(out: &mut Vec<u16>, s: &str)
    ensures
        final(out)@ == old(out)@ + wide_of(s@),
{
    let n = s.unicode_len();
    let mut i: usize = 0;
    proof {
        assert(s@.subrange(0, 0) =~= Seq::<char>::empty());
        assert(out@ =~= old(out)@ + wide_of(s@.subrange(0, 0)));
    }
    while i < n
        invariant
            i <= n,
            n == s@.len(),
            out@ == old(out)@ + wide_of(s@.subrange(0, i as int)),
        decreases n - i,
    {
        let c = s.get_char(i);
        proof {
            vstd::utf8::char_is_scalar(c);
        }
        let u = c as u32;
        if u < 0x10000 {
            out.push(u as u16);
            proof {
                assert(seq![u as u16] =~= utf16_units(c));
            }
        } else {
            let v = u - 0x10000;
            out.push((0xD800 + v / 0x400) as u16);
            out.push((0xDC00 + v % 0x400) as u16);
            proof {
                assert(seq![(0xD800 + v / 0x400) as u16, (0xDC00 + v % 0x400) as u16]
                    =~= utf16_units(c));
            }
        }
        proof {
            assert(s@.subrange(0, i + 1).drop_last() =~= s@.subrange(0, i as int));
            assert(s@.subrange(0, i + 1) =~= s@.subrange(0, i as int).push(s@[i as int]));
            lemma_wide_of_push(s@.subrange(0, i as int), s@[i as int]);
            assert(out@ =~= old(out)@ + wide_of(s@.subrange(0, i + 1)));
        }
        i += 1;
    }
    proof {
        assert(s@.subrange(0, n as int) =~= s@);
    }
}

/// The platform's error code for a credential that does not exist.
pub const CREDENTIAL_NOT_FOUND_CODE: i32 = 1168;

/// Whether a failed platform call reported only that the credential does
/// not exist — a success outcome for a read (the key is absent) and for a
/// delete (already absent) — rather than a genuine failure.
pub fn credential_missing(os_code: Option<i32>) -> (r: bool)
    ensures
        r == (os_code == Some(CREDENTIAL_NOT_FOUND_CODE)),
{
    match os_code {
        Some(code) => code == CREDENTIAL_NOT_FOUND_CODE,
        None => false,
    }
}

#[verifier::external_type_specification]
#[verifier::external_body]
pub struct ExFromUtf8Error(std::string::FromUtf8Error);

/// Relies on String::from_utf8: succeeds exactly on valid UTF-8 input,
/// returning the string those bytes encode.
pub assume_specification[ String::from_utf8 ](bytes: Vec<u8>) -> (r: Result<
    String,
    std::string::FromUtf8Error,
>)
    ensures
        r is Ok <==> valid_utf8(bytes@),
        r matches Ok(s) ==> encode_utf8(s@) == bytes@,
;

/// Decision and marshalling core of the Windows credential-manager
/// backend; the embedding application performs the platform calls and
/// reports their outcomes here.
pub struct WindowsCredentialStore {
    service: String,
    cache: SecretMap,
}

impl WindowsCredentialStore {
    /// The service namespace the store was opened for.
    pub closed spec fn service(&self) -> Seq<char> {
        self.service@
    }

    /// The values this process wrote to or observed in the platform store.
    pub closed spec fn known(&self) -> Map<Seq<char>, Seq<char>> {
        self.cache@
    }

    /// Open the backend core for a service namespace.
    pub fn new(service: &str) -> (r: WindowsCredentialStore)
        ensures
            r.service() == service@,
            r.known() == Map::<Seq<char>, Seq<char>>::empty(),
    {
        WindowsCredentialStore { service: service.to_owned(), cache: SecretMap::new() }
    }

    /// The wide-character target name `"{service}:{key}"` of a key,
    /// NUL-terminated, as the platform's credential API takes it.
    pub fn wide_target(&self, key: &str) -> (r: Vec<u16>)
        ensures
            r@ == wide_of(self.service() + seq![':'] + key@).push(0u16),
    {
        let mut out: Vec<u16> = Vec::new();
        push_wide(&mut out, self.service.as_str());
        push_wide(&mut out, ":");
        push_wide(&mut out, key);
        out.push(0u16);
        proof {
            reveal_strlit(":");
            assert((":")@ =~= seq![':']);
            assert(wide_of(self.service@) + wide_of((":")@) + wide_of(key@) =~= wide_of(
                self.service@ + seq![':'] + key@,
            )) by {
                lemma_wide_of_concat(self.service@, seq![':'] + key@);
                lemma_wide_of_concat(seq![':'], key@);
                assert(self.service@ + (seq![':'] + key@) =~= self.service@ + seq![':'] + key@);
            }
        }
        out
    }

    /// Decode a credential blob copied out of the platform API: the bytes
    /// must be the UTF-8 encoding of the stored secret string.
    pub fn decode_blob(bytes: Vec<u8>) -> (r: Result<String, AppError>)
        ensures
            match r {
                Ok(s) => valid_utf8(bytes@) && encode_utf8(s@) == bytes@,
                Err(e) => !valid_utf8(bytes@) && e.code@ == code_windows_credentials(),
            },
    {
        match String::from_utf8(bytes) {
            Ok(s) => Ok(s),
            Err(_) => Err(
                AppError::new(
                    "windows-credentials",
                    Some("Stored credential is not valid UTF-8".to_owned()),
                ),
            ),
        }
    }

    /// The cached value of a key, if this process wrote or observed one.
    pub fn cached_value(&self, key: &str) -> (r: Option<String>)
        ensures
            match r {
                Some(v) => self.known().contains_key(key@) && v@ == self.known()[key@],
                None => !self.known().contains_key(key@),
            },
    {
        self.cache.get(key)
    }

    /// Record a value successfully written to or read from the platform
    /// store; never called for a failed platform call.
    pub fn note_value(&mut self, key: &str, value: &str)
        ensures
            final(self).service() == old(self).service(),
            final(self).known() == old(self).known().insert(key@, value@),
    {
        self.cache.set(key, value);
    }

    /// Record a credential successfully deleted from the platform store —
    /// or already absent there; never called for a failed platform call.
    pub fn note_removed(&mut self, key: &str)
        ensures
            final(self).service() == old(self).service(),
            final(self).known() == old(self).known().remove(key@),
    {
        self.cache.remove(key);
    }
}

/// Law (isolation of services): the target name `"{service}:{key}"`
/// determines the service and the key, as long as the service itself is
/// free of the separator — so two stores opened for distinct services
/// never address the same platform credential.
pub proof fn lemma_target_name_isolates(
    s1: Seq<char>,
    k1: Seq<char>,
    s2: Seq<char>,
    k2: Seq<char>,
)
    requires
        !s1.contains(':'),
        !s2.contains(':'),
        s1 + seq![':'] + k1 == s2 + seq![':'] + k2,
    ensures
        s1 == s2,
        k1 == k2,
{
    let t = s1 + seq![':'] + k1;
    assert(t[s1.len() as int] == ':');
    assert(t[s2.len() as int] == ':');
    if s1.len() < s2.len() {
        assert(s2[s1.len() as int] == ':');
        assert(s2.contains(':'));
        assert(false);
    }
    if s2.len() < s1.len() {
        assert(s1[s2.len() as int] == ':');
        assert(s1.contains(':'));
        assert(false);
    }
    assert(s1 =~= s2) by {
        assert forall|i: int| 0 <= i < s1.len() implies s1[i] == s2[i] by {
            assert(t[i] == s1[i]);
            assert(t[i] == s2[i]);
        }
    }
    assert(t.len() == s1.len() + 1 + k1.len());
    assert((s2 + seq![':'] + k2).len() == s2.len() + 1 + k2.len());
    assert(k1.len() == k2.len());
    assert(k1 =~= k2) by {
        assert forall|i: int| 0 <= i < k1.len() implies k1[i] == k2[i] by {
            assert(t[s1.len() + 1 + i] == k1[i]);
            assert((s2 + seq![':'] + k2)[s2.len() + 1 + i] == k2[i]);
            assert(t[s2.len() + 1 + i] == k2[i]);
        }
    }
}

proof fn lemma_wide_of_concat(a: Seq<char>, b: Seq<char>)
    ensures
        wide_of(a + b) == wide_of(a) + wide_of(b),
    decreases a.len(),
{
    if a.len() == 0 {
        assert(a + b =~= b);
        assert(wide_of(a) =~= Seq::<u16>::empty());
        assert(wide_of(a) + wide_of(b) =~= wide_of(b));
    } else {
        assert((a + b).first() == a.first());
        assert((a + b).drop_first() =~= a.drop_first() + b);
        lemma_wide_of_concat(a.drop_first(), b);
        assert(wide_of(a + b) =~= wide_of(a) + wide_of(b));
    }
}

} // verus!
