//! Secret lifecycle of AI provider profiles.
//!
//! The profile's secret scalar lives only in the vault, keyed by an
//! identifier derived from the profile id.  What goes to the settings store
//! is a redacted copy of the payload: the scalar blanked, non-secret fields
//! kept.  A read merges the redacted copy with whatever the vault holds —
//! the vault value wins where present, otherwise the secret is reported as
//! stored.

use vstd::prelude::*;

use crate::ai::AIProfile;
use crate::ai::AISecrets;
use crate::ai::secrets_input_ok;
use crate::ai::secrets_storage_ok;
use crate::ai::spec_api_key;
use crate::error::AppError;
use crate::secret_store::SecretStore;
use crate::settings_ai::AISettings;

verus! {

/// The vault key under which a profile's secret scalar is stored.
pub open spec fn store_key_of(profile_id: Seq<char>) -> Seq<char> {
    "ai-profile-"@ + profile_id
}

/// Derive the vault key for a profile id.
pub fn get_ai_profile_store_key(profile_id: &str) -> (r: String)
    ensures
        r@ == store_key_of(profile_id@),
{
    let mut key: String = "ai-profile-".to_owned();
    key.append(profile_id);
    key
}

/// Store a profile's API key in the vault.
pub fn set_api_key<S: SecretStore>(store: &mut S, profile_id: &str, api_key: &str) -> (r: Result<
    (),
    AppError,
>)
    ensures
        final(store).service() == old(store).service(),
        final(store).exact() == old(store).exact(),
        r is Ok ==> final(store).known() == old(store).known().insert(
            store_key_of(profile_id@),
            api_key@,
        ),
        r is Err ==> final(store).known() == old(store).known(),
{
    let key = get_ai_profile_store_key(profile_id);
    store.set(key.as_str(), api_key)
}

/// Fetch a profile's API key from the vault; `Ok(None)` when the vault
/// holds nothing for the profile.
pub fn get_api_key<S: SecretStore>(store: &mut S, profile_id: &str) -> (r: Result<
    Option<String>,
    AppError,
>)
    ensures
        final(store).service() == old(store).service(),
        final(store).exact() == old(store).exact(),
        match r {
            Ok(Some(v)) => final(store).known() == old(store).known().insert(
                store_key_of(profile_id@),
                v@,
            ),
            Ok(None) => final(store).known() == old(store).known() && !old(
                store,
            ).known().contains_key(store_key_of(profile_id@)),
            Err(_) => final(store).known() == old(store).known(),
        },
        old(store).known().contains_key(store_key_of(profile_id@)) ==> match r {
            Ok(Some(v)) => v@ == old(store).known()[store_key_of(profile_id@)],
            _ => false,
        },
        old(store).exact() ==> match r {
            Ok(Some(v)) => old(store).known().contains_key(store_key_of(profile_id@)) && v@
                == old(store).known()[store_key_of(profile_id@)],
            Ok(None) => !old(store).known().contains_key(store_key_of(profile_id@)),
            Err(_) => true,
        },
{
    let key = get_ai_profile_store_key(profile_id);
    store.get(key.as_str())
}

/// Delete a profile's API key from the vault; removing an absent key
/// succeeds.
pub fn remove_api_key<S: SecretStore>(store: &mut S, profile_id: &str) -> (r: Result<
    (),
    AppError,
>)
    ensures
        final(store).service() == old(store).service(),
        final(store).exact() == old(store).exact(),
        r is Ok ==> final(store).known() == old(store).known().remove(store_key_of(profile_id@)),
        r is Err ==> final(store).known() == old(store).known(),
{
    let key = get_ai_profile_store_key(profile_id);
    store.remove(key.as_str())
}

/// Whether `r` is the redacted form of `s`: the secret scalar blanked, the
/// non-secret fields kept, the provider unchanged.
pub open spec fn is_redaction_of(r: AISecrets, s: AISecrets) -> bool {
    match (s, r) {
        (AISecrets::OpenRouter { .. }, AISecrets::OpenRouter { api_key: rk }) => rk@.len() == 0,
        (
            AISecrets::Ollama { base_url: b },
            AISecrets::Ollama { base_url: rb },
        ) => rb@ == b@,
        (
            AISecrets::LmStudio { base_url: b, .. },
            AISecrets::LmStudio { base_url: rb, api_key: rk },
        ) => rb@ == b@ && rk is None,
        _ => false,
    }
}

/// Whether `r` is `s` with the vault scalar `k` merged back in: the scalar
/// restored where the provider has one, the non-secret fields kept.
pub open spec fn is_reconstruction_of(r: AISecrets, s: AISecrets, k: Seq<char>) -> bool {
    match (s, r) {
        (AISecrets::OpenRouter { .. }, AISecrets::OpenRouter { api_key: rk }) => rk@ == k,
        (
            AISecrets::Ollama { base_url: b },
            AISecrets::Ollama { base_url: rb },
        ) => rb@ == b@,
        (
            AISecrets::LmStudio { base_url: b, .. },
            AISecrets::LmStudio { base_url: rb, api_key: rk },
        ) => rb@ == b@ && (rk matches Some(rkk) && rkk@ == k),
        _ => false,
    }
}

/// Whether two payloads have the same provider and field contents.
pub open spec fn secrets_like(a: AISecrets, b: AISecrets) -> bool {
    match (a, b) {
        (
            AISecrets::OpenRouter { api_key: x },
            AISecrets::OpenRouter { api_key: y },
        ) => x@ == y@,
        (AISecrets::Ollama { base_url: x }, AISecrets::Ollama { base_url: y }) => x@ == y@,
        (
            AISecrets::LmStudio { base_url: x, api_key: kx },
            AISecrets::LmStudio { base_url: y, api_key: ky },
        ) => x@ == y@ && match (kx, ky) {
            (Some(a1), Some(b1)) => a1@ == b1@,
            (None, None) => true,
            _ => false,
        },
        _ => false,
    }
}

/// The copy of a secret payload that may be persisted outside the vault.
pub fn redact_secrets(secrets: &AISecrets) -> (r: AISecrets)
    ensures
        is_redaction_of(r, *secrets),
{
    match secrets {
        AISecrets::OpenRouter { .. } => AISecrets::OpenRouter { api_key: String::new() },
        AISecrets::Ollama { base_url } => AISecrets::Ollama { base_url: base_url.clone() },
        AISecrets::LmStudio { base_url, .. } => AISecrets::LmStudio {
            base_url: base_url.clone(),
            api_key: None,
        },
    }
}

/// The caller-visible payload: the redacted copy with the vault scalar
/// merged back in.
pub fn reconstruct_secrets(secrets: &AISecrets, api_key: String) -> (r: AISecrets)
    ensures
        is_reconstruction_of(r, *secrets, api_key@),
{
    match secrets {
        AISecrets::OpenRouter { .. } => AISecrets::OpenRouter { api_key },
        AISecrets::Ollama { base_url } => AISecrets::Ollama { base_url: base_url.clone() },
        AISecrets::LmStudio { base_url, .. } => AISecrets::LmStudio {
            base_url: base_url.clone(),
            api_key: Some(api_key),
        },
    }
}

/// Whether two profiles agree on everything but the secret payload.
pub open spec fn same_profile_meta(a: AIProfile, b: AIProfile) -> bool {
    a.id == b.id && a.title == b.title && a.last_used_model == b.last_used_model && a.created_at
        == b.created_at && a.last_used_at == b.last_used_at
}

/// Whether `shown` is the stored profile `stored` as presented to a
/// caller, given what the vault was known to hold: metadata kept; the
/// secret payload absent where the stored row has none, reconstructed from
/// the vault value where the vault was known to hold one, and otherwise
/// either kept as stored or reconstructed from a fresh vault observation.
pub open spec fn presented_profile(
    shown: AIProfile,
    stored: AIProfile,
    known: Map<Seq<char>, Seq<char>>,
) -> bool {
    same_profile_meta(stored, shown) && match stored.secrets {
        None => shown.secrets is None,
        Some(s) => shown.secrets matches Some(s1) && (if known.contains_key(
            store_key_of(stored.id@),
        ) {
            is_reconstruction_of(s1, s, known[store_key_of(stored.id@)])
        } else {
            s1 == s || (exists|k: Seq<char>| is_reconstruction_of(s1, s, k))
        }),
    }
}

fn clone_opt_string(o: &Option<String>) -> (r: Option<String>)
    ensures
        r == *o,
{
    match o {
        Some(s) => Some(s.clone()),
        None => None,
    }
}

/// Present every stored profile to the caller, merging each with whatever
/// the vault holds for it.  One profile's vault miss or failure never
/// prevents returning the others: such a profile keeps its stored, redacted
/// payload.
pub fn get_ai_profiles<S: SecretStore>(store: &mut S, settings: &AISettings) -> (r: Result<
    Vec<AIProfile>,
    AppError,
>)
    ensures
        final(store).service() == old(store).service(),
        final(store).exact() == old(store).exact(),
        forall|k: Seq<char>| #[trigger]
            old(store).known().contains_key(k) ==> final(store).known().contains_key(k)
                && final(store).known()[k] == old(store).known()[k],
        match r {
            Ok(ps) => ps@.len() == settings.profiles@.len() && (forall|i: int|
                0 <= i < ps@.len() ==> presented_profile(
                    #[trigger] ps@[i],
                    settings.profiles@[i],
                    old(store).known(),
                )),
            Err(_) => false,
        },
{
    let mut out: Vec<AIProfile> = Vec::new();
    let n = settings.profiles.len();
    let mut i: usize = 0;
    while i < n
        invariant
            n == settings.profiles@.len(),
            i <= n,
            out@.len() == i,
            store.service() == old(store).service(),
            store.exact() == old(store).exact(),
            forall|k: Seq<char>| #[trigger]
                old(store).known().contains_key(k) ==> store.known().contains_key(k)
                    && store.known()[k] == old(store).known()[k],
            forall|j: int|
                0 <= j < i ==> presented_profile(
                    #[trigger] out@[j],
                    settings.profiles@[j],
                    old(store).known(),
                ),
        decreases n - i,
    {
        let p = &settings.profiles[i];
        let api_key = match get_api_key(store, p.id.as_str()) {
            Ok(v) => v,
            Err(_) => None,
        };
        let secrets_with_key = match (&p.secrets, api_key) {
            (Some(s), Some(k)) => Some(reconstruct_secrets(s, k)),
            (Some(s), None) => Some(s.clone()),
            _ => None,
        };
        out.push(
            AIProfile {
                id: p.id.clone(),
                title: clone_opt_string(&p.title),
                secrets: secrets_with_key,
                last_used_model: clone_opt_string(&p.last_used_model),
                created_at: p.created_at.clone(),
                last_used_at: clone_opt_string(&p.last_used_at),
            },
        );
        i += 1;
    }
    Ok(out)
}

/// Whether `p` is a freshly created profile row: given id, title and
/// creation time, no last-used bookkeeping yet.
pub open spec fn new_profile_meta(
    p: AIProfile,
    profile_id: Seq<char>,
    title: Option<String>,
    now: Seq<char>,
) -> bool {
    p.id@ == profile_id && p.title == title && p.created_at@ == now && p.last_used_model is None
        && p.last_used_at is None
}

/// Whether `s1` holds the profile rows of `s0` followed by one new row for
/// the given profile, its secret payload redacted.
pub open spec fn pushed_redacted_row(
    s1: AISettings,
    s0: AISettings,
    profile_id: Seq<char>,
    title: Option<String>,
    secrets: Option<AISecrets>,
    now: Seq<char>,
) -> bool {
    s1.profiles@.len() == s0.profiles@.len() + 1 && s1.profiles@.subrange(
        0,
        s0.profiles@.len() as int,
    ) == s0.profiles@ && ({
        let stored = s1.profiles@.last();
        new_profile_meta(stored, profile_id, title, now) && match secrets {
            None => stored.secrets is None,
            Some(s) => stored.secrets matches Some(rs) && is_redaction_of(rs, s),
        }
    })
}

/// Create a profile: validate the payload, write its scalar to the vault,
/// append a redacted row to the settings, and return the profile as the
/// caller sees it, with the scalar read back from the vault.
///
/// The scalar reaches the vault before the metadata row is appended, so a
/// vault failure leaves the settings untouched; a failure of the read-back
/// leaves the row in place and surfaces the error.
pub fn add_ai_profile<S: SecretStore>(
    store: &mut S,
    settings: &mut AISettings,
    title: Option<String>,
    secrets: Option<AISecrets>,
    profile_id: String,
    now: String,
) -> (r: Result<AIProfile, AppError>)
    ensures
        final(store).service() == old(store).service(),
        final(store).exact() == old(store).exact(),
        forall|k: Seq<char>|
            k != store_key_of(profile_id@) && #[trigger] old(store).known().contains_key(k)
                ==> final(store).known().contains_key(k) && final(store).known()[k] == old(
                store,
            ).known()[k],
        (match secrets {
            Some(s) => !secrets_input_ok(s),
            None => false,
        }) ==> r is Err,
        match r {
            Ok(p) => ({
                let key = store_key_of(profile_id@);
                pushed_redacted_row(
                    *final(settings),
                    *old(settings),
                    profile_id@,
                    title,
                    secrets,
                    now@,
                ) && new_profile_meta(p, profile_id@, title, now@) && match secrets {
                    None => p.secrets is None,
                    Some(s) => p.secrets matches Some(s1) && match spec_api_key(s) {
                        Some(ak) => is_reconstruction_of(s1, s, ak) && final(store).known()
                            == old(store).known().insert(key, ak),
                        None => (if old(store).known().contains_key(key) {
                            is_reconstruction_of(s1, s, old(store).known()[key])
                        } else {
                            s1 == s || (exists|k2: Seq<char>| is_reconstruction_of(s1, s, k2))
                        }),
                    },
                }
            }),
            Err(e) => ({
                &&& (match secrets {
                    Some(s) => !secrets_input_ok(s),
                    None => false,
                }) ==> (e.code@ == crate::error::code_validation_ai_provider()
                    && *final(settings) == *old(settings) && final(store).known() == old(store).known())
                &&& (match secrets {
                    Some(s) => secrets_input_ok(s),
                    None => true,
                }) ==> (*final(settings) == *old(settings) || pushed_redacted_row(
                    *final(settings),
                    *old(settings),
                    profile_id@,
                    title,
                    secrets,
                    now@,
                ))
            }),
        },
{
    match &secrets {
        Some(s) => {
            match s.validate() {
                Ok(()) => {},
                Err(e) => {
                    return Err(e);
                },
            }
            match s.api_key() {
                Some(ak) => {
                    match set_api_key(store, profile_id.as_str(), ak) {
                        Ok(()) => {},
                        Err(e) => {
                            return Err(e);
                        },
                    }
                },
                None => {},
            }
        },
        None => {},
    }
    let secrets_for_db = match &secrets {
        Some(s) => Some(redact_secrets(s)),
        None => None,
    };
    let ghost rows_before = settings.profiles@;
    settings.profiles.push(
        AIProfile {
            id: profile_id.clone(),
            title: clone_opt_string(&title),
            secrets: secrets_for_db,
            last_used_model: None,
            created_at: now.clone(),
            last_used_at: None,
        },
    );
    proof {
        assert(settings.profiles@.subrange(0, rows_before.len() as int) =~= rows_before);
    }
    let api_key = match get_api_key(store, profile_id.as_str()) {
        Ok(v) => v,
        Err(e) => {
            return Err(e);
        },
    };
    let secrets_with_key = match (&secrets, api_key) {
        (Some(s), Some(k)) => Some(reconstruct_secrets(s, k)),
        (Some(s), None) => Some(s.clone()),
        _ => None,
    };
    Ok(
        AIProfile {
            id: profile_id,
            title,
            secrets: secrets_with_key,
            last_used_model: None,
            created_at: now,
            last_used_at: None,
        },
    )
}

/// Remove a profile: best-effort deletion of its vault entry — a vault
/// failure must not block deleting the metadata — then drop its rows from
/// the settings.
pub fn remove_ai_profile<S: SecretStore>(store: &mut S, settings: &mut AISettings, id: &str) -> (r:
    Result<(), AppError>)
    ensures
        r is Ok,
        final(store).service() == old(store).service(),
        final(store).exact() == old(store).exact(),
        final(store).known() == old(store).known().remove(store_key_of(id@))
            || final(store).known() == old(store).known(),
        final(settings).profiles@ == old(settings).profiles@.filter(
            |p: AIProfile| p.id@ != id@,
        ),
{
    let _ = remove_api_key(store, id);
    let target: String = id.to_owned();
    let mut kept: Vec<AIProfile> = Vec::new();
    let n = settings.profiles.len();
    let mut i: usize = 0;
    while i < n
        invariant
            target@ == id@,
            n == settings.profiles@.len(),
            i <= n,
            kept@ == settings.profiles@.subrange(0, i as int).filter(
                |p: AIProfile| p.id@ != id@,
            ),
        decreases n - i,
    {
        let ghost prefix = settings.profiles@.subrange(0, i as int);
        let p = &settings.profiles[i];
        let keep = !(p.id == target);
        if keep {
            kept.push(p.clone());
        }
        proof {
            let longer = settings.profiles@.subrange(0, i + 1);
            assert(longer.drop_last() =~= prefix);
            assert(longer.last() == settings.profiles@[i as int]);
            reveal_with_fuel(Seq::<AIProfile>::filter, 2);
        }
        i += 1;
    }
    proof {
        assert(settings.profiles@.subrange(0, n as int) =~= settings.profiles@);
    }
    settings.profiles = kept;
    Ok(())
}

/// Update a profile's last-used bookkeeping: the first row with the id
/// gets the new timestamp, and the model tag where one is given.  The
/// vault is never touched; an unknown id changes nothing.
pub fn touch_ai_profile(
    settings: &mut AISettings,
    id: &str,
    model_id: Option<String>,
    now: String,
) -> (r: Result<(), AppError>)
    ensures
        r is Ok,
        (forall|j: int|
            0 <= j < old(settings).profiles@.len() ==> (#[trigger] old(
                settings,
            ).profiles@[j]).id@ != id@) ==> *final(settings) == *old(settings),
        forall|i: int|
            ({
                &&& 0 <= i < old(settings).profiles@.len()
                &&& (#[trigger] old(settings).profiles@[i]).id@ == id@
                &&& forall|j: int|
                    0 <= j < i ==> (#[trigger] old(settings).profiles@[j]).id@ != id@
            }) ==> ({
                let p0 = old(settings).profiles@[i];
                let p1 = final(settings).profiles@[i];
                &&& final(settings).profiles@ == old(settings).profiles@.update(i, p1)
                &&& p1.id == p0.id
                &&& p1.title == p0.title
                &&& p1.secrets == p0.secrets
                &&& p1.created_at == p0.created_at
                &&& p1.last_used_at matches Some(t) && t@ == now@
                &&& match model_id {
                    Some(m) => p1.last_used_model == Some(m),
                    None => p1.last_used_model == p0.last_used_model,
                }
            }),
{
    let target: String = id.to_owned();
    let n = settings.profiles.len();
    let mut i: usize = 0;
    while i < n
        invariant
            target@ == id@,
            n == settings.profiles@.len(),
            i <= n,
            forall|j: int| 0 <= j < i ==> (#[trigger] settings.profiles@[j]).id@ != id@,
            *settings == *old(settings),
        decreases n - i,
    {
        if settings.profiles[i].id == target {
            let p = settings.profiles.remove(i);
            let updated = AIProfile {
                id: p.id,
                title: p.title,
                secrets: p.secrets,
                last_used_model: match &model_id {
                    Some(m) => Some(m.clone()),
                    None => p.last_used_model,
                },
                created_at: p.created_at,
                last_used_at: Some(now),
            };
            settings.profiles.insert(i, updated);
            proof {
                assert(settings.profiles@ =~= old(settings).profiles@.update(
                    i as int,
                    settings.profiles@[i as int],
                ));
            }
            return Ok(());
        }
        i += 1;
    }
    Ok(())
}

/// Law: a redacted payload never carries a secret scalar — its API key is
/// absent or empty — its provider tag is unchanged, and it passes storage
/// validation whenever the original passed input or storage validation.
pub proof fn lemma_redaction_is_safe(r: AISecrets, s: AISecrets)
    requires
        is_redaction_of(r, s),
    ensures
        match spec_api_key(r) {
            Some(k) => k.len() == 0,
            None => true,
        },
        secrets_input_ok(s) ==> secrets_storage_ok(r),
        secrets_storage_ok(s) ==> secrets_storage_ok(r),
{
}

/// Law: reconstruction restores exactly the vault scalar where the
/// provider has one, and leaves a provider without a secret scalar alone.
pub proof fn lemma_reconstruction_restores_scalar(r: AISecrets, s: AISecrets, k: Seq<char>)
    requires
        is_reconstruction_of(r, s, k),
    ensures
        match s {
            AISecrets::Ollama { .. } => spec_api_key(r) is None,
            _ => spec_api_key(r) == Some(k),
        },
{
}

/// Law: redacting a payload and merging the original scalar back in yields
/// the original payload, field for field.
pub proof fn lemma_redact_reconstruct_round_trip(
    s: AISecrets,
    redacted: AISecrets,
    rebuilt: AISecrets,
    k: Seq<char>,
)
    requires
        is_redaction_of(redacted, s),
        is_reconstruction_of(rebuilt, redacted, k),
        spec_api_key(s) == Some(k),
    ensures
        secrets_like(rebuilt, s),
{
}

} // verus!
