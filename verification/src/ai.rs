//! AI provider profiles and their secret payloads.
//!
//! An `AISecrets` value is the per-provider credential material of one
//! profile.  Input validation (a user submitting a secret) requires the
//! provider's mandatory field to be genuinely present; storage validation
//! (the redacted copy written to profile metadata) tolerates an empty
//! scalar — the scalar normally lives only in the vault — but still rejects
//! one that is present yet whitespace-only.

use vstd::prelude::*;
use vstd::utf8::encode_utf8;

use crate::error::AppError;
use crate::error::code_validation_ai_provider;
use crate::error::code_validation_ai_title;
use crate::text::is_blank;
use crate::text::str_is_blank;

verus! {

/// Credential material of one AI provider profile.
#[derive(Debug)]
#[allow(inconsistent_fields)]
pub enum AISecrets {
    OpenRouter { api_key: String },
    Ollama { base_url: String },
    LmStudio { base_url: String, api_key: Option<String> },
}

/// One AI provider profile: opaque stable id, optional title, optional
/// secret payload, and last-used bookkeeping.  Timestamps are carried as
/// strings chosen by the embedding application.
#[derive(Debug)]
pub struct AIProfile {
    pub id: String,
    pub title: Option<String>,
    pub secrets: Option<AISecrets>,
    pub last_used_model: Option<String>,
    pub created_at: String,
    pub last_used_at: Option<String>,
}

/// A bare API key scalar, as handed to the vault.
#[derive(Debug, Clone)]
pub struct ApiKeySecret {
    pub api_key: String,
}

impl Clone for AISecrets {
    /// An equal copy of the payload.
    fn clone(&self) -> (r: AISecrets)
        ensures
            r == *self,
    {
        match self {
            AISecrets::OpenRouter { api_key } => AISecrets::OpenRouter { api_key: api_key.clone() },
            AISecrets::Ollama { base_url } => AISecrets::Ollama { base_url: base_url.clone() },
            AISecrets::LmStudio { base_url, api_key } => AISecrets::LmStudio {
                base_url: base_url.clone(),
                api_key: match api_key {
                    Some(k) => Some(k.clone()),
                    None => None,
                },
            },
        }
    }
}

impl Clone for AIProfile {
    /// An equal copy of the profile.
    fn clone(&self) -> (r: AIProfile)
        ensures
            r == *self,
    {
        AIProfile {
            id: self.id.clone(),
            title: match &self.title {
                Some(t) => Some(t.clone()),
                None => None,
            },
            secrets: match &self.secrets {
                Some(s) => Some(s.clone()),
                None => None,
            },
            last_used_model: match &self.last_used_model {
                Some(m) => Some(m.clone()),
                None => None,
            },
            created_at: self.created_at.clone(),
            last_used_at: match &self.last_used_at {
                Some(t) => Some(t.clone()),
                None => None,
            },
        }
    }
}

/// The secret scalar of a payload: the API key where the provider has one.
pub open spec fn spec_api_key(s: AISecrets) -> Option<Seq<char>> {
    match s {
        AISecrets::OpenRouter { api_key } => Some(api_key@),
        AISecrets::Ollama { .. } => None,
        AISecrets::LmStudio { api_key, .. } => match api_key {
            Some(k) => Some(k@),
            None => None,
        },
    }
}

/// Whether a payload passes input validation: the provider's mandatory
/// field is present and not whitespace-only.
pub open spec fn secrets_input_ok(s: AISecrets) -> bool {
    match s {
        AISecrets::OpenRouter { api_key } => !is_blank(api_key@),
        AISecrets::Ollama { base_url } => !is_blank(base_url@),
        AISecrets::LmStudio { base_url, .. } => !is_blank(base_url@),
    }
}

/// Whether a payload passes storage validation: every field that is
/// present — the provider's mandatory field and an optional scalar alike —
/// is either empty (redacted) or not whitespace-only.
pub open spec fn secrets_storage_ok(s: AISecrets) -> bool {
    match s {
        AISecrets::OpenRouter { api_key } => api_key@.len() == 0 || !is_blank(api_key@),
        AISecrets::Ollama { base_url } => base_url@.len() == 0 || !is_blank(base_url@),
        AISecrets::LmStudio { base_url, api_key } => (base_url@.len() == 0 || !is_blank(
            base_url@,
        )) && (api_key matches Some(k) ==> (k@.len() == 0 || !is_blank(k@))),
    }
}

/// The diagnostic text reported when a payload fails input validation.
pub open spec fn secrets_input_err_details(s: AISecrets) -> Seq<char> {
    match s {
        AISecrets::OpenRouter { .. } => "openrouter.apiKey is required"@,
        AISecrets::Ollama { .. } => "ollama.baseUrl is required"@,
        AISecrets::LmStudio { .. } => "lmstudio.baseUrl is required"@,
    }
}

/// The diagnostic text reported when a payload fails storage validation;
/// the base URL is checked before the optional API key.
pub open spec fn secrets_storage_err_details(s: AISecrets) -> Seq<char> {
    match s {
        AISecrets::OpenRouter { .. } => "openrouter.apiKey cannot be whitespace only"@,
        AISecrets::Ollama { .. } => "ollama.baseUrl cannot be whitespace only"@,
        AISecrets::LmStudio { base_url, .. } => if !(base_url@.len() == 0 || !is_blank(
            base_url@,
        )) {
            "lmstudio.baseUrl cannot be whitespace only"@
        } else {
            "lmstudio.apiKey cannot be whitespace only"@
        },
    }
}

impl AISecrets {
    /// The provider tag of this payload.
    pub fn provider(&self) -> (r: &'static str)
        ensures
            match self {
                AISecrets::OpenRouter { .. } => r@ == "openrouter"@,
                AISecrets::Ollama { .. } => r@ == "ollama"@,
                AISecrets::LmStudio { .. } => r@ == "lmstudio"@,
            },
    {
        match self {
            AISecrets::OpenRouter { .. } => "openrouter",
            AISecrets::Ollama { .. } => "ollama",
            AISecrets::LmStudio { .. } => "lmstudio",
        }
    }

    /// The secret scalar, where the provider has one.
    pub fn api_key(&self) -> (r: Option<&str>)
        ensures
            match (r, spec_api_key(*self)) {
                (Some(k), Some(sk)) => k@ == sk,
                (None, None) => true,
                _ => false,
            },
    {
        match self {
            AISecrets::OpenRouter { api_key } => Some(api_key.as_str()),
            AISecrets::Ollama { .. } => None,
            AISecrets::LmStudio { api_key, .. } => match api_key {
                Some(k) => Some(k.as_str()),
                None => None,
            },
        }
    }

    /// Validate a payload a user submits; same as input validation.
    pub fn validate(&self) -> (r: Result<(), AppError>)
        ensures
            r is Ok <==> secrets_input_ok(*self),
            r matches Err(e) ==> e.code@ == code_validation_ai_provider() && (
            e.details matches Some(d) && d@ == secrets_input_err_details(*self)),
    {
        self.validate_for_input()
    }

    /// Reject a payload whose mandatory field is absent or whitespace-only.
    pub fn validate_for_input(&self) -> (r: Result<(), AppError>)
        ensures
            r is Ok <==> secrets_input_ok(*self),
            r matches Err(e) ==> e.code@ == code_validation_ai_provider() && (
            e.details matches Some(d) && d@ == secrets_input_err_details(*self)),
    {
        match self {
            AISecrets::OpenRouter { api_key } => {
                if str_is_blank(api_key.as_str()) {
                    return Err(
                        AppError::new(
                            "validation.ai-providers.provider",
                            Some("openrouter.apiKey is required".to_owned()),
                        ),
                    );
                }
            },
            AISecrets::Ollama { base_url } => {
                if str_is_blank(base_url.as_str()) {
                    return Err(
                        AppError::new(
                            "validation.ai-providers.provider",
                            Some("ollama.baseUrl is required".to_owned()),
                        ),
                    );
                }
            },
            AISecrets::LmStudio { base_url, .. } => {
                if str_is_blank(base_url.as_str()) {
                    return Err(
                        AppError::new(
                            "validation.ai-providers.provider",
                            Some("lmstudio.baseUrl is required".to_owned()),
                        ),
                    );
                }
            },
        }
        Ok(())
    }

    /// Reject a payload holding any field — the mandatory one or an
    /// optional scalar — that is present yet whitespace-only; an empty
    /// (redacted) field is tolerated.
    pub fn validate_for_storage(&self) -> (r: Result<(), AppError>)
        ensures
            r is Ok <==> secrets_storage_ok(*self),
            r matches Err(e) ==> e.code@ == code_validation_ai_provider() && (
            e.details matches Some(d) && d@ == secrets_storage_err_details(*self)),
    {
        match self {
            AISecrets::OpenRouter { api_key } => {
                if !api_key.as_str().is_empty() && str_is_blank(api_key.as_str()) {
                    return Err(
                        AppError::new(
                            "validation.ai-providers.provider",
                            Some("openrouter.apiKey cannot be whitespace only".to_owned()),
                        ),
                    );
                }
            },
            AISecrets::Ollama { base_url } => {
                if !base_url.as_str().is_empty() && str_is_blank(base_url.as_str()) {
                    return Err(
                        AppError::new(
                            "validation.ai-providers.provider",
                            Some("ollama.baseUrl cannot be whitespace only".to_owned()),
                        ),
                    );
                }
            },
            AISecrets::LmStudio { base_url, api_key } => {
                if !base_url.as_str().is_empty() && str_is_blank(base_url.as_str()) {
                    return Err(
                        AppError::new(
                            "validation.ai-providers.provider",
                            Some("lmstudio.baseUrl cannot be whitespace only".to_owned()),
                        ),
                    );
                }
                match api_key {
                    Some(k) => {
                        if !k.as_str().is_empty() && str_is_blank(k.as_str()) {
                            return Err(
                                AppError::new(
                                    "validation.ai-providers.provider",
                                    Some("lmstudio.apiKey cannot be whitespace only".to_owned()),
                                ),
                            );
                        }
                    },
                    None => {},
                }
            },
        }
        Ok(())
    }
}

/// Whether a profile's own fields pass validation: a non-empty id and a
/// title of at most 128 bytes.
pub open spec fn profile_fields_ok(p: AIProfile) -> bool {
    p.id@.len() > 0 && (p.title matches Some(t) ==> encode_utf8(t@).len() <= 128)
}

/// Whether a profile passes input validation.
pub open spec fn profile_input_ok(p: AIProfile) -> bool {
    profile_fields_ok(p) && (p.secrets matches Some(s) ==> secrets_input_ok(s))
}

/// Whether a profile passes storage validation.
pub open spec fn profile_storage_ok(p: AIProfile) -> bool {
    profile_fields_ok(p) && (p.secrets matches Some(s) ==> secrets_storage_ok(s))
}

/// The code reported when a profile fails validation: the id is checked
/// first, then the title, then the secret payload.
pub open spec fn profile_err_code(p: AIProfile) -> Seq<char> {
    if p.id@.len() == 0 {
        code_validation_ai_provider()
    } else if !(p.title matches Some(t) ==> encode_utf8(t@).len() <= 128) {
        code_validation_ai_title()
    } else {
        code_validation_ai_provider()
    }
}

impl AIProfile {
    /// Validate a profile about to be persisted; same as storage validation.
    pub fn validate(&self) -> (r: Result<(), AppError>)
        ensures
            r is Ok <==> profile_storage_ok(*self),
            r matches Err(e) ==> e.code@ == profile_err_code(*self),
    {
        self.validate_for_storage()
    }

    /// Reject a profile with an empty id, an over-long title, or a secret
    /// payload that fails input validation.
    pub fn validate_for_input(&self) -> (r: Result<(), AppError>)
        ensures
            r is Ok <==> profile_input_ok(*self),
            r matches Err(e) ==> e.code@ == profile_err_code(*self),
    {
        if self.id.as_str().is_empty() {
            return Err(AppError::new("validation.ai-providers.provider", None));
        }
        match &self.title {
            Some(t) => {
                if crate::text::byte_len(t.as_str()) > 128 {
                    return Err(AppError::new("validation.ai-providers.title", None));
                }
            },
            None => {},
        }
        match &self.secrets {
            Some(s) => s.validate_for_input(),
            None => Ok(()),
        }
    }

    /// Reject a profile with an empty id, an over-long title, or a secret
    /// payload that fails storage validation.
    pub fn validate_for_storage(&self) -> (r: Result<(), AppError>)
        ensures
            r is Ok <==> profile_storage_ok(*self),
            r matches Err(e) ==> e.code@ == profile_err_code(*self),
    {
        if self.id.as_str().is_empty() {
            return Err(AppError::new("validation.ai-providers.provider", None));
        }
        match &self.title {
            Some(t) => {
                if crate::text::byte_len(t.as_str()) > 128 {
                    return Err(AppError::new("validation.ai-providers.title", None));
                }
            },
            None => {},
        }
        match &self.secrets {
            Some(s) => s.validate_for_storage(),
            None => Ok(()),
        }
    }
}

} // verus!
