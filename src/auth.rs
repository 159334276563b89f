//! Decisions of the OAuth login workflow: supported providers, the stored
//! form of a pending login, and the checks before a redirect or a token is
//! accepted.
use vstd::prelude::*;
use crate::text::{owned, str_eq, trim, trimmed};

verus! {

/// A provider that signs in through OAuth.
#[derive(Debug, Clone, Copy, PartialEq, Eq, Structural)]
pub enum OAuthProvider {
    OpenAiCodex,
    Gemini,
}

pub open spec fn oauth_provider_of(provider: Seq<char>) -> Option<OAuthProvider> {
    if provider == "openai-codex"@ {
        Some(OAuthProvider::OpenAiCodex)
    } else if provider == "gemini"@ {
        Some(OAuthProvider::Gemini)
    } else {
        None
    }
}

/// Whether `provider` signs in through OAuth.
pub open spec fn oauth_provider(provider: Seq<char>) -> bool {
    oauth_provider_of(provider) is Some
}

pub open spec fn pending_key_text(p: OAuthProvider) -> Seq<char> {
    match p {
        OAuthProvider::OpenAiCodex => "openai"@,
        OAuthProvider::Gemini => "gemini"@,
    }
}

impl OAuthProvider {
    /// The name under which its pending login is stored.
    pub fn pending_key(self) -> (r: &'static str)
        ensures
            r@ == pending_key_text(self),
    {
        match self {
            OAuthProvider::OpenAiCodex => "openai",
            OAuthProvider::Gemini => "gemini",
        }
    }
}

/// Reads an OAuth provider name.
pub fn parse_oauth_provider(provider: &str) -> (r: Option<OAuthProvider>)
    ensures
        r == oauth_provider_of(provider@),
{
    if str_eq(provider, "openai-codex") {
        Some(OAuthProvider::OpenAiCodex)
    } else if str_eq(provider, "gemini") {
        Some(OAuthProvider::Gemini)
    } else {
        None
    }
}

/// `auth login` works for OAuth providers only.
pub fn login_provider_check(provider: &str) -> (r: Result<OAuthProvider, String>)
    ensures
        match oauth_provider_of(provider@) {
            Some(p) => r == Ok::<OAuthProvider, String>(p),
            None => r matches Err(e)
                && e@ == "`auth login` supports --provider openai-codex or gemini, got: "@ + provider@,
        },
{
    match parse_oauth_provider(provider) {
        Some(p) => Ok(p),
        None => {
            let mut e = owned("`auth login` supports --provider openai-codex or gemini, got: ");
            e.append(provider);
            Err(e)
        },
    }
}

/// A login started in the browser and waiting for its redirect.
#[derive(Debug, Clone)]
pub struct PendingOAuthLogin {
    pub provider: String,
    pub profile: String,
    pub code_verifier: String,
    pub state: String,
    pub created_at: String,
}

/// A pending login as it is stored on disk. The code verifier is written
/// only encrypted; a plaintext one is read from older files.
#[derive(Debug, Clone)]
pub struct PendingOAuthLoginRecord {
    pub provider: Option<String>,
    pub profile: String,
    pub code_verifier: Option<String>,
    pub encrypted_code_verifier: Option<String>,
    pub state: String,
    pub created_at: String,
}

/// The record to store for a pending login whose verifier encrypts to `encrypted`.
pub fn pending_record_to_store(p: &PendingOAuthLogin, encrypted: String) -> (r: PendingOAuthLoginRecord)
    ensures
        r.code_verifier is None,
        r.encrypted_code_verifier == Some(encrypted),
        r.provider == Some(p.provider),
        r.profile == p.profile,
        r.state == p.state,
        r.created_at == p.created_at,
{
    PendingOAuthLoginRecord {
        provider: Some(p.provider.clone()),
        profile: p.profile.clone(),
        code_verifier: None,
        encrypted_code_verifier: Some(encrypted),
        state: p.state.clone(),
        created_at: p.created_at.clone(),
    }
}

/// Where a stored record's code verifier comes from.
#[derive(Debug, Clone)]
pub enum VerifierSource {
    /// Decrypt this with the secret store.
    Encrypted(String),
    /// A legacy plaintext verifier.
    Plain(String),
}

/// The encrypted verifier when there is one, else a legacy plaintext one.
pub fn pending_verifier_source(rec: &PendingOAuthLoginRecord, provider: &str) -> (r: Result<VerifierSource, String>)
    ensures
        rec.encrypted_code_verifier matches Some(c) ==> r == Ok::<VerifierSource, String>(VerifierSource::Encrypted(c)),
        rec.encrypted_code_verifier is None && rec.code_verifier is Some
            ==> r == Ok::<VerifierSource, String>(VerifierSource::Plain(rec.code_verifier->0)),
        rec.encrypted_code_verifier is None && rec.code_verifier is None
            ==> (r matches Err(e) && e@ == "Pending "@ + provider@ + " login is missing code verifier"@),
{
    match &rec.encrypted_code_verifier {
        Some(c) => Ok(VerifierSource::Encrypted(c.clone())),
        None => match &rec.code_verifier {
            Some(v) => Ok(VerifierSource::Plain(v.clone())),
            None => {
                let mut e = owned("Pending ");
                e.append(provider);
                e.append(" login is missing code verifier");
                Err(e)
            },
        },
    }
}

/// The pending login that a record holds, given its verifier in plaintext;
/// a record without a provider belongs to the one it was loaded for.
pub fn pending_from_record(rec: PendingOAuthLoginRecord, provider: &str, code_verifier: String) -> (r: PendingOAuthLogin)
    ensures
        match rec.provider {
            Some(p) => r.provider == p,
            None => r.provider@ == provider@,
        },
        r.profile == rec.profile,
        r.code_verifier == code_verifier,
        r.state == rec.state,
        r.created_at == rec.created_at,
{
    let provider = match rec.provider {
        Some(p) => p,
        None => owned(provider),
    };
    PendingOAuthLogin {
        provider,
        profile: rec.profile,
        code_verifier,
        state: rec.state,
        created_at: rec.created_at,
    }
}

pub open spec fn missing_pending_text(p: OAuthProvider) -> Seq<char> {
    match p {
        OAuthProvider::OpenAiCodex => "No pending OpenAI login found. Run `zeroclaw auth login --provider openai-codex` first."@,
        OAuthProvider::Gemini => "No pending Gemini login found. Run `zeroclaw auth login --provider gemini` first."@,
    }
}

/// Checks a pasted redirect before the code is exchanged: the provider
/// signs in through OAuth, a login is pending, and it was started for the
/// same profile.
pub fn paste_redirect_check(provider: &str, pending: Option<&PendingOAuthLogin>, profile: &str) -> (r: Result<(), String>)
    ensures
        r is Ok <==> (oauth_provider(provider@) && pending is Some && pending->0.profile@ == profile@),
        !oauth_provider(provider@) ==> (r matches Err(e)
            && e@ == "`auth paste-redirect` supports --provider openai-codex or gemini"@),
        oauth_provider(provider@) && pending is None ==> (r matches Err(e)
            && e@ == missing_pending_text(oauth_provider_of(provider@)->0)),
        oauth_provider(provider@) && pending is Some && pending->0.profile@ != profile@ ==> (r matches Err(e)
            && e@ == "Pending login profile mismatch: pending="@ + pending->0.profile@ + ", requested="@ + profile@),
{
    let p = match parse_oauth_provider(provider) {
        Some(p) => p,
        None => return Err(owned("`auth paste-redirect` supports --provider openai-codex or gemini")),
    };
    let pending = match pending {
        Some(x) => x,
        None => {
            return match p {
                OAuthProvider::OpenAiCodex => Err(owned(
                    "No pending OpenAI login found. Run `zeroclaw auth login --provider openai-codex` first.",
                )),
                OAuthProvider::Gemini => Err(owned(
                    "No pending Gemini login found. Run `zeroclaw auth login --provider gemini` first.",
                )),
            };
        },
    };
    if !str_eq(pending.profile.as_str(), profile) {
        let mut e = owned("Pending login profile mismatch: pending=");
        e.append(pending.profile.as_str());
        e.append(", requested=");
        e.append(profile);
        return Err(e);
    }
    Ok(())
}

/// A pasted token without surrounding whitespace; an empty one is refused.
pub fn checked_token(raw: &str) -> (r: Result<String, String>)
    ensures
        r is Err <==> trimmed(raw@).len() == 0,
        r matches Ok(t) ==> t@ == trimmed(raw@),
        r matches Err(e) ==> e@ == "Token cannot be empty"@,
{
    let t = trim(raw);
    if t.unicode_len() == 0 {
        return Err(owned("Token cannot be empty"));
    }
    Ok(owned(t))
}

} // verus!
