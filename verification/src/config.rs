//! The App's configuration: identity, key material, webhook secret, and
//! webhook signature verification.

use crate::crypto::{hex_encode, hex_of, hmac_sha256, hmac_sha256_of};
use crate::error::OctoAppError;
use crate::strutil::{byte_len, dec_rep, opt_view, push_u64, str_has_prefix, str_tail_eq};
use vstd::prelude::*;
use vstd::utf8::encode_utf8;

verus! {

/// The immutable configuration of a GitHub App: display name, numeric App
/// id, OAuth client id and secret, signing key, and webhook shared secret.
/// Only the App id is required; every other field is optional, and an
/// operation that needs an absent field fails with
/// [`OctoAppError::MissingField`].
pub struct OctoAppConfig {
    app_name: Option<String>,
    app_id: u32,
    client_id: Option<String>,
    client_secret: Option<String>,
    client_key: Option<jsonwebtoken::EncodingKey>,
    webhook_secret: Option<String>,
}

/// The signature this crate computes for a body under a secret: the literal
/// prefix `sha256=` followed by the lowercase hex HMAC-SHA-256 digest.
pub open spec fn spec_signature_for(secret: Seq<char>, data: Seq<u8>) -> Seq<char> {
    "sha256="@ + hex_of(hmac_sha256_of(encode_utf8(secret), data))
}

/// Whether a presented signature is accepted for `data` under `secret`:
/// it must carry the `sha256=` prefix, and the remainder must equal the
/// hex digest of the body.
pub open spec fn spec_signature_accepts(secret: Seq<char>, data: Seq<u8>, sig: Seq<char>) -> bool {
    &&& sig.len() >= 7
    &&& sig.take(7) == "sha256="@
    &&& sig.skip(7) == hex_of(hmac_sha256_of(encode_utf8(secret), data))
}

/// What verification returns: false whenever no secret is configured, and
/// otherwise exactly [`spec_signature_accepts`].
pub open spec fn spec_verify(secret: Option<Seq<char>>, data: Seq<u8>, sig: Seq<char>) -> bool {
    match secret {
        None => false,
        Some(s) => spec_signature_accepts(s, data, sig),
    }
}

/// A signature created from a secret verifies against the body it was
/// created for: for every secret and body,
/// `spec_signature_for(secret, body)` is accepted by verification under
/// that secret.
pub proof fn lemma_sign_then_verify(secret: Seq<char>, data: Seq<u8>)
    ensures
        spec_verify(Some(secret), data, spec_signature_for(secret, data)),
{
    reveal_strlit("sha256=");
    let sig = spec_signature_for(secret, data);
    assert(sig.take(7) =~= "sha256="@);
    assert(sig.skip(7) =~= hex_of(hmac_sha256_of(encode_utf8(secret), data)));
}

/// A signature created for one secret and body is rejected for any other
/// secret and body whose digest differs.  That one flipped bit in the body
/// or the secret changes the digest is HMAC's own avalanche property, which
/// no contract here states; given distinct digests, rejection is forced,
/// because hex encoding is injective.
pub proof fn lemma_distinct_digests_reject(
    secret0: Seq<char>,
    data0: Seq<u8>,
    secret1: Seq<char>,
    data1: Seq<u8>,
)
    requires
        hmac_sha256_of(encode_utf8(secret0), data0) != hmac_sha256_of(
            encode_utf8(secret1),
            data1,
        ),
    ensures
        !spec_verify(Some(secret1), data1, spec_signature_for(secret0, data0)),
{
    reveal_strlit("sha256=");
    let sig = spec_signature_for(secret0, data0);
    assert(sig.skip(7) =~= hex_of(hmac_sha256_of(encode_utf8(secret0), data0)));
    if spec_signature_accepts(secret1, data1, sig) {
        crate::crypto::lemma_hex_of_injective(
            hmac_sha256_of(encode_utf8(secret0), data0),
            hmac_sha256_of(encode_utf8(secret1), data1),
        );
    }
}

/// A signature without the `sha256=` prefix is never accepted, whatever the
/// secret and body.
pub proof fn lemma_verify_needs_prefix(secret: Option<Seq<char>>, data: Seq<u8>, sig: Seq<char>)
    requires
        !(sig.len() >= 7 && sig.take(7) == "sha256="@),
    ensures
        !spec_verify(secret, data, sig),
{
}

/// What the display string shows: the App name and id, and nothing else —
/// in particular none of the secret fields.
pub open spec fn spec_display(app_name: Option<Seq<char>>, app_id: u32) -> Seq<char> {
    "OctoAppConfig { app_name: "@ + (match app_name {
        None => "None"@,
        Some(n) => "Some(\""@ + n + "\")"@,
    }) + ", app_id: "@ + dec_rep(app_id as nat) + " }"@
}

impl OctoAppConfig {
    /// The configured App name.
    pub closed spec fn spec_app_name(&self) -> Option<Seq<char>> {
        opt_view(self.app_name)
    }

    /// The configured App id.
    pub closed spec fn spec_app_id(&self) -> u32 {
        self.app_id
    }

    /// The configured OAuth client id.
    pub closed spec fn spec_client_id(&self) -> Option<Seq<char>> {
        opt_view(self.client_id)
    }

    /// The configured OAuth client secret.
    pub closed spec fn spec_client_secret(&self) -> Option<Seq<char>> {
        opt_view(self.client_secret)
    }

    /// The configured webhook shared secret.
    pub closed spec fn spec_webhook_secret(&self) -> Option<Seq<char>> {
        opt_view(self.webhook_secret)
    }

    /// Whether a signing key is configured.
    pub closed spec fn spec_has_client_key(&self) -> bool {
        self.client_key is Some
    }

    /// Initialize a new builder with no fields set.  Explicit setters fill
    /// it in; loading values from the process environment is the
    /// surrounding application's step, not this crate's.
    pub fn init() -> (r: OctoAppConfigBuilder)
        ensures
            r == OctoAppConfigBuilder::spec_empty(),
    {
        OctoAppConfigBuilder::default()
    }

    /// Get the app name.
    pub fn app_name(&self) -> (r: Option<&String>)
        ensures
            match r {
                Some(s) => self.spec_app_name() == Some(s@),
                None => self.spec_app_name() is None,
            },
    {
        self.app_name.as_ref()
    }

    /// Get the app id.
    pub fn app_id(&self) -> (r: u32)
        ensures
            r == self.spec_app_id(),
    {
        self.app_id
    }

    /// Get the client id.
    pub fn client_id(&self) -> (r: Option<&String>)
        ensures
            match r {
                Some(s) => self.spec_client_id() == Some(s@),
                None => self.spec_client_id() is None,
            },
    {
        self.client_id.as_ref()
    }

    /// Get the client secret.
    pub fn client_secret(&self) -> (r: Option<&String>)
        ensures
            match r {
                Some(s) => self.spec_client_secret() == Some(s@),
                None => self.spec_client_secret() is None,
            },
    {
        self.client_secret.as_ref()
    }

    /// Get the client key.
    pub fn client_key(&self) -> (r: Option<&jsonwebtoken::EncodingKey>)
        ensures
            r is Some <==> self.spec_has_client_key(),
    {
        self.client_key.as_ref()
    }

    /// Get the webhook secret.
    pub fn webhook_secret(&self) -> (r: Option<&String>)
        ensures
            match r {
                Some(s) => self.spec_webhook_secret() == Some(s@),
                None => self.spec_webhook_secret() is None,
            },
    {
        self.webhook_secret.as_ref()
    }

    /// Whether the configured webhook secret is accepted but considered
    /// weak: present and shorter than 16 bytes.  Secrets shorter than 8
    /// bytes are rejected at build time, so a flagged secret has between 8
    /// and 15 bytes.
    pub fn webhook_secret_flagged(&self) -> (r: bool)
        ensures
            r == match self.spec_webhook_secret() {
                Some(s) => byte_len(s) < 16,
                None => false,
            },
    {
        match &self.webhook_secret {
            None => false,
            Some(s) => s.as_str().as_bytes().len() < 16,
        }
    }

    /// Verify the signature of an incoming webhook against the configured
    /// secret.  The signature is expected in the form `sha256=<hex digest>`;
    /// anything else — including a missing secret — is rejected rather than
    /// reported as an error.
    pub fn webhook_signature_verification(&self, data: &[u8], signature: String) -> (r: bool)
        ensures
            r == spec_verify(self.spec_webhook_secret(), data@, signature@),
    {
        match &self.webhook_secret {
            None => false,
            Some(secret) => {
                let sig = signature.as_str();
                proof {
                    reveal_strlit("sha256=");
                }
                if str_has_prefix(sig, "sha256=") {
                    let digest = hmac_sha256(secret.as_str().as_bytes(), data);
                    let hex = hex_encode(digest.as_slice());
                    str_tail_eq(sig, 7, hex.as_str())
                } else {
                    false
                }
            },
        }
    }

    /// Produce the signature this App would accept for `data`: the
    /// `sha256=` prefix followed by the hex HMAC-SHA-256 digest under the
    /// configured secret.  Fails with `MissingField` when no webhook secret
    /// is configured.
    pub fn webhook_signature_create(&self, data: &[u8]) -> (r: Result<String, OctoAppError>)
        ensures
            match self.spec_webhook_secret() {
                Some(s) => r matches Ok(sig) && sig@ == spec_signature_for(s, data@),
                None => r matches Err(e) && e matches OctoAppError::MissingField(f) && f@
                    == "Webhook Secret"@,
            },
    {
        match &self.webhook_secret {
            None => Err(OctoAppError::MissingField(String::from_str("Webhook Secret"))),
            Some(secret) => {
                let digest = hmac_sha256(secret.as_str().as_bytes(), data);
                let hex = hex_encode(digest.as_slice());
                let mut sig = String::from_str("sha256=");
                sig.append(hex.as_str());
                Ok(sig)
            },
        }
    }

    /// Render the configuration for display: the App name and id only.
    /// The contract ties the result to those two fields alone, so no
    /// secret material can appear in it.
    pub fn display(&self) -> (r: String)
        ensures
            r@ == spec_display(self.spec_app_name(), self.spec_app_id()),
    {
        let mut out = String::from_str("OctoAppConfig { app_name: ");
        match &self.app_name {
            None => out.append("None"),
            Some(n) => {
                out.append("Some(\"");
                out.append(n.as_str());
                out.append("\")");
            },
        }
        out.append(", app_id: ");
        push_u64(&mut out, self.app_id as u64);
        out.append(" }");
        out
    }

    /// Create a GitHub API client authenticated as this App.  Fails with
    /// `MissingField` when no signing key is configured; any failure from
    /// the client library is passed through as `OctocrabError`.
    pub fn octocrab(&self) -> (r: Result<octocrab::Octocrab, OctoAppError>)
        ensures
            !self.spec_has_client_key() ==> (r matches Err(e) && e
                matches OctoAppError::MissingField(f) && f@ == "Client Key"@),
            self.spec_has_client_key() ==> (r is Ok || (r matches Err(e) && e
                matches OctoAppError::OctocrabError(_))),
    {
        match &self.client_key {
            Some(key) => match crate::octo::build_app_client(self.app_id as u64, key) {
                Ok(oc) => Ok(oc),
                Err(e) => Err(OctoAppError::OctocrabError(e)),
            },
            None => Err(OctoAppError::MissingField(String::from_str("Client Key"))),
        }
    }

    /// Create a GitHub API client scoped to one installation.  An
    /// installation id of zero means "no installation resolved" and fails
    /// with `OctocrabInstallationError(0)`; a failed exchange downstream
    /// fails with `OctocrabInstallationError(id)`.
    pub fn octocrab_by_installation(&self, installation_id: u64) -> (r: Result<
        octocrab::Octocrab,
        OctoAppError,
    >)
        ensures
            installation_id == 0 ==> (r matches Err(e) && e
                matches OctoAppError::OctocrabInstallationError(id) && id == 0),
            installation_id != 0 && !self.spec_has_client_key() ==> (r matches Err(e) && e
                matches OctoAppError::MissingField(f) && f@ == "Client Key"@),
            installation_id != 0 && self.spec_has_client_key() ==> (r is Ok || (r matches Err(e)
                && (e matches OctoAppError::OctocrabError(_) || (e
                matches OctoAppError::OctocrabInstallationError(id) && id == installation_id)))),
    {
        if installation_id == 0 {
            return Err(OctoAppError::OctocrabInstallationError(0));
        }
        let app = match self.octocrab() {
            Ok(c) => c,
            Err(e) => return Err(e),
        };
        match crate::octo::installation_client(&app, installation_id) {
            Ok(c) => Ok(c),
            Err(_) => Err(OctoAppError::OctocrabInstallationError(installation_id)),
        }
    }
}

/// Builds an [`OctoAppConfig`] from explicit optional fields, validating
/// them in one step.
pub struct OctoAppConfigBuilder {
    /// The App's display name.
    pub app_name: Option<String>,
    /// The App's numeric id.
    pub app_id: Option<u32>,
    /// The OAuth client id.
    pub client_id: Option<String>,
    /// The OAuth client secret.
    pub client_secret: Option<String>,
    /// The signing key, as an inline PEM-encoded RSA private key.
    pub client_key: Option<String>,
    /// A path to a PEM-encoded RSA private key.  This crate does not read
    /// files: the surrounding application loads the path's contents and
    /// hands them to [`Self::client_key`], and a builder left with only a
    /// path fails to build.
    pub client_key_path: Option<String>,
    /// The webhook shared secret.
    pub webhook_secret: Option<String>,
}

/// Whether the builder's webhook secret is present and under 8 bytes, which
/// makes the build fail.
pub open spec fn spec_secret_short(b: OctoAppConfigBuilder) -> bool {
    match b.webhook_secret {
        Some(s) => byte_len(s@) < 8,
        None => false,
    }
}

/// The outcome `build` owes once the key material is settled: a secret
/// under 8 bytes is rejected with its length, a missing App id is rejected
/// by name, and otherwise the configuration holds exactly the builder's
/// fields, if and only if.
pub open spec fn spec_build_outcome(
    b: OctoAppConfigBuilder,
    has_key: bool,
    r: Result<OctoAppConfig, OctoAppError>,
) -> bool {
    if spec_secret_short(b) {
        r matches Err(e) && e matches OctoAppError::WebhookSecretError(l) && l as nat == byte_len(
            b.webhook_secret->0@,
        )
    } else if b.app_id is None {
        r matches Err(e) && e matches OctoAppError::MissingField(f) && f@ == "AppID"@
    } else {
        r matches Ok(c) && {
            &&& Some(c.spec_app_id()) == b.app_id
            &&& c.spec_app_name() == opt_view(b.app_name)
            &&& c.spec_client_id() == opt_view(b.client_id)
            &&& c.spec_client_secret() == opt_view(b.client_secret)
            &&& c.spec_webhook_secret() == opt_view(b.webhook_secret)
            &&& c.spec_has_client_key() == has_key
        }
    }
}

impl OctoAppConfigBuilder {
    /// The builder with no fields set.
    pub open spec fn spec_empty() -> OctoAppConfigBuilder {
        OctoAppConfigBuilder {
            app_name: None,
            app_id: None,
            client_id: None,
            client_secret: None,
            client_key: None,
            client_key_path: None,
            webhook_secret: None,
        }
    }

    /// Set the app name.
    pub fn app_name(self, app_name: String) -> (r: Self)
        ensures
            r == (OctoAppConfigBuilder { app_name: Some(app_name), ..self }),
    {
        OctoAppConfigBuilder { app_name: Some(app_name), ..self }
    }

    /// Set the app id.  App identifiers are held as 32-bit values, so the
    /// caller keeps the id within that range.
    pub fn app_id(self, app_id: usize) -> (r: Self)
        requires
            app_id <= u32::MAX as usize,
        ensures
            r == (OctoAppConfigBuilder { app_id: Some(app_id as u32), ..self }),
    {
        OctoAppConfigBuilder { app_id: Some(app_id as u32), ..self }
    }

    /// Set the client id.
    pub fn client_id(self, client_id: String) -> (r: Self)
        ensures
            r == (OctoAppConfigBuilder { client_id: Some(client_id), ..self }),
    {
        OctoAppConfigBuilder { client_id: Some(client_id), ..self }
    }

    /// Set the client secret.
    pub fn client_secret(self, client_secret: String) -> (r: Self)
        ensures
            r == (OctoAppConfigBuilder { client_secret: Some(client_secret), ..self }),
    {
        OctoAppConfigBuilder { client_secret: Some(client_secret), ..self }
    }

    /// Set the client key to an inline PEM-encoded RSA private key.
    pub fn client_key(self, client_key: String) -> (r: Self)
        ensures
            r == (OctoAppConfigBuilder { client_key: Some(client_key), ..self }),
    {
        OctoAppConfigBuilder { client_key: Some(client_key), ..self }
    }

    /// Set the client key path.  See the field's note: the application is
    /// responsible for loading the file into [`Self::client_key`].
    pub fn client_key_path(self, client_key_path: String) -> (r: Self)
        ensures
            r == (OctoAppConfigBuilder { client_key_path: Some(client_key_path), ..self }),
    {
        OctoAppConfigBuilder { client_key_path: Some(client_key_path), ..self }
    }

    /// Set the webhook secret.
    pub fn webhook_secret(self, webhook_secret: String) -> (r: Self)
        ensures
            r == (OctoAppConfigBuilder { webhook_secret: Some(webhook_secret), ..self }),
    {
        OctoAppConfigBuilder { webhook_secret: Some(webhook_secret), ..self }
    }

    /// Build the configuration once the key material is already settled:
    /// `key` is the parsed signing key, or `None` for a verification-only
    /// configuration.  The builder's own `client_key` and
    /// `client_key_path` fields are not consulted here.
    pub fn build_with_key(self, key: Option<jsonwebtoken::EncodingKey>) -> (r: Result<
        OctoAppConfig,
        OctoAppError,
    >)
        ensures
            spec_build_outcome(self, key is Some, r),
    {
        if let Some(secret) = &self.webhook_secret {
            let len = secret.as_str().as_bytes().len();
            if len < 8 {
                return Err(OctoAppError::WebhookSecretError(len));
            }
        }
        let app_id = match self.app_id {
            None => {
                return Err(OctoAppError::MissingField(String::from_str("AppID")));
            },
            Some(id) => id,
        };
        Ok(
            OctoAppConfig {
                app_name: self.app_name,
                app_id,
                client_id: self.client_id,
                client_secret: self.client_secret,
                client_key: key,
                webhook_secret: self.webhook_secret,
            },
        )
    }

    /// Build the configuration.  An inline key wins over a key path; a
    /// builder holding only a path fails, since reading files is the
    /// surrounding application's step.  Validation then rejects a webhook
    /// secret under 8 bytes and a missing App id, in that order.
    pub fn build(self) -> (r: Result<OctoAppConfig, OctoAppError>)
        ensures
            self.client_key is Some && !crate::jwt::rsa_pem_ok(
                encode_utf8(self.client_key->Some_0@),
            ) ==> (r matches Err(e) && e matches OctoAppError::JsonWebTokenError(_)),
            self.client_key is Some && crate::jwt::rsa_pem_ok(
                encode_utf8(self.client_key->Some_0@),
            ) ==> spec_build_outcome(self, true, r),
            self.client_key is None && self.client_key_path is Some ==> (r matches Err(e) && e
                matches OctoAppError::MissingField(f) && f@ == "Client Key Data"@),
            self.client_key is None && self.client_key_path is None ==> spec_build_outcome(
                self,
                false,
                r,
            ),
    {
        let key: Option<jsonwebtoken::EncodingKey> = if let Some(pem) = &self.client_key {
            match crate::jwt::encoding_key_from_rsa_pem(pem.as_str().as_bytes()) {
                Ok(k) => Some(k),
                Err(e) => {
                    return Err(OctoAppError::JsonWebTokenError(e));
                },
            }
        } else if self.client_key_path.is_some() {
            return Err(OctoAppError::MissingField(String::from_str("Client Key Data")));
        } else {
            None
        };
        self.build_with_key(key)
    }
}

impl Default for OctoAppConfigBuilder {
    /// The builder with no fields set.
    fn default() -> (r: Self)
        ensures
            r == OctoAppConfigBuilder::spec_empty(),
    {
        OctoAppConfigBuilder {
            app_name: None,
            app_id: None,
            client_id: None,
            client_secret: None,
            client_key: None,
            client_key_path: None,
            webhook_secret: None,
        }
    }
}

} // verus!
