//! GitHub API clients, obtained from `octocrab` on behalf of the App.

use vstd::prelude::*;

verus! {

#[verifier::external_type_specification]
#[verifier::external_body]
pub struct ExOctocrab(octocrab::Octocrab);

#[verifier::external_type_specification]
#[verifier::external_body]
pub struct ExOctocrabError(octocrab::Error);

/// Relies on `octocrab::OctocrabBuilder`: `new().app(id, key).build()`
/// yields a client authenticated as the GitHub App with that id and
/// signing key.
#[verifier::external_body]
pub(crate) fn build_app_client(app_id: u64, key: &jsonwebtoken::EncodingKey) -> Result<
    octocrab::Octocrab,
    octocrab::Error,
> {
    octocrab::OctocrabBuilder::new().app(
        octocrab::models::AppId(app_id),
        key.clone(),
    ).build()
}

/// Relies on `octocrab::Octocrab::installation`: scopes an App-authenticated
/// client to one installation id, and fails on a client that does not carry
/// App credentials.
#[verifier::external_body]
pub(crate) fn installation_client(client: &octocrab::Octocrab, installation_id: u64) -> Result<
    octocrab::Octocrab,
    octocrab::Error,
> {
    client.installation(octocrab::models::InstallationId(installation_id))
}

} // verus!
