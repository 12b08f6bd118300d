//! The four provider configurations: three fixed audiences and the
//! single-tenant one, each with its authorization and token endpoint.

use vstd::prelude::*;
use crate::endpoint::{
    auth_candidate, auth_candidate_of, has_space_or_control, lemma_candidate_frames_identifier,
    lemma_candidate_is_as_clean_as_identifier, token_candidate, token_candidate_of,
};
use crate::error::Error;
use crate::parse::{endpoint_of, parse_endpoint, parsed_url};

verus! {

/// Authorization endpoint for personal and for work or school accounts.
pub const COMMON_AUTH_URL: &'static str =
    "https://login.microsoftonline.com/common/oauth2/v2.0/authorize";

/// Token endpoint for personal and for work or school accounts.
pub const COMMON_TOKEN_URL: &'static str =
    "https://login.microsoftonline.com/common/oauth2/v2.0/token";

/// Authorization endpoint for work or school accounts only.
pub const ORGANIZATIONS_AUTH_URL: &'static str =
    "https://login.microsoftonline.com/organizations/oauth2/v2.0/authorize";

/// Token endpoint for work or school accounts only.
pub const ORGANIZATIONS_TOKEN_URL: &'static str =
    "https://login.microsoftonline.com/organizations/oauth2/v2.0/token";

/// Authorization endpoint for personal accounts only.
pub const CONSUMERS_AUTH_URL: &'static str =
    "https://login.microsoftonline.com/consumers/oauth2/v2.0/authorize";

/// Token endpoint for personal accounts only.
pub const CONSUMERS_TOKEN_URL: &'static str =
    "https://login.microsoftonline.com/consumers/oauth2/v2.0/token";

/// How the client that consumes a configuration treats the expiry of the
/// tokens it is issued.
#[derive(Debug, Clone, Copy, PartialEq, Eq, Structural)]
pub enum LifetimeModel {
    /// Tokens never expire.
    Static,
    /// Tokens expire and cannot be renewed.
    Expiring,
    /// Tokens expire and are renewed with a refresh token.
    Refresh,
}

/// A provider configuration as a value: where the user agent is sent to
/// authorize, where a code or refresh token is exchanged for an access
/// token, and how token expiry is handled. Endpoints are URLs in serialized
/// form.
pub struct ProviderConfig {
    pub auth_endpoint: Seq<char>,
    pub token_endpoint: Seq<char>,
    pub lifetime_model: LifetimeModel,
}

/// Users with a personal Microsoft account and users with a work or school
/// account can sign in.
#[derive(Debug, Clone, Copy, PartialEq, Eq, Structural)]
pub struct AzureCommon;

impl View for AzureCommon {
    type V = ProviderConfig;

    open spec fn view(&self) -> ProviderConfig {
        ProviderConfig {
            auth_endpoint: COMMON_AUTH_URL@,
            token_endpoint: COMMON_TOKEN_URL@,
            lifetime_model: LifetimeModel::Refresh,
        }
    }
}

impl AzureCommon {
    /// The authorization endpoint.
    pub fn auth_uri(&self) -> (uri: &'static str)
        ensures
            uri@ == self@.auth_endpoint,
    {
        COMMON_AUTH_URL
    }

    /// The token endpoint.
    pub fn token_uri(&self) -> (uri: &'static str)
        ensures
            uri@ == self@.token_endpoint,
    {
        COMMON_TOKEN_URL
    }

    /// The lifetime model of the tokens issued: bearer tokens that are
    /// renewed with a refresh token.
    pub fn lifetime_model(&self) -> (model: LifetimeModel)
        ensures
            model == self@.lifetime_model,
    {
        LifetimeModel::Refresh
    }
}

/// Only users with a work or school account can sign in.
#[derive(Debug, Clone, Copy, PartialEq, Eq, Structural)]
pub struct AzureOrganization;

impl View for AzureOrganization {
    type V = ProviderConfig;

    open spec fn view(&self) -> ProviderConfig {
        ProviderConfig {
            auth_endpoint: ORGANIZATIONS_AUTH_URL@,
            token_endpoint: ORGANIZATIONS_TOKEN_URL@,
            lifetime_model: LifetimeModel::Refresh,
        }
    }
}

impl AzureOrganization {
    /// The authorization endpoint.
    pub fn auth_uri(&self) -> (uri: &'static str)
        ensures
            uri@ == self@.auth_endpoint,
    {
        ORGANIZATIONS_AUTH_URL
    }

    /// The token endpoint.
    pub fn token_uri(&self) -> (uri: &'static str)
        ensures
            uri@ == self@.token_endpoint,
    {
        ORGANIZATIONS_TOKEN_URL
    }

    /// The lifetime model of the tokens issued: bearer tokens that are
    /// renewed with a refresh token.
    pub fn lifetime_model(&self) -> (model: LifetimeModel)
        ensures
            model == self@.lifetime_model,
    {
        LifetimeModel::Refresh
    }
}

/// Only users with a personal Microsoft account can sign in.
#[derive(Debug, Clone, Copy, PartialEq, Eq, Structural)]
pub struct AzureConsumer;

impl View for AzureConsumer {
    type V = ProviderConfig;

    open spec fn view(&self) -> ProviderConfig {
        ProviderConfig {
            auth_endpoint: CONSUMERS_AUTH_URL@,
            token_endpoint: CONSUMERS_TOKEN_URL@,
            lifetime_model: LifetimeModel::Refresh,
        }
    }
}

impl AzureConsumer {
    /// The authorization endpoint.
    pub fn auth_uri(&self) -> (uri: &'static str)
        ensures
            uri@ == self@.auth_endpoint,
    {
        CONSUMERS_AUTH_URL
    }

    /// The token endpoint.
    pub fn token_uri(&self) -> (uri: &'static str)
        ensures
            uri@ == self@.token_endpoint,
    {
        CONSUMERS_TOKEN_URL
    }

    /// The lifetime model of the tokens issued: bearer tokens that are
    /// renewed with a refresh token.
    pub fn lifetime_model(&self) -> (model: LifetimeModel)
        ensures
            model == self@.lifetime_model,
    {
        LifetimeModel::Refresh
    }
}

/// Only users with a work or school account of one Azure AD tenant can sign
/// in. The tenant is named by its GUID or by its domain, such as
/// `8eaef023-2b34-4da1-9baa-8bc8c9d6a490` or `contoso.onmicrosoft.com`.
#[derive(Debug, PartialEq, Eq)]
pub struct AzureTenant {
    auth_uri: String,
    token_uri: String,
}

impl View for AzureTenant {
    type V = ProviderConfig;

    closed spec fn view(&self) -> ProviderConfig {
        ProviderConfig {
            auth_endpoint: self.auth_uri@,
            token_endpoint: self.token_uri@,
            lifetime_model: LifetimeModel::Refresh,
        }
    }
}

impl Clone for AzureTenant {
    fn clone(&self) -> (copy: Self)
        ensures
            copy@ == self@,
    {
        proof {
            use_type_invariant(self);
        }
        AzureTenant { auth_uri: self.auth_uri.clone(), token_uri: self.token_uri.clone() }
    }
}

impl AzureTenant {
    /// Whether a tenant can be built from `id`: both of its candidates stand
    /// for an endpoint.
    pub open spec fn admits(id: Seq<char>) -> bool {
        &&& endpoint_of(auth_candidate(id)) is Some
        &&& endpoint_of(token_candidate(id)) is Some
    }

    /// The configuration of the tenant `id`, where `id` is admitted.
    pub open spec fn config_for(id: Seq<char>) -> ProviderConfig
        recommends
            Self::admits(id),
    {
        ProviderConfig {
            auth_endpoint: endpoint_of(auth_candidate(id)).unwrap(),
            token_endpoint: endpoint_of(token_candidate(id)).unwrap(),
            lifetime_model: LifetimeModel::Refresh,
        }
    }

    /// Whether `config` is the configuration of some admitted tenant.
    pub open spec fn is_tenant_config(config: ProviderConfig) -> bool {
        exists|id: Seq<char>| Self::admits(id) && config == #[trigger] Self::config_for(id)
    }

    #[verifier::type_invariant]
    spec fn well_formed(&self) -> bool {
        Self::is_tenant_config(self@)
    }

    /// Builds the configuration of the tenant `id`, which the caller knows
    /// to be admitted.
    pub fn new(id: &str) -> (tenant: Self)
        requires
            Self::admits(id@),
        ensures
            tenant@ == Self::config_for(id@),
    {
        Self::try_new(id).unwrap()
    }

    /// Builds the configuration of the tenant `id`, or fails with
    /// `MalformedEndpoint` where `id` is not admitted.
    ///
    /// `id` is set verbatim into both templates and is not otherwise
    /// examined. The empty identifier is no exception: its candidates, with
    /// two slashes in a row, go to the parser like any other.
    pub fn try_new(id: &str) -> (r: Result<Self, Error>)
        ensures
            match r {
                Ok(tenant) => Self::admits(id@) && tenant@ == Self::config_for(id@),
                Err(e) => !Self::admits(id@) && e == Error::MalformedEndpoint,
            },
    {
        proof {
            lemma_candidate_frames_identifier(id@);
        }
        let auth = parse_endpoint(auth_candidate_of(id).as_str());
        let token = parse_endpoint(token_candidate_of(id).as_str());
        match (auth, token) {
            (Ok(auth_uri), Ok(token_uri)) => Ok(AzureTenant { auth_uri, token_uri }),
            _ => Err(Error::MalformedEndpoint),
        }
    }

    /// The authorization endpoint.
    pub fn auth_uri(&self) -> (uri: &str)
        ensures
            uri@ == self@.auth_endpoint,
            Self::is_tenant_config(self@),
    {
        proof {
            use_type_invariant(self);
        }
        self.auth_uri.as_str()
    }

    /// The token endpoint.
    pub fn token_uri(&self) -> (uri: &str)
        ensures
            uri@ == self@.token_endpoint,
            Self::is_tenant_config(self@),
    {
        proof {
            use_type_invariant(self);
        }
        self.token_uri.as_str()
    }

    /// The lifetime model of the tokens issued: bearer tokens that are
    /// renewed with a refresh token.
    pub fn lifetime_model(&self) -> (model: LifetimeModel)
        ensures
            model == self@.lifetime_model,
            model == LifetimeModel::Refresh,
    {
        LifetimeModel::Refresh
    }
}

/// A fixed variant has one configuration: whichever value is asked, and
/// however often, its endpoints and its lifetime model are the same.
pub proof fn lemma_fixed_configs_are_constant(
    common: (AzureCommon, AzureCommon),
    organization: (AzureOrganization, AzureOrganization),
    consumer: (AzureConsumer, AzureConsumer),
)
    ensures
        common.0@ == common.1@,
        organization.0@ == organization.1@,
        consumer.0@ == consumer.1@,
{
}

/// The fixed endpoints are the tenant templates with the audience in the
/// tenant's place: `common`, `organizations` or `consumers`.
pub proof fn lemma_fixed_endpoints_follow_templates()
    ensures
        AzureCommon@.auth_endpoint == auth_candidate("common"@),
        AzureCommon@.token_endpoint == token_candidate("common"@),
        AzureOrganization@.auth_endpoint == auth_candidate("organizations"@),
        AzureOrganization@.token_endpoint == token_candidate("organizations"@),
        AzureConsumer@.auth_endpoint == auth_candidate("consumers"@),
        AzureConsumer@.token_endpoint == token_candidate("consumers"@),
{
    reveal_strlit("https://login.microsoftonline.com/");
    reveal_strlit("/oauth2/v2.0/authorize");
    reveal_strlit("/oauth2/v2.0/token");
    reveal_strlit("common");
    reveal_strlit("organizations");
    reveal_strlit("consumers");
    reveal_strlit("https://login.microsoftonline.com/common/oauth2/v2.0/authorize");
    reveal_strlit("https://login.microsoftonline.com/common/oauth2/v2.0/token");
    reveal_strlit("https://login.microsoftonline.com/organizations/oauth2/v2.0/authorize");
    reveal_strlit("https://login.microsoftonline.com/organizations/oauth2/v2.0/token");
    reveal_strlit("https://login.microsoftonline.com/consumers/oauth2/v2.0/authorize");
    reveal_strlit("https://login.microsoftonline.com/consumers/oauth2/v2.0/token");
}

/// A tenant is admitted exactly when its identifier holds no white space and
/// no control character and the parser accepts both of its candidates.
pub proof fn lemma_admitted_identifiers(id: Seq<char>)
    ensures
        AzureTenant::admits(id) <==> {
            &&& !has_space_or_control(id)
            &&& parsed_url(auth_candidate(id)) is Some
            &&& parsed_url(token_candidate(id)) is Some
        },
        AzureTenant::admits(id) ==> AzureTenant::config_for(id) == (ProviderConfig {
            auth_endpoint: parsed_url(auth_candidate(id)).unwrap(),
            token_endpoint: parsed_url(token_candidate(id)).unwrap(),
            lifetime_model: LifetimeModel::Refresh,
        }),
{
    lemma_candidate_is_as_clean_as_identifier(id);
}

/// An identifier that holds white space or a control character is never
/// admitted, whatever the parser would make of its candidates.
pub proof fn lemma_space_or_control_is_rejected(id: Seq<char>)
    requires
        has_space_or_control(id),
    ensures
        !AzureTenant::admits(id),
{
    lemma_candidate_is_as_clean_as_identifier(id);
}

} // verus!
