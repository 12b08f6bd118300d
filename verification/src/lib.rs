//! Azure Active Directory (OpenID Connect) provider configurations for an
//! OAuth 2.0 client: the authorization and token endpoints of the common,
//! organizations and consumers audiences and of a single tenant.

pub mod endpoint;
pub mod error;
pub mod parse;
pub mod provider;

pub use error::Error;
pub use provider::{
    AzureCommon, AzureConsumer, AzureOrganization, AzureTenant, LifetimeModel, ProviderConfig,
};
