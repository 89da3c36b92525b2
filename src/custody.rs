//! Custodian settings as the custody service stores them, and the events it
//! publishes.

use vstd::prelude::*;

use crate::ids::WalletId;

verus! {

/// Settings of a Komainu custodian.
#[derive(Clone, PartialEq, Eq)]
pub struct KomainuConfig {
    pub api_key: String,
    pub api_secret: String,
    pub testing_instance: bool,
    pub secret_key: String,
}

/// Settings of a BitGo custodian.
#[derive(Clone, PartialEq, Eq)]
pub struct BitgoConfig {
    pub long_lived_token: String,
    pub enterprise_id: String,
    pub express_endpoint: String,
    pub passphrase: String,
    pub testing_instance: bool,
}

impl From<KomainuConfig> for crate::komainu::KomainuConfig {
    fn from(config: KomainuConfig) -> (r: crate::komainu::KomainuConfig)
        ensures
            r.api_user == config.api_key,
            r.api_secret == config.api_secret,
            r.secret_key == (crate::komainu::KomainuSecretKey::Plain { dem: config.secret_key }),
            r.komainu_test == config.testing_instance,
    {
        crate::komainu::KomainuConfig {
            api_user: config.api_key,
            api_secret: config.api_secret,
            secret_key: crate::komainu::KomainuSecretKey::Plain { dem: config.secret_key },
            komainu_test: config.testing_instance,
        }
    }
}

impl vstd::std_specs::convert::FromSpecImpl<KomainuConfig> for crate::komainu::KomainuConfig {
    open spec fn obeys_from_spec() -> bool {
        true
    }

    open spec fn from_spec(config: KomainuConfig) -> crate::komainu::KomainuConfig {
        crate::komainu::KomainuConfig {
            api_user: config.api_key,
            api_secret: config.api_secret,
            secret_key: crate::komainu::KomainuSecretKey::Plain { dem: config.secret_key },
            komainu_test: config.testing_instance,
        }
    }
}

impl From<BitgoConfig> for crate::bitgo::BitgoConfig {
    fn from(config: BitgoConfig) -> (r: crate::bitgo::BitgoConfig)
        ensures
            r.long_lived_token == config.long_lived_token,
            r.enterprise_id == config.enterprise_id,
            r.express_endpoint == config.express_endpoint,
            r.passphrase == config.passphrase,
            r.bitgo_test == config.testing_instance,
    {
        crate::bitgo::BitgoConfig {
            long_lived_token: config.long_lived_token,
            enterprise_id: config.enterprise_id,
            express_endpoint: config.express_endpoint,
            passphrase: config.passphrase,
            bitgo_test: config.testing_instance,
        }
    }
}

impl vstd::std_specs::convert::FromSpecImpl<BitgoConfig> for crate::bitgo::BitgoConfig {
    open spec fn obeys_from_spec() -> bool {
        true
    }

    open spec fn from_spec(config: BitgoConfig) -> crate::bitgo::BitgoConfig {
        crate::bitgo::BitgoConfig {
            long_lived_token: config.long_lived_token,
            enterprise_id: config.enterprise_id,
            express_endpoint: config.express_endpoint,
            passphrase: config.passphrase,
            bitgo_test: config.testing_instance,
        }
    }
}

/// Events published by the custody service.
#[derive(Debug)]
pub enum CoreCustodyEvent {
    WalletAttached { id: WalletId, address: String },
}

/// Settings of the access service.
#[derive(Debug, Clone, Default)]
pub struct AccessConfig {
    pub superuser_email: Option<String>,
}

} // verus!
