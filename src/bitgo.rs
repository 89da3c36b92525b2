//! Data exchanged with the BitGo custodian.

use vstd::prelude::*;

verus! {

#[derive(Clone, Debug)]
pub struct BitgoConfig {
    pub long_lived_token: String,
    pub enterprise_id: String,
    pub express_endpoint: String,
    pub passphrase: String,
    pub bitgo_test: bool,
}

#[derive(Clone, Debug)]
pub struct Address {
    pub address: String,
}

} // verus!
