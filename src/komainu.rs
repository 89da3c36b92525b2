//! Data exchanged with the Komainu custodian.

use vstd::prelude::*;

verus! {

#[derive(Clone, Debug)]
pub struct KomainuConfig {
    pub api_user: String,
    pub api_secret: String,
    pub secret_key: KomainuSecretKey,
    pub komainu_test: bool,
}

#[derive(Clone, Debug)]
pub enum KomainuSecretKey {
    Encrypted { dem: String, passphrase: String },
    Plain { dem: String },
}

#[derive(Clone, Copy, Debug, PartialEq, Eq, Structural)]
pub enum WalletCategory {
    Custody,
    Staking,
    Collateral,
}

#[derive(Clone, Copy, Debug, PartialEq, Eq, Structural)]
pub enum WalletStatus {
    Active,
    Inactive,
    Approved,
    HsmCoinUpdated,
    Pending,
    PendingCreateInHsm,
    PendingViewOnly,
    Rejected,
    ViewOnly,
}

#[derive(Clone, Copy, Debug, PartialEq, Eq, Structural)]
pub enum RequestType {
    CreateTransaction,
    CollateralOperation,
}

#[derive(Clone, Copy, Debug, PartialEq, Eq, Structural)]
pub enum RequestStatus {
    Created,
    Pending,
    Approved,
    Rejected,
    Cancelled,
    Expired,
    Blocked,
}

#[derive(Clone, Copy, Debug, PartialEq, Eq, Structural)]
pub enum RequestEntity {
    Transaction,
    Collateral,
}

#[derive(Clone, Copy, Debug, PartialEq, Eq, Structural)]
pub enum TransactionDirection {
    In,
    Out,
    Flat,
}

#[derive(Clone, Copy, Debug, PartialEq, Eq, Structural)]
pub enum TransactionStatus {
    Pending,
    Broadcasted,
    Confirmed,
    Failed,
}

#[derive(Clone, Debug)]
pub struct GetToken {
    pub api_user: String,
    pub api_secret: String,
}

#[derive(Debug)]
pub struct GetTokenResponse {
    pub access_token: String,
    pub expires_in: u64,
}

/// One page of a listing.
#[derive(Debug)]
pub struct Many<T> {
    pub data: Vec<T>,
    pub has_next: bool,
}

/// A response that is either an error report or a value.
#[derive(Debug)]
pub enum Fallible<T> {
    Error { error_code: String, errors: Vec<String>, status: u16 },
    Value(T),
}

} // verus!
