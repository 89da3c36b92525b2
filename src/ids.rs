//! Identifiers: UUIDs held as their 128-bit value.

use vstd::prelude::*;

verus! {

/// What `uuid::Uuid::parse_str` makes of a text: the UUID's 128-bit value, or
/// `None` where the text is no UUID.
pub uninterp spec fn uuid_parsed(s: Seq<char>) -> Option<u128>;

/// The hyphenated lower-case text of the UUID with the given value.
pub uninterp spec fn uuid_text(v: u128) -> Seq<char>;

/// Relies on `uuid::Uuid::parse_str`: it accepts a text or not, and its value,
/// depend on the text alone.
#[verifier::external_body]
pub(crate) fn parse_uuid(s: &str) -> (r: Option<u128>)
    ensures
        r == uuid_parsed(s@),
{
    uuid::Uuid::parse_str(s).ok().map(|u| u.as_u128())
}

/// Relies on `uuid::Uuid::new_v4`: a random UUID; nothing is known of its value.
#[verifier::external_body]
pub(crate) fn random_uuid() -> (r: u128) {
    uuid::Uuid::new_v4().as_u128()
}

/// Relies on `Display` of `uuid::Uuid` (through `to_string`): the text depends on
/// the value alone.
#[verifier::external_body]
pub(crate) fn uuid_to_text(v: u128) -> (r: String)
    ensures
        r@ == uuid_text(v),
{
    uuid::Uuid::from_u128(v).to_string()
}

/// Identifier of a chart of accounts.
#[derive(Debug, Clone, Copy, PartialEq, Eq, Structural, Hash)]
pub struct ChartId {
    pub value: u128,
}

/// Identifier of a ledger account.
#[derive(Debug, Clone, Copy, PartialEq, Eq, Structural, Hash)]
pub struct LedgerAccountId {
    pub value: u128,
}

/// Identifier of an account set in the external ledger.
#[derive(Debug, Clone, Copy, PartialEq, Eq, Structural, Hash)]
pub struct CalaAccountSetId {
    pub value: u128,
}

impl ChartId {
    /// A fresh random identifier.
    pub fn new() -> (r: ChartId) {
        ChartId { value: random_uuid() }
    }

    /// The identifier's UUID text.
    pub fn to_string(&self) -> (r: String)
        ensures
            r@ == uuid_text(self.value),
    {
        uuid_to_text(self.value)
    }
}

impl LedgerAccountId {
    /// A fresh random identifier.
    pub fn new() -> (r: LedgerAccountId) {
        LedgerAccountId { value: random_uuid() }
    }

    /// Parses a UUID text.
    pub fn parse(s: &str) -> (r: Option<LedgerAccountId>)
        ensures
            match uuid_parsed(s@) {
                Some(v) => r == Some(LedgerAccountId { value: v }),
                None => r is None,
            },
    {
        match parse_uuid(s) {
            Some(v) => Some(LedgerAccountId { value: v }),
            None => None,
        }
    }
}

/// Identifier of a customer.
#[derive(Debug, Clone, Copy, PartialEq, Eq, Structural, Hash)]
pub struct CustomerId {
    pub value: u128,
}

impl CustomerId {
    /// Parses a UUID text.
    pub fn parse(s: &str) -> (r: Option<CustomerId>)
        ensures
            match uuid_parsed(s@) {
                Some(v) => r == Some(CustomerId { value: v }),
                None => r is None,
            },
    {
        match parse_uuid(s) {
            Some(v) => Some(CustomerId { value: v }),
            None => None,
        }
    }

    /// The identifier's UUID text.
    pub fn to_string(&self) -> (r: String)
        ensures
            r@ == uuid_text(self.value),
    {
        uuid_to_text(self.value)
    }
}

/// Identifier of a custody wallet.
#[derive(Debug, Clone, Copy, PartialEq, Eq, Structural, Hash)]
pub struct WalletId {
    pub value: u128,
}

impl CalaAccountSetId {
    /// A fresh random identifier.
    pub fn new() -> (r: CalaAccountSetId) {
        CalaAccountSetId { value: random_uuid() }
    }
}

impl From<CalaAccountSetId> for LedgerAccountId {
    fn from(id: CalaAccountSetId) -> (r: LedgerAccountId)
        ensures
            r.value == id.value,
    {
        LedgerAccountId { value: id.value }
    }
}

impl vstd::std_specs::convert::FromSpecImpl<CalaAccountSetId> for LedgerAccountId {
    open spec fn obeys_from_spec() -> bool {
        true
    }

    open spec fn from_spec(id: CalaAccountSetId) -> LedgerAccountId {
        LedgerAccountId { value: id.value }
    }
}

} // verus!
