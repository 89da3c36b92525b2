//! Chart of accounts: hierarchical, code-addressed ledger account trees built
//! from an append-only event log, with the configuration and wire types of the
//! services around it.

pub mod account;
pub mod applicant;
pub mod bitgo;
pub mod chart;
pub mod chart_laws;
pub mod code;
pub mod csv;
pub mod custody;
pub mod ids;
pub mod komainu;
pub mod retry;
pub mod storage;
pub mod tree;
