//! A Zcash SDK: payment validation, fee estimation, a wallet synchronisation
//! engine and a transaction submission pipeline, with their contracts.

pub mod address;
pub mod client;
pub mod compliance;
pub mod error;
pub mod fees;
pub mod light_client;
pub mod rpc;
pub mod transaction;
pub mod types;
pub mod wallet;

pub use compliance::{export_transactions_csv, redact_middle, ExportedViewingKeys};
pub use error::{Error, Result, ValidationError};
pub use fees::{calculate_fee_from_payments, calculate_zip317_fee};
pub use types::utils;
pub use types::{AddressType, Balance, BlockInfo, Network, Transaction, TransactionStatus};
