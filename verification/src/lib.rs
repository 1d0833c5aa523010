//! Authorization-gated custody over a fungible-token ledger.
//!
//! The crate decides, for each requested operation, whether the calling
//! principal may perform it and which balances change by how much. The ledger
//! that stores the accounts, and the host that verifies signatures, live
//! outside; they hand this crate plain account records and take them back.

pub mod ledger;
pub mod metadata;
pub mod operations;
pub mod principal;

pub use ledger::{mint_to, transfer, Error, Mint, TokenAccount};
pub use metadata::{
    get_metadata, set_metadata, CustomMetadata, GetMetadata, SetMetadata, METADATA_URI,
};
pub use operations::{
    exchange_token, mint_token, mint_token_for, transfer_token, ExchangeToken, MintToken,
    TransferToken,
};
pub use principal::{
    authorize, check_caller, trusted_principal, AuthorizationError, PrincipalId,
    TRUSTED_PRINCIPAL,
};
