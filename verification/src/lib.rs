//! An escrow-backed, fixed-price sale ledger.
//!
//! An owner deposits a batch of an output token under a listing (an
//! "auction"), and buyers exchange an exact multiple of the listing's price
//! for units of that escrow. Every operation is a function from the ledger's
//! state and plain arguments to a new state and the transfers to dispatch;
//! its contract is stated over the mathematical model in [`model`], and what
//! holds of that model whatever is done is proved in [`laws`].

pub mod amount;
pub mod asset;
pub mod auction;
mod bytes;
pub mod contract;
pub mod error;
pub mod laws;
pub mod model;

pub use contract::{EmptyContract, SaleLedger};
pub use error::{
    ErrorKind, SaleError, ERR_CREATE_AUCTION_BAD_EGLD_NONCE, ERR_CREATE_AUCTION_BAD_PRICE,
    ERR_INVALID_AUCTION_ID, ERR_INVALID_PAYMENT_TOKEN_AMOUNT_MISMATCH,
    ERR_INVALID_PAYMENT_TOKEN_IDENTIFIER_MISMATCH, ERR_INVALID_PAYMENT_TOKEN_NONCE_MISMATCH,
    ERR_NOT_ENOUGHT_ITEMS, ERR_ONLY_OWNER, ERR_RETIRING_TOO_MUCH_TOKENS,
    ERR_SALE_IS_NOT_OPENED_YET, STARTING_AUCTION_ID,
};
