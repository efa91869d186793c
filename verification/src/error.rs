//! The reasons for which an operation is refused.
//!
//! Each violated precondition has its own variant, so that callers can tell
//! the reasons apart, and its own stable message.

use vstd::prelude::*;

verus! {

/// The identifier of the first auction of a ledger.
pub const STARTING_AUCTION_ID: u64 = 1;

pub const ERR_SALE_IS_NOT_OPENED_YET: &'static str = "The sale is not opened yet";

pub const ERR_INVALID_PAYMENT_TOKEN_IDENTIFIER_MISMATCH: &'static str =
    "The payment is invalid. Wrong token sent.";

pub const ERR_INVALID_PAYMENT_TOKEN_NONCE_MISMATCH: &'static str =
    "The payment is invalid. Wrong nonce sent.";

pub const ERR_INVALID_PAYMENT_TOKEN_AMOUNT_MISMATCH: &'static str =
    "The payment is invalid. Wrong amount sent.";

pub const ERR_NOT_ENOUGHT_ITEMS: &'static str = "Cannot fulfill your order. Try to buy less items.";

pub const ERR_INVALID_AUCTION_ID: &'static str = "Auction ID invalid.";

pub const ERR_CREATE_AUCTION_BAD_EGLD_NONCE: &'static str =
    "When creating an auction with egld, you must set the nonce to 0.";

pub const ERR_CREATE_AUCTION_BAD_PRICE: &'static str = "The price cannot be set to 0";

pub const ERR_RETIRING_TOO_MUCH_TOKENS: &'static str = "Can't retire more items than the auction has.";

pub const ERR_ONLY_OWNER: &'static str = "Endpoint can only be called by owner";

/// The kinds of refusal.
#[derive(Debug, Clone, Copy, PartialEq, Eq, Structural)]
pub enum ErrorKind {
    /// An argument of a creation is not acceptable.
    Validation,
    /// The caller may not ask for the operation.
    Authorization,
    /// The ledger is in no state to go along: the auction is unknown or not
    /// open yet, or holds less than is asked for.
    State,
    /// The payment is not what the auction expects.
    Payment,
}

/// Why an operation was refused. A refused operation changes nothing.
#[derive(Debug, Clone, Copy, PartialEq, Eq, Structural)]
pub enum SaleError {
    /// A caller other than the owner asked for an owner-only operation.
    NotOwner,
    /// An auction priced in the native coin was given a payment nonce other
    /// than zero.
    CreateAuctionBadEgldNonce,
    /// An auction was given the price zero.
    CreateAuctionBadPrice,
    /// No auction has the given identifier.
    InvalidAuctionId,
    /// The asset sent is not the one the auction expects.
    PaymentTokenIdentifierMismatch,
    /// The nonce of the asset sent is not the one the auction expects.
    PaymentTokenNonceMismatch,
    /// The amount sent is zero or no exact multiple of the price.
    PaymentTokenAmountMismatch,
    /// The auction does not accept purchases yet.
    SaleNotOpenedYet,
    /// The auction holds fewer units than the payment buys.
    NotEnoughItems,
    /// More units were to be retired than the auction holds.
    RetiringTooMuchTokens,
}

impl SaleError {
    /// The kind that each reason is of.
    pub open spec fn kind_of(self) -> ErrorKind {
        match self {
            SaleError::NotOwner => ErrorKind::Authorization,
            SaleError::CreateAuctionBadEgldNonce | SaleError::CreateAuctionBadPrice => {
                ErrorKind::Validation
            },
            SaleError::InvalidAuctionId
            | SaleError::SaleNotOpenedYet
            | SaleError::NotEnoughItems
            | SaleError::RetiringTooMuchTokens => ErrorKind::State,
            SaleError::PaymentTokenIdentifierMismatch
            | SaleError::PaymentTokenNonceMismatch
            | SaleError::PaymentTokenAmountMismatch => ErrorKind::Payment,
        }
    }

    /// The kind of this reason.
    pub fn kind(&self) -> (r: ErrorKind)
        ensures
            r == self.kind_of(),
    {
        match self {
            SaleError::NotOwner => ErrorKind::Authorization,
            SaleError::CreateAuctionBadEgldNonce | SaleError::CreateAuctionBadPrice => {
                ErrorKind::Validation
            },
            SaleError::InvalidAuctionId
            | SaleError::SaleNotOpenedYet
            | SaleError::NotEnoughItems
            | SaleError::RetiringTooMuchTokens => ErrorKind::State,
            SaleError::PaymentTokenIdentifierMismatch
            | SaleError::PaymentTokenNonceMismatch
            | SaleError::PaymentTokenAmountMismatch => ErrorKind::Payment,
        }
    }

    /// The message that belongs to each reason.
    pub open spec fn message_text(self) -> Seq<char> {
        match self {
            SaleError::NotOwner => ERR_ONLY_OWNER@,
            SaleError::CreateAuctionBadEgldNonce => ERR_CREATE_AUCTION_BAD_EGLD_NONCE@,
            SaleError::CreateAuctionBadPrice => ERR_CREATE_AUCTION_BAD_PRICE@,
            SaleError::InvalidAuctionId => ERR_INVALID_AUCTION_ID@,
            SaleError::PaymentTokenIdentifierMismatch => {
                ERR_INVALID_PAYMENT_TOKEN_IDENTIFIER_MISMATCH@
            },
            SaleError::PaymentTokenNonceMismatch => ERR_INVALID_PAYMENT_TOKEN_NONCE_MISMATCH@,
            SaleError::PaymentTokenAmountMismatch => ERR_INVALID_PAYMENT_TOKEN_AMOUNT_MISMATCH@,
            SaleError::SaleNotOpenedYet => ERR_SALE_IS_NOT_OPENED_YET@,
            SaleError::NotEnoughItems => ERR_NOT_ENOUGHT_ITEMS@,
            SaleError::RetiringTooMuchTokens => ERR_RETIRING_TOO_MUCH_TOKENS@,
        }
    }

    /// The stable message of this reason.
    pub fn message(&self) -> (r: &'static str)
        ensures
            r@ == self.message_text(),
    {
        match self {
            SaleError::NotOwner => ERR_ONLY_OWNER,
            SaleError::CreateAuctionBadEgldNonce => ERR_CREATE_AUCTION_BAD_EGLD_NONCE,
            SaleError::CreateAuctionBadPrice => ERR_CREATE_AUCTION_BAD_PRICE,
            SaleError::InvalidAuctionId => ERR_INVALID_AUCTION_ID,
            SaleError::PaymentTokenIdentifierMismatch => {
                ERR_INVALID_PAYMENT_TOKEN_IDENTIFIER_MISMATCH
            },
            SaleError::PaymentTokenNonceMismatch => ERR_INVALID_PAYMENT_TOKEN_NONCE_MISMATCH,
            SaleError::PaymentTokenAmountMismatch => ERR_INVALID_PAYMENT_TOKEN_AMOUNT_MISMATCH,
            SaleError::SaleNotOpenedYet => ERR_SALE_IS_NOT_OPENED_YET,
            SaleError::NotEnoughItems => ERR_NOT_ENOUGHT_ITEMS,
            SaleError::RetiringTooMuchTokens => ERR_RETIRING_TOO_MUCH_TOKENS,
        }
    }
}

} // verus!
