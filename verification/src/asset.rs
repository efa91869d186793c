//! Accounts, assets and the payments and transfers that move them.
//!
//! An asset is either the chain's native coin or a token named by its
//! identifier; an instance of a token is told apart by a nonce. Every type
//! here has a view made of plain mathematical values, over which the
//! contracts of the ledger are stated.

use crate::amount::Amount;
use crate::bytes::same_bytes;
use vstd::prelude::*;

verus! {

/// The identity of an account.
#[derive(Debug, PartialEq, Eq)]
pub struct Address {
    pub bytes: Vec<u8>,
}

impl View for Address {
    type V = Seq<u8>;

    open spec fn view(&self) -> Seq<u8> {
        self.bytes@
    }
}

impl Clone for Address {
    fn clone(&self) -> (r: Self)
        ensures
            r@ == self@,
    {
        Address { bytes: self.bytes.clone() }
    }
}

impl Address {
    /// Whether the two addresses name the same account.
    pub fn same_as(&self, other: &Address) -> (r: bool)
        ensures
            r == (self@ == other@),
    {
        same_bytes(&self.bytes, &other.bytes)
    }
}

/// The identifier of a token.
#[derive(Debug, PartialEq, Eq)]
pub struct TokenId {
    pub bytes: Vec<u8>,
}

impl View for TokenId {
    type V = Seq<u8>;

    open spec fn view(&self) -> Seq<u8> {
        self.bytes@
    }
}

impl Clone for TokenId {
    fn clone(&self) -> (r: Self)
        ensures
            r@ == self@,
    {
        TokenId { bytes: self.bytes.clone() }
    }
}

impl TokenId {
    /// Whether the two identifiers name the same token.
    pub fn same_as(&self, other: &TokenId) -> (r: bool)
        ensures
            r == (self@ == other@),
    {
        same_bytes(&self.bytes, &other.bytes)
    }
}

/// An asset that a price can be stated in: the native coin or a token.
#[derive(Debug, PartialEq, Eq)]
pub enum AssetId {
    Native,
    Token(TokenId),
}

/// What an [`AssetId`] stands for.
pub enum AssetIdView {
    Native,
    Token(Seq<u8>),
}

impl View for AssetId {
    type V = AssetIdView;

    open spec fn view(&self) -> AssetIdView {
        match self {
            AssetId::Native => AssetIdView::Native,
            AssetId::Token(token) => AssetIdView::Token(token@),
        }
    }
}

impl Clone for AssetId {
    fn clone(&self) -> (r: Self)
        ensures
            r@ == self@,
    {
        match self {
            AssetId::Native => AssetId::Native,
            AssetId::Token(token) => AssetId::Token(token.clone()),
        }
    }
}

impl AssetId {
    /// Whether this is the native coin.
    pub fn is_native(&self) -> (r: bool)
        ensures
            r == (self@ is Native),
    {
        match self {
            AssetId::Native => true,
            AssetId::Token(_) => false,
        }
    }

    /// Whether the two name the same asset.
    pub fn same_as(&self, other: &AssetId) -> (r: bool)
        ensures
            r == (self@ == other@),
    {
        match (self, other) {
            (AssetId::Native, AssetId::Native) => true,
            (AssetId::Token(a), AssetId::Token(b)) => a.same_as(b),
            _ => false,
        }
    }
}

/// An amount of one instance of a token, as it accompanies a deposit.
#[derive(Debug, PartialEq, Eq)]
pub struct TokenPayment {
    pub token_identifier: TokenId,
    pub token_nonce: u64,
    pub amount: Amount,
}

/// What a [`TokenPayment`] stands for.
pub struct TokenPaymentView {
    pub token_identifier: Seq<u8>,
    pub token_nonce: u64,
    pub amount: nat,
}

impl View for TokenPayment {
    type V = TokenPaymentView;

    open spec fn view(&self) -> TokenPaymentView {
        TokenPaymentView {
            token_identifier: self.token_identifier@,
            token_nonce: self.token_nonce,
            amount: self.amount@,
        }
    }
}

/// An amount of the native coin or of one instance of a token, as it
/// accompanies a purchase.
#[derive(Debug, PartialEq, Eq)]
pub struct Payment {
    pub token_identifier: AssetId,
    pub token_nonce: u64,
    pub amount: Amount,
}

/// What a [`Payment`] stands for.
pub struct PaymentView {
    pub token_identifier: AssetIdView,
    pub token_nonce: u64,
    pub amount: nat,
}

impl View for Payment {
    type V = PaymentView;

    open spec fn view(&self) -> PaymentView {
        PaymentView {
            token_identifier: self.token_identifier@,
            token_nonce: self.token_nonce,
            amount: self.amount@,
        }
    }
}

/// An amount of an asset that the ledger hands to an account.
#[derive(Debug, PartialEq, Eq)]
pub struct Transfer {
    pub to: Address,
    pub token_identifier: AssetId,
    pub token_nonce: u64,
    pub amount: Amount,
}

/// What a [`Transfer`] stands for.
pub struct TransferView {
    pub to: Seq<u8>,
    pub token_identifier: AssetIdView,
    pub token_nonce: u64,
    pub amount: nat,
}

impl View for Transfer {
    type V = TransferView;

    open spec fn view(&self) -> TransferView {
        TransferView {
            to: self.to@,
            token_identifier: self.token_identifier@,
            token_nonce: self.token_nonce,
            amount: self.amount@,
        }
    }
}

/// What each of `transfers` stands for, in their order.
pub open spec fn transfer_views(transfers: Seq<Transfer>) -> Seq<TransferView> {
    transfers.map_values(|transfer: Transfer| transfer@)
}

} // verus!
