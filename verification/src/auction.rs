//! The auction record: one fixed-price listing backed by an escrowed quantity
//! of a single token instance.

use crate::amount::Amount;
use crate::asset::{AssetId, AssetIdView, TokenId, TokenPaymentView};
use vstd::prelude::*;

verus! {

/// One listing. `price` units of the input asset buy one unit of the output
/// token; `max_quantity` counts the units ever escrowed and not retired,
/// `current_quantity` those still for sale.
#[derive(Debug, PartialEq, Eq)]
pub struct Auction {
    pub input_token_id: AssetId,
    pub input_token_nonce: u64,
    pub output_token_id: TokenId,
    pub output_token_nonce: u64,
    pub price: Amount,
    pub start_timestamp: u64,
    pub max_quantity: Amount,
    pub current_quantity: Amount,
}

/// What an [`Auction`] stands for.
pub struct AuctionView {
    pub input_token_id: AssetIdView,
    pub input_token_nonce: u64,
    pub output_token_id: Seq<u8>,
    pub output_token_nonce: u64,
    pub price: nat,
    pub start_timestamp: u64,
    pub max_quantity: nat,
    pub current_quantity: nat,
}

impl View for Auction {
    type V = AuctionView;

    open spec fn view(&self) -> AuctionView {
        AuctionView {
            input_token_id: self.input_token_id@,
            input_token_nonce: self.input_token_nonce,
            output_token_id: self.output_token_id@,
            output_token_nonce: self.output_token_nonce,
            price: self.price@,
            start_timestamp: self.start_timestamp,
            max_quantity: self.max_quantity@,
            current_quantity: self.current_quantity@,
        }
    }
}

impl AuctionView {
    /// What holds of every auction that a ledger keeps: the price is not
    /// zero, no more is for sale than was escrowed, and a price in the native
    /// coin has the nonce zero.
    pub open spec fn valid(self) -> bool {
        &&& self.price > 0
        &&& self.current_quantity <= self.max_quantity
        &&& (self.input_token_id is Native ==> self.input_token_nonce == 0)
    }

    /// The auction that a deposit opens.
    pub open spec fn opened(
        input_token_id: AssetIdView,
        input_token_nonce: u64,
        price: nat,
        start_timestamp: u64,
        deposit: TokenPaymentView,
    ) -> AuctionView {
        AuctionView {
            input_token_id,
            input_token_nonce,
            output_token_id: deposit.token_identifier,
            output_token_nonce: deposit.token_nonce,
            price,
            start_timestamp,
            max_quantity: deposit.amount,
            current_quantity: deposit.amount,
        }
    }

    /// The auction after `amount` more units were escrowed.
    pub open spec fn topped_up(self, amount: nat) -> AuctionView {
        AuctionView {
            max_quantity: self.max_quantity + amount,
            current_quantity: self.current_quantity + amount,
            ..self
        }
    }

    /// The auction after `amount` units were taken out of the sale for good.
    pub open spec fn retired(self, amount: nat) -> AuctionView {
        AuctionView {
            max_quantity: (self.max_quantity - amount) as nat,
            current_quantity: (self.current_quantity - amount) as nat,
            ..self
        }
    }

    /// The auction after it was closed: all that was left is retired, and
    /// nothing counts as escrowed any more.
    pub open spec fn hidden(self) -> AuctionView {
        AuctionView { max_quantity: 0, ..self.retired(self.current_quantity) }
    }

    /// The number of units that a payment of `paid` buys.
    pub open spec fn quantity_for(self, paid: nat) -> nat {
        paid / self.price
    }

    /// The auction after `quantity` units were sold.
    pub open spec fn sold(self, quantity: nat) -> AuctionView {
        AuctionView { current_quantity: (self.current_quantity - quantity) as nat, ..self }
    }

    /// The number of units that were escrowed and are no longer for sale.
    pub open spec fn sold_quantity(self) -> nat {
        if self.max_quantity >= self.current_quantity {
            (self.max_quantity - self.current_quantity) as nat
        } else {
            0
        }
    }

    /// What the sales of this auction have brought in: the price of every
    /// unit that was escrowed and is no longer for sale.
    pub open spec fn proceeds(self) -> nat {
        self.sold_quantity() * self.price
    }
}

/// What each of `auctions` stands for, in their order.
pub open spec fn views_of(auctions: Seq<Auction>) -> Seq<AuctionView> {
    auctions.map_values(|auction: Auction| auction@)
}

impl Clone for Auction {
    fn clone(&self) -> (r: Self)
        ensures
            r@ == self@,
    {
        Auction {
            input_token_id: self.input_token_id.clone(),
            input_token_nonce: self.input_token_nonce,
            output_token_id: self.output_token_id.clone(),
            output_token_nonce: self.output_token_nonce,
            price: self.price.clone(),
            start_timestamp: self.start_timestamp,
            max_quantity: self.max_quantity.clone(),
            current_quantity: self.current_quantity.clone(),
        }
    }
}

impl Auction {
    /// Whether this record may stand in a ledger.
    pub fn is_valid(&self) -> (r: bool)
        ensures
            r == self@.valid(),
    {
        !self.price.is_zero() && self.current_quantity.at_most(&self.max_quantity) && (
        !self.input_token_id.is_native() || self.input_token_nonce == 0)
    }

    /// What the sales of this auction have brought in.
    pub fn proceeds(&self) -> (r: Amount)
        ensures
            r@ == self@.proceeds(),
    {
        match self.max_quantity.checked_sub(&self.current_quantity) {
            Some(sold) => sold.times(&self.price),
            None => {
                Amount::zero()
            },
        }
    }
}

/// An auction as a query reports it.
#[derive(Debug, PartialEq, Eq)]
pub struct AuctionStats {
    pub auction: Auction,
    pub remaining_output_items: Amount,
    pub id: u64,
}

/// What an [`AuctionStats`] stands for.
pub struct AuctionStatsView {
    pub auction: AuctionView,
    pub remaining_output_items: nat,
    pub id: u64,
}

impl View for AuctionStats {
    type V = AuctionStatsView;

    open spec fn view(&self) -> AuctionStatsView {
        AuctionStatsView {
            auction: self.auction@,
            remaining_output_items: self.remaining_output_items@,
            id: self.id,
        }
    }
}

impl AuctionStatsView {
    /// The report on the auction `auction` kept under `id`.
    pub open spec fn of(auction: AuctionView, id: u64) -> AuctionStatsView {
        AuctionStatsView { auction, remaining_output_items: auction.current_quantity, id }
    }
}

/// What each of `all` stands for, in their order.
pub open spec fn stats_views(all: Seq<AuctionStats>) -> Seq<AuctionStatsView> {
    all.map_values(|stats: AuctionStats| stats@)
}

} // verus!
