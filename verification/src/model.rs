//! The ledger as a mathematical value, and what every operation makes of it.
//!
//! A ledger is its owner, whether its identifier counter was set up, and its
//! auctions in the order of their identifiers, which start at
//! [`STARTING_AUCTION_ID`] and have no gaps. For each operation the model
//! gives the reason for which it is refused, if any, the ledger that it
//! leaves, and the transfers that it asks for.

use crate::asset::{AssetIdView, PaymentView, TokenPaymentView, TransferView};
use crate::auction::{AuctionStatsView, AuctionView};
use crate::error::{SaleError, STARTING_AUCTION_ID};
use vstd::prelude::*;

verus! {

/// What a ledger stands for.
pub struct LedgerView {
    pub owner: Seq<u8>,
    pub initialized: bool,
    pub auctions: Seq<AuctionView>,
}

/// Whether sales of the auction are paid in a token rather than in the
/// native coin.
pub open spec fn priced_in_token(auction: AuctionView) -> bool {
    !(auction.input_token_id is Native)
}

/// The transfer that hands the proceeds of `auction` to `to`.
pub open spec fn proceeds_transfer(to: Seq<u8>, auction: AuctionView) -> TransferView {
    TransferView {
        to,
        token_identifier: auction.input_token_id,
        token_nonce: auction.input_token_nonce,
        amount: auction.proceeds(),
    }
}

/// The transfer that hands `amount` units of what `auction` sells to `to`.
pub open spec fn output_transfer(to: Seq<u8>, auction: AuctionView, amount: nat) -> TransferView {
    TransferView {
        to,
        token_identifier: AssetIdView::Token(auction.output_token_id),
        token_nonce: auction.output_token_nonce,
        amount,
    }
}

/// The proceeds transfers for those of `auctions` that are priced in a
/// token, in their order.
pub open spec fn token_proceeds(to: Seq<u8>, auctions: Seq<AuctionView>) -> Seq<TransferView> {
    auctions.filter_map(
        |auction: AuctionView|
            if priced_in_token(auction) {
                Some(proceeds_transfer(to, auction))
            } else {
                None
            },
    )
}

/// The transfer that hands the whole native balance to `to`.
pub open spec fn sweep_transfer(to: Seq<u8>, native_balance: nat) -> TransferView {
    TransferView {
        to,
        token_identifier: AssetIdView::Native,
        token_nonce: 0,
        amount: native_balance,
    }
}

/// One more auction adds its proceeds transfer where it is priced in a
/// token, and nothing where it is not.
pub proof fn lemma_token_proceeds_step(to: Seq<u8>, auctions: Seq<AuctionView>, i: int)
    requires
        0 <= i < auctions.len(),
    ensures
        token_proceeds(to, auctions.take(i + 1)) == if priced_in_token(auctions[i]) {
            token_proceeds(to, auctions.take(i)).push(proceeds_transfer(to, auctions[i]))
        } else {
            token_proceeds(to, auctions.take(i))
        },
{
    let more = auctions.take(i + 1);
    assert(more.drop_last() =~= auctions.take(i));
    let shorter = token_proceeds(to, auctions.take(i));
    assert(shorter + seq![proceeds_transfer(to, auctions[i])] =~= shorter.push(
        proceeds_transfer(to, auctions[i]),
    ));
}

impl LedgerView {
    /// The ledger of `owner` that keeps nothing and was not set up.
    pub open spec fn fresh(owner: Seq<u8>) -> LedgerView {
        LedgerView { owner, initialized: false, auctions: Seq::empty() }
    }

    /// The ledger of `owner` whose stored counter reads `next_auction_id`
    /// (zero where it was never set) and that keeps `auctions`.
    pub open spec fn restored(owner: Seq<u8>, next_auction_id: u64, auctions: Seq<AuctionView>)
        -> LedgerView {
        LedgerView { owner, initialized: next_auction_id != 0, auctions }
    }

    /// What holds of every ledger: before its counter is set up it keeps no
    /// auction, its identifiers fit the machine, and each auction is valid.
    pub open spec fn wf(self) -> bool {
        &&& !self.initialized ==> self.auctions.len() == 0
        &&& self.auctions.len() < u64::MAX
        &&& forall|i: int| 0 <= i < self.auctions.len() ==> (#[trigger] self.auctions[i]).valid()
    }

    /// The identifier that the next auction gets; zero before the counter is
    /// set up.
    pub open spec fn next_auction_id(self) -> nat {
        if self.initialized {
            STARTING_AUCTION_ID as nat + self.auctions.len()
        } else {
            0
        }
    }

    /// Whether an auction is kept under `id`.
    pub open spec fn contains(self, id: u64) -> bool {
        STARTING_AUCTION_ID <= id < STARTING_AUCTION_ID + self.auctions.len()
    }

    /// The auction kept under `id`.
    pub open spec fn auction(self, id: u64) -> AuctionView
        recommends
            self.contains(id),
    {
        self.auctions[id - STARTING_AUCTION_ID]
    }

    /// The ledger with `auction` kept under `id` in place of what was there.
    pub open spec fn with_auction(self, id: u64, auction: AuctionView) -> LedgerView
        recommends
            self.contains(id),
    {
        LedgerView { auctions: self.auctions.update(id - STARTING_AUCTION_ID, auction), ..self }
    }

    /// The ledger after set-up: the counter is set, and what was there stays.
    pub open spec fn set_up(self) -> LedgerView {
        LedgerView { initialized: true, ..self }
    }

    /// Why the creation of an auction is refused, if it is.
    pub open spec fn create_refusal(
        self,
        caller: Seq<u8>,
        input_token_id: AssetIdView,
        input_token_nonce: u64,
        price: nat,
    ) -> Option<SaleError> {
        if caller != self.owner {
            Some(SaleError::NotOwner)
        } else if input_token_id is Native && input_token_nonce != 0 {
            Some(SaleError::CreateAuctionBadEgldNonce)
        } else if price == 0 {
            Some(SaleError::CreateAuctionBadPrice)
        } else {
            None
        }
    }

    /// The ledger after `auction` was created under the next identifier.
    pub open spec fn with_new_auction(self, auction: AuctionView) -> LedgerView {
        LedgerView { auctions: self.auctions.push(auction), ..self }
    }

    /// Why a top-up is refused, if it is.
    pub open spec fn add_token_refusal(
        self,
        caller: Seq<u8>,
        id: u64,
        deposit: TokenPaymentView,
    ) -> Option<SaleError> {
        if caller != self.owner {
            Some(SaleError::NotOwner)
        } else if !self.contains(id) {
            Some(SaleError::InvalidAuctionId)
        } else if deposit.token_identifier != self.auction(id).output_token_id {
            Some(SaleError::PaymentTokenIdentifierMismatch)
        } else if deposit.token_nonce != self.auction(id).output_token_nonce {
            Some(SaleError::PaymentTokenNonceMismatch)
        } else {
            None
        }
    }

    /// Why a retirement is refused, if it is.
    pub open spec fn retire_refusal(self, caller: Seq<u8>, id: u64, amount: nat) -> Option<
        SaleError,
    > {
        if caller != self.owner {
            Some(SaleError::NotOwner)
        } else if !self.contains(id) {
            Some(SaleError::InvalidAuctionId)
        } else if amount > self.auction(id).current_quantity {
            Some(SaleError::RetiringTooMuchTokens)
        } else {
            None
        }
    }

    /// Why the closing of an auction is refused, if it is.
    pub open spec fn hide_refusal(self, caller: Seq<u8>, id: u64) -> Option<SaleError> {
        if caller != self.owner {
            Some(SaleError::NotOwner)
        } else if !self.contains(id) {
            Some(SaleError::InvalidAuctionId)
        } else {
            None
        }
    }

    /// Why a purchase at the time `now` is refused, if it is: the first of
    /// the checks, in their order, that fails.
    pub open spec fn buy_refusal(self, id: u64, payment: PaymentView, now: u64) -> Option<
        SaleError,
    > {
        if !self.contains(id) {
            Some(SaleError::InvalidAuctionId)
        } else if now < self.auction(id).start_timestamp {
            Some(SaleError::SaleNotOpenedYet)
        } else if payment.token_identifier != self.auction(id).input_token_id {
            Some(SaleError::PaymentTokenIdentifierMismatch)
        } else if payment.token_nonce != self.auction(id).input_token_nonce {
            Some(SaleError::PaymentTokenNonceMismatch)
        } else if payment.amount == 0 || payment.amount % self.auction(id).price != 0 {
            Some(SaleError::PaymentTokenAmountMismatch)
        } else if self.auction(id).quantity_for(payment.amount) > self.auction(id).current_quantity {
            Some(SaleError::NotEnoughItems)
        } else {
            None
        }
    }

    /// Why a withdrawal is refused, if it is.
    pub open spec fn withdraw_refusal(self, caller: Seq<u8>) -> Option<SaleError> {
        if caller != self.owner {
            Some(SaleError::NotOwner)
        } else {
            None
        }
    }

    /// The transfers of a withdrawal to `to`: the whole native balance
    /// first, then the proceeds of each auction priced in a token, in the
    /// order of their identifiers.
    pub open spec fn withdraw_transfers(self, to: Seq<u8>, native_balance: nat) -> Seq<
        TransferView,
    > {
        seq![sweep_transfer(to, native_balance)] + token_proceeds(to, self.auctions)
    }

    /// Why a query for the auction under `id` is refused, if it is.
    pub open spec fn query_refusal(self, id: u64) -> Option<SaleError> {
        if !self.contains(id) {
            Some(SaleError::InvalidAuctionId)
        } else {
            None
        }
    }

    /// The report on the auction kept under `id`.
    pub open spec fn auction_stats(self, id: u64) -> AuctionStatsView
        recommends
            self.contains(id),
    {
        AuctionStatsView::of(self.auction(id), id)
    }

    /// Whether `answer` is what a query for the report on the auction under
    /// `id` gives.
    pub open spec fn answers_stats_query(
        self,
        id: u64,
        answer: Result<AuctionStatsView, SaleError>,
    ) -> bool {
        match answer {
            Ok(stats) => self.query_refusal(id) is None && stats == self.auction_stats(id),
            Err(e) => self.query_refusal(id) == Some(e),
        }
    }

    /// The reports on all auctions, in the order of their identifiers.
    pub open spec fn all_auction_stats(self) -> Seq<AuctionStatsView> {
        Seq::new(
            self.auctions.len(),
            |i: int| AuctionStatsView::of(self.auctions[i], (STARTING_AUCTION_ID + i) as u64),
        )
    }
}

} // verus!
