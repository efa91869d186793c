//! The sale contract: the operations of the ledger, each with its contract
//! over the model, and the ledger that carries them out.
//!
//! No operation reads or moves anything by itself. The caller, the payment
//! that accompanies a call, the time and the native balance come in as
//! arguments; what is to be sent comes back as [`Transfer`]s. An operation
//! that is refused leaves the ledger as it was.

use crate::amount::Amount;
use crate::asset::{Address, AssetId, Payment, TokenPayment, Transfer, transfer_views};
use crate::auction::{Auction, AuctionStats, AuctionView, stats_views, views_of};
use crate::error::{SaleError, STARTING_AUCTION_ID};
use crate::model::{
    LedgerView, lemma_token_proceeds_step, output_transfer, proceeds_transfer, sweep_transfer,
    token_proceeds,
};
use vstd::prelude::*;

verus! {

/// The operations of the sale contract.
pub trait EmptyContract: View<V = LedgerView> + Sized {
    /// Sets the identifier counter up, once: the first auction gets the
    /// identifier 1. On a ledger that was set up before, nothing changes.
    fn init(&mut self)
        requires
            old(self)@.wf(),
        ensures
            final(self)@.wf(),
            final(self)@ == old(self)@.set_up(),
    ;

    /// The identifier that the next auction gets; zero before set-up.
    fn next_auction_id(&self) -> (id: u64)
        requires
            self@.wf(),
        ensures
            id == self@.next_auction_id(),
    ;

    /// Opens an auction for the deposit `payment`, sold at `price` units of
    /// `input_token_id` each from `start_timestamp` on, and returns its
    /// identifier. Only the owner may.
    fn create_auction(
        &mut self,
        caller: &Address,
        input_token_id: AssetId,
        input_token_nonce: u64,
        price: Amount,
        start_timestamp: u64,
        payment: TokenPayment,
    ) -> (r: Result<u64, SaleError>)
        requires
            old(self)@.wf(),
            old(self)@.initialized,
            old(self)@.next_auction_id() < u64::MAX,
        ensures
            final(self)@.wf(),
            match r {
                Ok(id) => {
                    &&& old(self)@.create_refusal(
                        caller@,
                        input_token_id@,
                        input_token_nonce,
                        price@,
                    ) is None
                    &&& id == old(self)@.next_auction_id()
                    &&& final(self)@ == old(self)@.with_new_auction(
                        AuctionView::opened(
                            input_token_id@,
                            input_token_nonce,
                            price@,
                            start_timestamp,
                            payment@,
                        ),
                    )
                },
                Err(e) => {
                    &&& old(self)@.create_refusal(
                        caller@,
                        input_token_id@,
                        input_token_nonce,
                        price@,
                    ) == Some(e)
                    &&& final(self)@ == old(self)@
                },
            },
    ;

    /// Adds the deposit `payment` to the escrow of the auction `auction_id`.
    /// Only the owner may.
    fn add_token_to_auction(&mut self, caller: &Address, auction_id: u64, payment: TokenPayment) -> (r:
        Result<(), SaleError>)
        requires
            old(self)@.wf(),
        ensures
            final(self)@.wf(),
            match r {
                Ok(_) => {
                    &&& old(self)@.add_token_refusal(caller@, auction_id, payment@) is None
                    &&& final(self)@ == old(self)@.with_auction(
                        auction_id,
                        old(self)@.auction(auction_id).topped_up(payment@.amount),
                    )
                },
                Err(e) => {
                    &&& old(self)@.add_token_refusal(caller@, auction_id, payment@) == Some(e)
                    &&& final(self)@ == old(self)@
                },
            },
    ;

    /// Takes `amount` units out of the auction `auction_id` for good and
    /// returns the transfer that hands them to the caller. Only the owner
    /// may.
    fn retire_token_from_auction(&mut self, caller: &Address, auction_id: u64, amount: &Amount) -> (r:
        Result<Transfer, SaleError>)
        requires
            old(self)@.wf(),
        ensures
            final(self)@.wf(),
            match r {
                Ok(transfer) => {
                    &&& old(self)@.retire_refusal(caller@, auction_id, amount@) is None
                    &&& final(self)@ == old(self)@.with_auction(
                        auction_id,
                        old(self)@.auction(auction_id).retired(amount@),
                    )
                    &&& transfer@ == output_transfer(
                        caller@,
                        old(self)@.auction(auction_id),
                        amount@,
                    )
                },
                Err(e) => {
                    &&& old(self)@.retire_refusal(caller@, auction_id, amount@) == Some(e)
                    &&& final(self)@ == old(self)@
                },
            },
    ;

    /// Hands the native balance and the proceeds of every auction priced in
    /// a token to the caller, by the transfers returned. Only the owner may.
    /// The ledger stays as it is.
    fn withdraw_balance(&self, caller: &Address, native_balance: &Amount) -> (r: Result<
        Vec<Transfer>,
        SaleError,
    >)
        requires
            self@.wf(),
        ensures
            match r {
                Ok(transfers) => {
                    &&& self@.withdraw_refusal(caller@) is None
                    &&& transfer_views(transfers@) == self@.withdraw_transfers(
                        caller@,
                        native_balance@,
                    )
                    &&& transfers@.len() >= 1
                    &&& transfers@[0]@ == sweep_transfer(caller@, native_balance@)
                },
                Err(e) => self@.withdraw_refusal(caller@) == Some(e),
            },
    ;

    /// Closes the auction `auction_id` for good: what it still holds is
    /// retired, by the transfer returned, and nothing counts as escrowed any
    /// more. Only the owner may.
    fn hide_auction(&mut self, caller: &Address, auction_id: u64) -> (r: Result<Transfer, SaleError>)
        requires
            old(self)@.wf(),
        ensures
            final(self)@.wf(),
            match r {
                Ok(transfer) => {
                    &&& old(self)@.hide_refusal(caller@, auction_id) is None
                    &&& final(self)@ == old(self)@.with_auction(
                        auction_id,
                        old(self)@.auction(auction_id).hidden(),
                    )
                    &&& transfer@ == output_transfer(
                        caller@,
                        old(self)@.auction(auction_id),
                        old(self)@.auction(auction_id).current_quantity,
                    )
                },
                Err(e) => {
                    &&& old(self)@.hide_refusal(caller@, auction_id) == Some(e)
                    &&& final(self)@ == old(self)@
                },
            },
    ;

    /// Sells to the caller, at the time `now`, the units of the auction
    /// `auction_id` that `payment` pays for exactly, and returns the
    /// transfer that hands them over.
    fn buy(&mut self, caller: &Address, auction_id: u64, payment: Payment, now: u64) -> (r: Result<
        Transfer,
        SaleError,
    >)
        requires
            old(self)@.wf(),
        ensures
            final(self)@.wf(),
            match r {
                Ok(transfer) => {
                    &&& old(self)@.buy_refusal(auction_id, payment@, now) is None
                    &&& final(self)@ == old(self)@.with_auction(
                        auction_id,
                        old(self)@.auction(auction_id).sold(
                            old(self)@.auction(auction_id).quantity_for(payment@.amount),
                        ),
                    )
                    &&& transfer@ == output_transfer(
                        caller@,
                        old(self)@.auction(auction_id),
                        old(self)@.auction(auction_id).quantity_for(payment@.amount),
                    )
                },
                Err(e) => {
                    &&& old(self)@.buy_refusal(auction_id, payment@, now) == Some(e)
                    &&& final(self)@ == old(self)@
                },
            },
    ;

    /// The auction kept under `auction_id`.
    fn get_auction(&self, auction_id: u64) -> (r: Result<Auction, SaleError>)
        requires
            self@.wf(),
        ensures
            match r {
                Ok(auction) => {
                    &&& self@.query_refusal(auction_id) is None
                    &&& auction@ == self@.auction(auction_id)
                },
                Err(e) => self@.query_refusal(auction_id) == Some(e),
            },
    ;

    /// The report on the auction kept under `auction_id`.
    fn get_auction_stats(&self, auction_id: u64) -> (r: Result<AuctionStats, SaleError>)
        requires
            self@.wf(),
        ensures
            self@.answers_stats_query(
                auction_id,
                match r {
                    Ok(stats) => Ok(stats@),
                    Err(e) => Err(e),
                },
            ),
    ;

    /// The reports on all auctions, closed ones too, in the order of their
    /// identifiers.
    fn get_all_auctions_stats(&self) -> (r: Vec<AuctionStats>)
        requires
            self@.wf(),
        ensures
            stats_views(r@) == self@.all_auction_stats(),
            r@.len() == self@.auctions.len(),
            forall|i: int|
                0 <= i < r@.len() ==> (#[trigger] r@[i])@ == self@.auction_stats(
                    (STARTING_AUCTION_ID + i) as u64,
                ),
    ;

    /// The number of units of `auction` that are still for sale.
    fn get_remaining_amount(&self, auction: &Auction) -> (r: Amount)
        ensures
            r@ == auction@.current_quantity,
    ;
}

/// A ledger of auctions: the state of the sale contract.
#[derive(Debug, PartialEq, Eq)]
pub struct SaleLedger {
    owner: Address,
    initialized: bool,
    auctions: Vec<Auction>,
}

impl View for SaleLedger {
    type V = LedgerView;

    closed spec fn view(&self) -> LedgerView {
        LedgerView {
            owner: self.owner@,
            initialized: self.initialized,
            auctions: views_of(self.auctions@),
        }
    }
}

impl SaleLedger {
    /// The ledger of `owner` before set-up.
    pub fn new(owner: Address) -> (r: SaleLedger)
        ensures
            r@.wf(),
            r@ == LedgerView::fresh(owner@),
    {
        let r = SaleLedger { owner, initialized: false, auctions: Vec::new() };
        assert(r@.auctions =~= Seq::empty());
        r
    }

    /// The ledger of `owner` as it was stored: `next_auction_id` is what the
    /// stored counter reads, zero where it was never set, and `auctions` are
    /// the stored records in the order of their identifiers. `None` where
    /// the parts are no ledger.
    pub fn from_parts(owner: Address, next_auction_id: u64, auctions: Vec<Auction>) -> (r: Option<
        SaleLedger,
    >)
        ensures
            match r {
                Some(ledger) => {
                    &&& ledger@ == LedgerView::restored(
                        owner@,
                        next_auction_id,
                        views_of(auctions@),
                    )
                    &&& ledger@.wf()
                    &&& ledger@.next_auction_id() == next_auction_id
                },
                None => {
                    let ledger = LedgerView::restored(
                        owner@,
                        next_auction_id,
                        views_of(auctions@),
                    );
                    !(ledger.wf() && ledger.next_auction_id() == next_auction_id)
                },
            },
    {
        let count = auctions.len();
        if next_auction_id == 0 {
            if count != 0 {
                return None;
            }
        } else if next_auction_id < STARTING_AUCTION_ID || count as u64 != next_auction_id
            - STARTING_AUCTION_ID {
            return None;
        }
        let mut i: usize = 0;
        while i < count
            invariant
                i <= count,
                count == auctions@.len(),
                forall|j: int| 0 <= j < i ==> (#[trigger] views_of(auctions@)[j]).valid(),
            decreases count - i,
        {
            if !auctions[i].is_valid() {
                assert(!views_of(auctions@)[i as int].valid());
                return None;
            }
            i += 1;
        }
        Some(SaleLedger { owner, initialized: next_auction_id != 0, auctions })
    }

    /// The owner of this ledger.
    pub fn owner(&self) -> (r: &Address)
        ensures
            r@ == self@.owner,
    {
        &self.owner
    }
}

impl SaleLedger {
    /// The position of the auction kept under `auction_id`, if there is one.
    fn position(&self, auction_id: u64) -> (r: Option<usize>)
        requires
            self@.wf(),
        ensures
            match r {
                Some(at) => self@.contains(auction_id) && at == auction_id - STARTING_AUCTION_ID,
                None => !self@.contains(auction_id),
            },
    {
        if auction_id < STARTING_AUCTION_ID || auction_id - STARTING_AUCTION_ID
            >= self.auctions.len() as u64 {
            None
        } else {
            Some((auction_id - STARTING_AUCTION_ID) as usize)
        }
    }
}

impl EmptyContract for SaleLedger {
    fn init(&mut self) {
        self.initialized = true;
    }

    fn next_auction_id(&self) -> (id: u64) {
        if self.initialized {
            STARTING_AUCTION_ID + self.auctions.len() as u64
        } else {
            0
        }
    }

    fn create_auction(
        &mut self,
        caller: &Address,
        input_token_id: AssetId,
        input_token_nonce: u64,
        price: Amount,
        start_timestamp: u64,
        payment: TokenPayment,
    ) -> (r: Result<u64, SaleError>) {
        if !caller.same_as(&self.owner) {
            return Err(SaleError::NotOwner);
        }
        if input_token_id.is_native() && input_token_nonce != 0 {
            return Err(SaleError::CreateAuctionBadEgldNonce);
        }
        if price.is_zero() {
            return Err(SaleError::CreateAuctionBadPrice);
        }
        let new_auction_id = STARTING_AUCTION_ID + self.auctions.len() as u64;
        let auction = Auction {
            input_token_id,
            input_token_nonce,
            output_token_id: payment.token_identifier,
            output_token_nonce: payment.token_nonce,
            price,
            start_timestamp,
            max_quantity: payment.amount.clone(),
            current_quantity: payment.amount,
        };
        self.auctions.push(auction);
        proof {
            assert(self@.auctions =~= old(self)@.auctions.push(auction@));
        }
        Ok(new_auction_id)
    }

    fn add_token_to_auction(&mut self, caller: &Address, auction_id: u64, payment: TokenPayment) -> (r:
        Result<(), SaleError>) {
        if !caller.same_as(&self.owner) {
            return Err(SaleError::NotOwner);
        }
        let at = match self.position(auction_id) {
            Some(at) => at,
            None => {
                return Err(SaleError::InvalidAuctionId);
            },
        };
        let auction = &self.auctions[at];
        if !payment.token_identifier.same_as(&auction.output_token_id) {
            return Err(SaleError::PaymentTokenIdentifierMismatch);
        }
        if payment.token_nonce != auction.output_token_nonce {
            return Err(SaleError::PaymentTokenNonceMismatch);
        }
        let max_quantity = auction.max_quantity.plus(&payment.amount);
        let current_quantity = auction.current_quantity.plus(&payment.amount);
        self.auctions[at].max_quantity = max_quantity;
        self.auctions[at].current_quantity = current_quantity;
        proof {
            assert(self@.auctions =~= old(self)@.auctions.update(
                at as int,
                old(self)@.auction(auction_id).topped_up(payment@.amount),
            ));
        }
        Ok(())
    }

    fn retire_token_from_auction(&mut self, caller: &Address, auction_id: u64, amount: &Amount) -> (r:
        Result<Transfer, SaleError>) {
        if !caller.same_as(&self.owner) {
            return Err(SaleError::NotOwner);
        }
        let at = match self.position(auction_id) {
            Some(at) => at,
            None => {
                return Err(SaleError::InvalidAuctionId);
            },
        };
        let auction = &self.auctions[at];
        if !amount.at_most(&auction.current_quantity) {
            return Err(SaleError::RetiringTooMuchTokens);
        }
        let current_quantity = auction.current_quantity.minus(amount);
        let max_quantity = auction.max_quantity.minus(amount);
        let transfer = Transfer {
            to: caller.clone(),
            token_identifier: AssetId::Token(auction.output_token_id.clone()),
            token_nonce: auction.output_token_nonce,
            amount: amount.clone(),
        };
        self.auctions[at].current_quantity = current_quantity;
        self.auctions[at].max_quantity = max_quantity;
        proof {
            assert(self@.auctions =~= old(self)@.auctions.update(
                at as int,
                old(self)@.auction(auction_id).retired(amount@),
            ));
        }
        Ok(transfer)
    }

    fn withdraw_balance(&self, caller: &Address, native_balance: &Amount) -> (r: Result<
        Vec<Transfer>,
        SaleError,
    >) {
        if !caller.same_as(&self.owner) {
            return Err(SaleError::NotOwner);
        }
        let mut transfers: Vec<Transfer> = Vec::new();
        transfers.push(
            Transfer {
                to: caller.clone(),
                token_identifier: AssetId::Native,
                token_nonce: 0,
                amount: native_balance.clone(),
            },
        );
        let count = self.auctions.len();
        let mut i: usize = 0;
        proof {
            assert(transfer_views(transfers@) =~= seq![sweep_transfer(caller@, native_balance@)]
                + token_proceeds(caller@, self@.auctions.take(0)));
        }
        while i < count
            invariant
                i <= count,
                count == self.auctions@.len(),
                transfer_views(transfers@) == seq![sweep_transfer(caller@, native_balance@)]
                    + token_proceeds(caller@, self@.auctions.take(i as int)),
            decreases count - i,
        {
            let auction = &self.auctions[i];
            let ghost before = transfer_views(transfers@);
            proof {
                lemma_token_proceeds_step(caller@, self@.auctions, i as int);
            }
            if !auction.input_token_id.is_native() {
                let transfer = Transfer {
                    to: caller.clone(),
                    token_identifier: auction.input_token_id.clone(),
                    token_nonce: auction.input_token_nonce,
                    amount: auction.proceeds(),
                };
                transfers.push(transfer);
                assert(transfer_views(transfers@) =~= before.push(
                    proceeds_transfer(caller@, auction@),
                ));
            }
            i += 1;
        }
        proof {
            assert(self@.auctions.take(count as int) =~= self@.auctions);
            assert(transfer_views(transfers@)[0] == transfers@[0]@);
        }
        Ok(transfers)
    }

    fn hide_auction(&mut self, caller: &Address, auction_id: u64) -> (r: Result<Transfer, SaleError>) {
        if !caller.same_as(&self.owner) {
            return Err(SaleError::NotOwner);
        }
        let at = match self.position(auction_id) {
            Some(at) => at,
            None => {
                return Err(SaleError::InvalidAuctionId);
            },
        };
        let remaining = self.auctions[at].current_quantity.clone();
        match self.retire_token_from_auction(caller, auction_id, &remaining) {
            Ok(transfer) => {
                let ghost drained = self@;
                self.auctions[at].max_quantity = Amount::zero();
                proof {
                    assert(drained.auctions[at as int] == old(self)@.auction(auction_id).retired(
                        remaining@,
                    ));
                    assert(self@.auctions =~= drained.auctions.update(
                        at as int,
                        old(self)@.auction(auction_id).hidden(),
                    ));
                    assert(self@.auctions =~= old(self)@.auctions.update(
                        at as int,
                        old(self)@.auction(auction_id).hidden(),
                    ));
                }
                Ok(transfer)
            },
            Err(e) => Err(e),
        }
    }

    fn buy(&mut self, caller: &Address, auction_id: u64, payment: Payment, now: u64) -> (r: Result<
        Transfer,
        SaleError,
    >) {
        let at = match self.position(auction_id) {
            Some(at) => at,
            None => {
                return Err(SaleError::InvalidAuctionId);
            },
        };
        let auction = &self.auctions[at];
        if now < auction.start_timestamp {
            return Err(SaleError::SaleNotOpenedYet);
        }
        if !payment.token_identifier.same_as(&auction.input_token_id) {
            return Err(SaleError::PaymentTokenIdentifierMismatch);
        }
        if payment.token_nonce != auction.input_token_nonce {
            return Err(SaleError::PaymentTokenNonceMismatch);
        }
        let (wanted_buy_amount, remainder) = payment.amount.div_rem(&auction.price);
        if payment.amount.is_zero() || !remainder.is_zero() {
            return Err(SaleError::PaymentTokenAmountMismatch);
        }
        if !wanted_buy_amount.at_most(&self.get_remaining_amount(auction)) {
            return Err(SaleError::NotEnoughItems);
        }
        let current_quantity = auction.current_quantity.minus(&wanted_buy_amount);
        let transfer = Transfer {
            to: caller.clone(),
            token_identifier: AssetId::Token(auction.output_token_id.clone()),
            token_nonce: auction.output_token_nonce,
            amount: wanted_buy_amount,
        };
        self.auctions[at].current_quantity = current_quantity;
        proof {
            assert(self@.auctions =~= old(self)@.auctions.update(
                at as int,
                old(self)@.auction(auction_id).sold(
                    old(self)@.auction(auction_id).quantity_for(payment@.amount),
                ),
            ));
        }
        Ok(transfer)
    }

    fn get_auction(&self, auction_id: u64) -> (r: Result<Auction, SaleError>) {
        match self.position(auction_id) {
            Some(at) => Ok(self.auctions[at].clone()),
            None => Err(SaleError::InvalidAuctionId),
        }
    }

    fn get_auction_stats(&self, auction_id: u64) -> (r: Result<AuctionStats, SaleError>) {
        match self.get_auction(auction_id) {
            Ok(auction) => {
                let remaining_output_items = self.get_remaining_amount(&auction);
                Ok(AuctionStats { auction, remaining_output_items, id: auction_id })
            },
            Err(e) => Err(e),
        }
    }

    fn get_all_auctions_stats(&self) -> (r: Vec<AuctionStats>) {
        let mut all_auctions: Vec<AuctionStats> = Vec::new();
        let count = self.auctions.len();
        let mut i: usize = 0;
        while i < count
            invariant
                i <= count,
                count == self.auctions@.len(),
                self@.wf(),
                all_auctions@.len() == i,
                forall|j: int|
                    0 <= j < i ==> (#[trigger] all_auctions@[j])@ == self@.all_auction_stats()[j],
            decreases count - i,
        {
            let auction = self.auctions[i].clone();
            let remaining_output_items = self.get_remaining_amount(&auction);
            all_auctions.push(
                AuctionStats { auction, remaining_output_items, id: STARTING_AUCTION_ID + i as u64 },
            );
            i += 1;
        }
        proof {
            assert(stats_views(all_auctions@) =~= self@.all_auction_stats());
        }
        all_auctions
    }

    fn get_remaining_amount(&self, auction: &Auction) -> (r: Amount) {
        auction.current_quantity.clone()
    }
}

} // verus!
