//! What holds of the ledger whatever is done with it.
//!
//! Each law is stated over the model, by the functions in which the
//! contracts of the operations are written, so that it holds of every ledger
//! that the operations can leave.

use crate::asset::{AssetIdView, PaymentView, TokenPaymentView};
use crate::auction::{AuctionStatsView, AuctionView};
use crate::error::{SaleError, STARTING_AUCTION_ID};
use crate::model::LedgerView;
use vstd::prelude::*;

verus! {

/// An auction that a creation opens is valid whenever the creation is not
/// refused.
pub proof fn law_opened_auction_is_valid(
    ledger: LedgerView,
    caller: Seq<u8>,
    input_token_id: AssetIdView,
    input_token_nonce: u64,
    price: nat,
    start_timestamp: u64,
    deposit: TokenPaymentView,
)
    requires
        ledger.create_refusal(caller, input_token_id, input_token_nonce, price) is None,
    ensures
        AuctionView::opened(
            input_token_id,
            input_token_nonce,
            price,
            start_timestamp,
            deposit,
        ).valid(),
{
}

/// Whatever is done to a valid auction, it stays valid: no more is for sale
/// than is escrowed, the price is not zero, and a price in the native coin
/// keeps the nonce zero. Retiring and selling are meant for no more than is
/// for sale, as the operations make sure.
pub proof fn law_auction_stays_valid(auction: AuctionView, amount: nat)
    requires
        auction.valid(),
    ensures
        auction.topped_up(amount).valid(),
        auction.hidden().valid(),
        amount <= auction.current_quantity ==> auction.retired(amount).valid(),
        amount <= auction.current_quantity ==> auction.sold(amount).valid(),
{
}

/// A ledger stays well formed when a valid auction takes the place of one
/// that it keeps, and keeps the same identifiers.
pub proof fn law_replacing_keeps_ledger_well_formed(
    ledger: LedgerView,
    id: u64,
    auction: AuctionView,
)
    requires
        ledger.wf(),
        ledger.contains(id),
        auction.valid(),
    ensures
        ledger.with_auction(id, auction).wf(),
        ledger.with_auction(id, auction).next_auction_id() == ledger.next_auction_id(),
        forall|other: u64| ledger.with_auction(id, auction).contains(other) == ledger.contains(other),
        forall|other: u64|
            ledger.contains(other) && other != id ==> ledger.with_auction(id, auction).auction(
                other,
            ) == ledger.auction(other),
        ledger.with_auction(id, auction).auction(id) == auction,
{
}

/// A ledger that was set up stays well formed when a valid auction is
/// created in it; the auction gets the next identifier, which was free, and
/// every auction that was kept stays as it was, under its identifier.
pub proof fn law_creating_keeps_ledger_well_formed(ledger: LedgerView, auction: AuctionView)
    requires
        ledger.wf(),
        ledger.initialized,
        ledger.next_auction_id() < u64::MAX,
        auction.valid(),
    ensures
        ledger.with_new_auction(auction).wf(),
        !ledger.contains(ledger.next_auction_id() as u64),
        ledger.with_new_auction(auction).contains(ledger.next_auction_id() as u64),
        ledger.with_new_auction(auction).auction(ledger.next_auction_id() as u64) == auction,
        ledger.with_new_auction(auction).next_auction_id() == ledger.next_auction_id() + 1,
        forall|other: u64|
            ledger.contains(other) ==> ledger.with_new_auction(auction).contains(other)
                && ledger.with_new_auction(auction).auction(other) == ledger.auction(other),
{
}

/// Every operation that goes through leaves a well-formed ledger, in which
/// every auction is valid: no more is for sale than is escrowed, the price
/// is not zero, and a price in the native coin has the nonce zero.
pub proof fn law_every_operation_keeps_ledger_well_formed(
    ledger: LedgerView,
    caller: Seq<u8>,
    id: u64,
    input_token_id: AssetIdView,
    input_token_nonce: u64,
    price: nat,
    start_timestamp: u64,
    deposit: TokenPaymentView,
    amount: nat,
    payment: PaymentView,
    now: u64,
)
    requires
        ledger.wf(),
    ensures
        ledger.set_up().wf(),
        ledger.initialized && ledger.next_auction_id() < u64::MAX && ledger.create_refusal(
            caller,
            input_token_id,
            input_token_nonce,
            price,
        ) is None ==> ledger.with_new_auction(
            AuctionView::opened(input_token_id, input_token_nonce, price, start_timestamp, deposit),
        ).wf(),
        ledger.add_token_refusal(caller, id, deposit) is None ==> ledger.with_auction(
            id,
            ledger.auction(id).topped_up(deposit.amount),
        ).wf(),
        ledger.retire_refusal(caller, id, amount) is None ==> ledger.with_auction(
            id,
            ledger.auction(id).retired(amount),
        ).wf(),
        ledger.hide_refusal(caller, id) is None ==> ledger.with_auction(
            id,
            ledger.auction(id).hidden(),
        ).wf(),
        ledger.buy_refusal(id, payment, now) is None ==> ledger.with_auction(
            id,
            ledger.auction(id).sold(ledger.auction(id).quantity_for(payment.amount)),
        ).wf(),
{
    if ledger.contains(id) {
        let auction = ledger.auction(id);
        law_auction_stays_valid(auction, deposit.amount);
        law_auction_stays_valid(auction, amount);
        law_auction_stays_valid(auction, auction.quantity_for(payment.amount));
        law_replacing_keeps_ledger_well_formed(ledger, id, auction.topped_up(deposit.amount));
        law_replacing_keeps_ledger_well_formed(ledger, id, auction.hidden());
        if amount <= auction.current_quantity {
            law_replacing_keeps_ledger_well_formed(ledger, id, auction.retired(amount));
        }
        if auction.quantity_for(payment.amount) <= auction.current_quantity {
            law_replacing_keeps_ledger_well_formed(
                ledger,
                id,
                auction.sold(auction.quantity_for(payment.amount)),
            );
        }
    }
}

/// Setting up keeps a ledger well formed, sets the counter to the first
/// identifier on a ledger that was never set up, and changes nothing on one
/// that was.
pub proof fn law_set_up_once(ledger: LedgerView)
    requires
        ledger.wf(),
    ensures
        ledger.set_up().wf(),
        !ledger.initialized ==> ledger.set_up().next_auction_id() == STARTING_AUCTION_ID,
        ledger.initialized ==> ledger.set_up() == ledger,
        ledger.set_up().set_up() == ledger.set_up(),
{
}

/// Two queries for the report on the same auction, with nothing done to the
/// ledger in between, give the same answer.
pub proof fn law_stats_query_is_repeatable(
    ledger: LedgerView,
    id: u64,
    first: Result<AuctionStatsView, SaleError>,
    second: Result<AuctionStatsView, SaleError>,
)
    requires
        ledger.answers_stats_query(id, first),
        ledger.answers_stats_query(id, second),
    ensures
        first == second,
{
}

/// The condition of a purchase that the auction exists.
pub open spec fn auction_exists(ledger: LedgerView, id: u64) -> bool {
    ledger.contains(id)
}

/// The condition of a purchase that the time has come.
pub open spec fn sale_is_open(ledger: LedgerView, id: u64, now: u64) -> bool {
    now >= ledger.auction(id).start_timestamp
}

/// The condition of a purchase that the asset paid is the one asked for.
pub open spec fn asset_matches(ledger: LedgerView, id: u64, payment: PaymentView) -> bool {
    payment.token_identifier == ledger.auction(id).input_token_id
}

/// The condition of a purchase that the nonce paid is the one asked for.
pub open spec fn nonce_matches(ledger: LedgerView, id: u64, payment: PaymentView) -> bool {
    payment.token_nonce == ledger.auction(id).input_token_nonce
}

/// The condition of a purchase that the amount paid is the price of a whole
/// number of units, and of one at least.
pub open spec fn amount_is_exact(ledger: LedgerView, id: u64, payment: PaymentView) -> bool {
    payment.amount > 0 && payment.amount % ledger.auction(id).price == 0
}

/// The condition of a purchase that the auction holds the units paid for.
pub open spec fn enough_is_left(ledger: LedgerView, id: u64, payment: PaymentView) -> bool {
    payment.amount / ledger.auction(id).price <= ledger.auction(id).current_quantity
}

/// A purchase goes through exactly when the auction exists and all of its
/// conditions hold together.
pub proof fn law_buy_succeeds_iff_all_conditions_hold(
    ledger: LedgerView,
    id: u64,
    payment: PaymentView,
    now: u64,
)
    ensures
        ledger.buy_refusal(id, payment, now) is None <==> {
            &&& auction_exists(ledger, id)
            &&& sale_is_open(ledger, id, now)
            &&& asset_matches(ledger, id, payment)
            &&& nonce_matches(ledger, id, payment)
            &&& amount_is_exact(ledger, id, payment)
            &&& enough_is_left(ledger, id, payment)
        },
{
}

/// A purchase that breaks exactly one condition is refused for that
/// condition; so is one on an auction that does not exist.
pub proof fn law_buy_names_the_broken_condition(
    ledger: LedgerView,
    id: u64,
    payment: PaymentView,
    now: u64,
)
    ensures
        !auction_exists(ledger, id) ==> ledger.buy_refusal(id, payment, now) == Some(
            SaleError::InvalidAuctionId,
        ),
        auction_exists(ledger, id) && !sale_is_open(ledger, id, now) && asset_matches(
            ledger,
            id,
            payment,
        ) && nonce_matches(ledger, id, payment) && amount_is_exact(ledger, id, payment)
            && enough_is_left(ledger, id, payment) ==> ledger.buy_refusal(id, payment, now)
            == Some(SaleError::SaleNotOpenedYet),
        auction_exists(ledger, id) && sale_is_open(ledger, id, now) && !asset_matches(
            ledger,
            id,
            payment,
        ) && nonce_matches(ledger, id, payment) && amount_is_exact(ledger, id, payment)
            && enough_is_left(ledger, id, payment) ==> ledger.buy_refusal(id, payment, now)
            == Some(SaleError::PaymentTokenIdentifierMismatch),
        auction_exists(ledger, id) && sale_is_open(ledger, id, now) && asset_matches(
            ledger,
            id,
            payment,
        ) && !nonce_matches(ledger, id, payment) && amount_is_exact(ledger, id, payment)
            && enough_is_left(ledger, id, payment) ==> ledger.buy_refusal(id, payment, now)
            == Some(SaleError::PaymentTokenNonceMismatch),
        auction_exists(ledger, id) && sale_is_open(ledger, id, now) && asset_matches(
            ledger,
            id,
            payment,
        ) && nonce_matches(ledger, id, payment) && !amount_is_exact(ledger, id, payment)
            && enough_is_left(ledger, id, payment) ==> ledger.buy_refusal(id, payment, now)
            == Some(SaleError::PaymentTokenAmountMismatch),
        auction_exists(ledger, id) && sale_is_open(ledger, id, now) && asset_matches(
            ledger,
            id,
            payment,
        ) && nonce_matches(ledger, id, payment) && amount_is_exact(ledger, id, payment)
            && !enough_is_left(ledger, id, payment) ==> ledger.buy_refusal(id, payment, now)
            == Some(SaleError::NotEnoughItems),
{
}

/// A purchase that goes through takes from the auction exactly the units
/// that the payment pays for, and the price of those units is the payment.
pub proof fn law_buy_is_paid_exactly(ledger: LedgerView, id: u64, payment: PaymentView, now: u64)
    requires
        ledger.wf(),
        ledger.buy_refusal(id, payment, now) is None,
    ensures
        ledger.auction(id).quantity_for(payment.amount) * ledger.auction(id).price
            == payment.amount,
        ledger.auction(id).sold(ledger.auction(id).quantity_for(payment.amount)).current_quantity
            + ledger.auction(id).quantity_for(payment.amount) == ledger.auction(
            id,
        ).current_quantity,
        ledger.auction(id).sold(ledger.auction(id).quantity_for(payment.amount)).proceeds()
            == ledger.auction(id).proceeds() + payment.amount,
{
    let auction = ledger.auction(id);
    let quantity = auction.quantity_for(payment.amount);
    vstd::arithmetic::div_mod::lemma_fundamental_div_mod(
        payment.amount as int,
        auction.price as int,
    );
    let price = auction.price;
    let sold_before = auction.sold_quantity();
    assert((sold_before + quantity) * price == sold_before * price + quantity * price)
        by (nonlinear_arith);
}

/// Closing an auction and then creating another leaves the closed one at
/// zero, under its identifier, and gives the new one another identifier and
/// exactly its own deposit.
pub proof fn law_closed_auction_is_not_revived(
    ledger: LedgerView,
    caller: Seq<u8>,
    closed_id: u64,
    input_token_id: AssetIdView,
    input_token_nonce: u64,
    price: nat,
    start_timestamp: u64,
    deposit: TokenPaymentView,
)
    requires
        ledger.wf(),
        ledger.initialized,
        ledger.next_auction_id() < u64::MAX,
        ledger.hide_refusal(caller, closed_id) is None,
        ledger.create_refusal(caller, input_token_id, input_token_nonce, price) is None,
    ensures
        ({
            let closed = ledger.with_auction(closed_id, ledger.auction(closed_id).hidden());
            let created = AuctionView::opened(
                input_token_id,
                input_token_nonce,
                price,
                start_timestamp,
                deposit,
            );
            let new_id = closed.next_auction_id() as u64;
            let after = closed.with_new_auction(created);
            &&& new_id != closed_id
            &&& after.contains(closed_id)
            &&& after.auction_stats(closed_id) == closed.auction_stats(closed_id)
            &&& after.auction_stats(closed_id).remaining_output_items == 0
            &&& after.auction(closed_id).current_quantity == 0
            &&& after.auction(closed_id).max_quantity == 0
            &&& after.contains(new_id)
            &&& after.auction(new_id).current_quantity == deposit.amount
            &&& after.auction(new_id).max_quantity == deposit.amount
        }),
{
}

} // verus!
