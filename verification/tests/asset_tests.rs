use apc_sales::amount::Amount;
use apc_sales::asset::{Address, AssetId, TokenId};
use apc_sales::auction::Auction;

fn token(identifier: &[u8]) -> TokenId {
    TokenId { bytes: identifier.to_vec() }
}

#[test]
fn addresses_are_the_same_where_their_bytes_are() {
    let owner = Address { bytes: b"owner".to_vec() };
    assert!(owner.same_as(&Address { bytes: b"owner".to_vec() }));
    assert!(owner.same_as(&owner.clone()));
    assert!(!owner.same_as(&Address { bytes: b"ownes".to_vec() }));
    assert!(!owner.same_as(&Address { bytes: b"owne".to_vec() }));
    assert!(!owner.same_as(&Address { bytes: b"owner!".to_vec() }));
    assert!(!owner.same_as(&Address { bytes: Vec::new() }));
    assert!(Address { bytes: Vec::new() }.same_as(&Address { bytes: Vec::new() }));
}

#[test]
fn tokens_are_the_same_where_their_identifiers_are() {
    assert!(token(b"SELL-aaaaaa").same_as(&token(b"SELL-aaaaaa")));
    assert!(!token(b"SELL-aaaaaa").same_as(&token(b"SELL-aaaaab")));
    assert!(!token(b"SELL-aaaaaa").same_as(&token(b"WELL-aaaaaa")));
    assert!(!token(b"SELL-aaaaaa").same_as(&token(b"SELL-aaaaa")));
    assert_eq!(token(b"SELL-aaaaaa").clone(), token(b"SELL-aaaaaa"));
}

#[test]
fn native_coin_is_no_token() {
    let native = AssetId::Native;
    let money = AssetId::Token(token(b"MONEY-aaaaaa"));
    assert!(native.is_native());
    assert!(!money.is_native());
    assert!(native.same_as(&AssetId::Native));
    assert!(money.same_as(&AssetId::Token(token(b"MONEY-aaaaaa"))));
    assert!(!money.same_as(&AssetId::Token(token(b"MONEY-bbbbbb"))));
    assert!(!native.same_as(&money));
    assert!(!money.same_as(&native));
    // the native coin is told from a token by its kind, not by a name
    assert!(!native.same_as(&AssetId::Token(token(b""))));
    assert!(!native.same_as(&AssetId::Token(token(b"EGLD"))));
    assert_eq!(money.clone(), money);
    assert_eq!(native.clone(), native);
}

fn auction(input: AssetId, nonce: u64, price: u64, max: u64, current: u64) -> Auction {
    Auction {
        input_token_id: input,
        input_token_nonce: nonce,
        output_token_id: token(b"HAT-ffffff"),
        output_token_nonce: 2,
        price: Amount::from_u64(price),
        start_timestamp: 0,
        max_quantity: Amount::from_u64(max),
        current_quantity: Amount::from_u64(current),
    }
}

#[test]
fn auction_is_valid_where_all_three_conditions_hold() {
    let money = || AssetId::Token(token(b"MONEY-aaaaaa"));
    assert!(auction(AssetId::Native, 0, 1, 5, 5).is_valid());
    assert!(auction(AssetId::Native, 0, 1, 5, 0).is_valid());
    assert!(auction(AssetId::Native, 0, 1, 0, 0).is_valid());
    assert!(auction(money(), 0, 1, 5, 5).is_valid());
    assert!(auction(money(), 7, 1, 5, 5).is_valid());
    // the price is zero
    assert!(!auction(AssetId::Native, 0, 0, 5, 5).is_valid());
    // more is for sale than is escrowed
    assert!(!auction(AssetId::Native, 0, 1, 5, 6).is_valid());
    // the native coin with a nonce
    assert!(!auction(AssetId::Native, 7, 1, 5, 5).is_valid());
}

#[test]
fn auction_proceeds_are_what_was_sold_times_the_price() {
    assert_eq!(auction(AssetId::Native, 0, 7, 100, 97).proceeds(), Amount::from_u64(21));
    assert_eq!(auction(AssetId::Native, 0, 7, 100, 100).proceeds(), Amount::zero());
    assert_eq!(auction(AssetId::Native, 0, 7, 100, 0).proceeds(), Amount::from_u64(700));
    assert_eq!(auction(AssetId::Native, 0, 7, 0, 0).proceeds(), Amount::zero());
    assert_eq!(auction(AssetId::Native, 0, 7, 5, 6).proceeds(), Amount::zero());
    assert_eq!(auction(AssetId::Native, 0, 7, 100, 97).clone(), auction(AssetId::Native, 0, 7, 100, 97));
}
