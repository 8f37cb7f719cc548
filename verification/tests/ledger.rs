use nft_evolution::AccountId;
use nft_evolution::ExchangeError;
use nft_evolution::ExchangeLedger;
use nft_evolution::NftEvolution;
use nft_evolution::TokenId;

fn tid(s: &str) -> TokenId {
    TokenId::new(s.as_bytes().to_vec())
}

fn acct(s: &str) -> AccountId {
    AccountId::new(s.as_bytes().to_vec())
}

fn fresh_ledger(count: u64) -> ExchangeLedger {
    ExchangeLedger::init(
        acct("owner"),
        5,
        tid("FIRST-abc"),
        tid("SECOND-def"),
        tid("UPGRADED-ghi"),
        count,
    )
}

#[test]
fn exchange_success_scenario() {
    let mut ledger = fresh_ledger(3);
    let caller = acct("holder");
    let bundle = vec![tid("FIRST-abc"), tid("SECOND-def")];
    let r = ledger.evolve_nft(&caller, &bundle, 1);
    let payout = r.expect("a valid exchange with inventory must succeed");
    assert!(payout.token.same_as(&tid("UPGRADED-ghi")));
    assert_eq!(payout.ordinal, 3);
    assert_eq!(payout.amount, 5);
    assert!(payout.recipient.same_as(&caller));
    assert_eq!(ledger.get_number_of_remaining_upgraded_nfts(), 2);
}

#[test]
fn exchange_order_of_bundle_is_irrelevant() {
    let mut ledger = fresh_ledger(2);
    let caller = acct("holder");
    let bundle = vec![tid("SECOND-def"), tid("FIRST-abc")];
    let r = ledger.evolve_nft(&caller, &bundle, 1);
    assert!(r.is_ok());
    assert_eq!(ledger.get_number_of_remaining_upgraded_nfts(), 1);
}

#[test]
fn exchange_empty_bundle_fails_validation() {
    let mut ledger = fresh_ledger(3);
    let r = ledger.evolve_nft(&acct("holder"), &vec![], 1);
    assert_eq!(r.unwrap_err(), ExchangeError::ValidationError);
    assert_eq!(ledger.get_number_of_remaining_upgraded_nfts(), 3);
}

#[test]
fn exchange_single_transfer_fails_validation() {
    let mut ledger = fresh_ledger(3);
    let bundle = vec![tid("FIRST-abc")];
    let r = ledger.evolve_nft(&acct("holder"), &bundle, 1);
    assert_eq!(r.unwrap_err(), ExchangeError::ValidationError);
}

#[test]
fn exchange_three_transfers_fail_validation() {
    let mut ledger = fresh_ledger(3);
    let bundle = vec![tid("FIRST-abc"), tid("SECOND-def"), tid("UPGRADED-ghi")];
    let r = ledger.evolve_nft(&acct("holder"), &bundle, 1);
    assert_eq!(r.unwrap_err(), ExchangeError::ValidationError);
    assert_eq!(ledger.get_number_of_remaining_upgraded_nfts(), 3);
}

#[test]
fn exchange_duplicate_of_first_collection_fails_validation() {
    let mut ledger = fresh_ledger(3);
    let bundle = vec![tid("FIRST-abc"), tid("FIRST-abc")];
    let r = ledger.evolve_nft(&acct("holder"), &bundle, 1);
    assert_eq!(r.unwrap_err(), ExchangeError::ValidationError);
}

#[test]
fn exchange_missing_second_identifier_fails_validation() {
    let mut ledger = fresh_ledger(3);
    let bundle = vec![tid("FIRST-abc"), tid("STRANGE-zzz")];
    let r = ledger.evolve_nft(&acct("holder"), &bundle, 1);
    assert_eq!(r.unwrap_err(), ExchangeError::ValidationError);
}

#[test]
fn exchange_missing_first_identifier_fails_validation() {
    let mut ledger = fresh_ledger(3);
    let bundle = vec![tid("STRANGE-zzz"), tid("SECOND-def")];
    let r = ledger.evolve_nft(&acct("holder"), &bundle, 1);
    assert_eq!(r.unwrap_err(), ExchangeError::ValidationError);
}

#[test]
fn exchange_nothing_held_at_ordinal_fails_inventory() {
    let mut ledger = fresh_ledger(3);
    let bundle = vec![tid("FIRST-abc"), tid("SECOND-def")];
    let r = ledger.evolve_nft(&acct("holder"), &bundle, 0);
    assert_eq!(r.unwrap_err(), ExchangeError::InventoryError);
    assert_eq!(ledger.get_number_of_remaining_upgraded_nfts(), 3);
}

#[test]
fn exchange_two_held_at_ordinal_fails_inventory() {
    let mut ledger = fresh_ledger(3);
    let bundle = vec![tid("FIRST-abc"), tid("SECOND-def")];
    let r = ledger.evolve_nft(&acct("holder"), &bundle, 2);
    assert_eq!(r.unwrap_err(), ExchangeError::InventoryError);
    assert_eq!(ledger.get_number_of_remaining_upgraded_nfts(), 3);
}

#[test]
fn exchange_fourth_attempt_after_exhaustion_fails_inventory() {
    let mut ledger = fresh_ledger(3);
    let caller = acct("holder");
    for expected_ordinal in [3u64, 2, 1] {
        let bundle = vec![tid("FIRST-abc"), tid("SECOND-def")];
        let payout = ledger.evolve_nft(&caller, &bundle, 1).expect("supply remains");
        assert_eq!(payout.ordinal, expected_ordinal);
    }
    assert_eq!(ledger.get_number_of_remaining_upgraded_nfts(), 0);
    let bundle = vec![tid("FIRST-abc"), tid("SECOND-def")];
    let r = ledger.evolve_nft(&caller, &bundle, 0);
    assert_eq!(r.unwrap_err(), ExchangeError::InventoryError);
    assert_eq!(ledger.get_number_of_remaining_upgraded_nfts(), 0);
}

#[test]
fn store_by_non_owner_fails_with_upgraded_assets() {
    let ledger = fresh_ledger(3);
    let bundle = vec![tid("UPGRADED-ghi"), tid("UPGRADED-ghi")];
    let r = ledger.store_nfts(&acct("stranger"), &bundle);
    assert_eq!(r.unwrap_err(), ExchangeError::NotOwner);
}

#[test]
fn store_by_non_owner_fails_with_empty_bundle() {
    let ledger = fresh_ledger(3);
    let r = ledger.store_nfts(&acct("stranger"), &vec![]);
    assert_eq!(r.unwrap_err(), ExchangeError::NotOwner);
}

#[test]
fn store_by_owner_with_foreign_asset_fails_validation() {
    let ledger = fresh_ledger(3);
    let bundle = vec![tid("UPGRADED-ghi"), tid("FIRST-abc")];
    let r = ledger.store_nfts(&acct("owner"), &bundle);
    assert_eq!(r.unwrap_err(), ExchangeError::ValidationError);
}

#[test]
fn store_by_owner_with_upgraded_assets_succeeds() {
    let ledger = fresh_ledger(3);
    let bundle = vec![tid("UPGRADED-ghi"), tid("UPGRADED-ghi"), tid("UPGRADED-ghi")];
    assert!(ledger.store_nfts(&acct("owner"), &bundle).is_ok());
}

#[test]
fn store_by_owner_with_empty_bundle_succeeds() {
    let ledger = fresh_ledger(3);
    assert!(ledger.store_nfts(&acct("owner"), &vec![]).is_ok());
}

#[test]
fn getters_return_initialized_configuration() {
    let ledger = fresh_ledger(7);
    assert!(ledger.get_nft_first_collection_identifier().same_as(&tid("FIRST-abc")));
    assert!(ledger.get_nft_second_collection_identifier().same_as(&tid("SECOND-def")));
    assert!(ledger.get_nft_upgraded_collection_identifier().same_as(&tid("UPGRADED-ghi")));
    assert_eq!(ledger.get_number_of_remaining_upgraded_nfts(), 7);
    assert_eq!(ledger.amount(), 5);
}

#[test]
fn token_identifiers_compare_by_bytes() {
    assert!(tid("FIRST-abc").same_as(&tid("FIRST-abc")));
    assert!(!tid("FIRST-abc").same_as(&tid("FIRST-abd")));
    assert!(!tid("FIRST-abc").same_as(&tid("FIRST-ab")));
    let copy = tid("UPGRADED-ghi").duplicate();
    assert!(copy.same_as(&tid("UPGRADED-ghi")));
    let owner = acct("owner");
    assert!(owner.duplicate().same_as(&owner));
    assert!(!owner.same_as(&acct("other")));
}
