use share_ledger::{Contract, LedgerError, PaymentRequest, YOCTO_MULTIPLIER};
use share_ledger::rules::Trade;

fn alice() -> String {
    "alice_near".to_string()
}

fn bob() -> String {
    "bob_near".to_string()
}

fn carol() -> String {
    "carol_near".to_string()
}

fn company() -> Contract {
    Contract::new("MYCOMPANY".to_string(), 1_000_000_000, 2, "".to_string())
}

fn governed() -> Contract {
    Contract::new("MYCOMPANY".to_string(), 1_000, 3, carol())
}

#[test]
#[should_panic(expected = "ERR_INVALID_BUY_QUANTITY")]
fn buy_shares_more_than_outstanding() {
    let mut contract = company();
    let buy_quantity = contract.get_shares_outstanding() + 1;

    if let Err(error) = contract.buy_shares(&alice(), buy_quantity, 0) {
        panic!("{}", error.identifier());
    }
}

#[test]
fn buy_shares_successfully() {
    let attached_deposit = 2 * YOCTO_MULTIPLIER * 420;
    let mut contract = company();

    // haven't bought anything yet
    assert_eq!(contract.get_shares_owned(&alice()), 0);

    contract.buy_shares(&alice(), 20, attached_deposit).unwrap();
    contract.buy_shares(&alice(), 400, attached_deposit).unwrap();
    assert_eq!(contract.get_shares_owned(&alice()), 420);

    let expected_shares_outstanding = contract.get_total_shares() - 420;
    assert_eq!(contract.get_shares_outstanding(), expected_shares_outstanding);
}

#[test]
#[should_panic(expected = "ERR_INVALID_SELL_QUANTITY")]
fn sell_shares_more_than_owned() {
    let attached_deposit = 2 * YOCTO_MULTIPLIER * 290;
    let mut contract = company();

    contract.buy_shares(&alice(), 290, attached_deposit).unwrap();
    if let Err(error) = contract.sell_shares(&alice(), 291) {
        panic!("{}", error.identifier());
    }
}

#[test]
fn sell_shares_successfully() {
    let attached_deposit = 2 * YOCTO_MULTIPLIER * 286;
    let mut contract = company();

    contract.buy_shares(&alice(), 20, attached_deposit).unwrap();
    contract.buy_shares(&alice(), 81, attached_deposit).unwrap();
    contract.buy_shares(&alice(), 185, attached_deposit).unwrap();
    contract.sell_shares(&alice(), 52).unwrap();
    assert_eq!(contract.get_shares_owned(&alice()), 234);

    let expected_shares_outstanding = contract.get_total_shares() - 234;
    assert_eq!(contract.get_shares_outstanding(), expected_shares_outstanding);
}

#[test]
fn new_ledger_has_every_share_outstanding() {
    let contract = company();
    assert_eq!(contract.get_ticker(), "MYCOMPANY");
    assert_eq!(contract.get_total_shares(), 1_000_000_000);
    assert_eq!(contract.get_shares_outstanding(), 1_000_000_000);
    assert_eq!(contract.get_price_per_share(), 2);
    assert_eq!(contract.get_shares_owned(&alice()), 0);
    assert_eq!(contract.get_shares_owned(&"".to_string()), 0);
}

#[test]
fn buying_at_the_exact_price_each_time() {
    let mut contract = company();

    let first = contract.buy_shares(&alice(), 20, 40 * YOCTO_MULTIPLIER);
    assert_eq!(
        first,
        Ok(Trade {
            shares_owned: 20,
            shares_outstanding: 999_999_980,
            payment: 40_000_000_000_000_000_000_000_000,
        })
    );
    contract.buy_shares(&alice(), 81, 162 * YOCTO_MULTIPLIER).unwrap();
    contract.buy_shares(&alice(), 185, 370 * YOCTO_MULTIPLIER).unwrap();
    assert_eq!(contract.get_shares_owned(&alice()), 286);

    let request = contract.sell_shares(&alice(), 52).unwrap();
    assert_eq!(
        request,
        PaymentRequest { recipient: alice(), amount: 104_000_000_000_000_000_000_000_000 }
    );
    assert_eq!(contract.get_shares_owned(&alice()), 234);
    assert_eq!(contract.get_shares_outstanding(), 1_000_000_000 - 234);
    assert_eq!(contract.get_total_shares(), 1_000_000_000);
}

#[test]
fn holdings_add_up_to_the_shares_not_outstanding() {
    let mut contract = governed();
    let plenty = 10_000 * YOCTO_MULTIPLIER;

    contract.buy_shares(&alice(), 100, plenty).unwrap();
    contract.buy_shares(&bob(), 250, plenty).unwrap();
    contract.sell_shares(&alice(), 40).unwrap();
    contract.issue_new_shares(&carol(), 500).unwrap();
    contract.buy_shares(&carol(), 7, plenty).unwrap();
    contract.buy_back_shares(&carol(), 300).unwrap();
    assert!(contract.sell_shares(&bob(), 251).is_err());
    assert!(contract.buy_shares(&bob(), 0, plenty).is_err());

    let held = contract.get_shares_owned(&alice())
        + contract.get_shares_owned(&bob())
        + contract.get_shares_owned(&carol());
    assert_eq!(held, 60 + 250 + 7);
    assert_eq!(contract.get_total_shares(), 1_200);
    assert_eq!(contract.get_shares_outstanding(), 1_200 - 317);
    assert_eq!(contract.get_total_shares() - contract.get_shares_outstanding(), held);
    assert!(contract.get_shares_outstanding() <= contract.get_total_shares());
}

#[test]
fn buying_and_selling_back_restores_the_ledger() {
    let mut contract = governed();
    contract.buy_shares(&alice(), 5, 15 * YOCTO_MULTIPLIER).unwrap();
    contract.buy_shares(&bob(), 11, 33 * YOCTO_MULTIPLIER).unwrap();

    let outstanding = contract.get_shares_outstanding();
    let owned = contract.get_shares_owned(&alice());
    let trade = contract.buy_shares(&alice(), 984, 2_952 * YOCTO_MULTIPLIER).unwrap();
    assert_eq!(trade.shares_outstanding, 0);
    assert_eq!(trade.payment, 2_952 * YOCTO_MULTIPLIER);
    let request = contract.sell_shares(&alice(), 984).unwrap();

    assert_eq!(request.amount, trade.payment);
    assert_eq!(contract.get_shares_outstanding(), outstanding);
    assert_eq!(contract.get_shares_owned(&alice()), owned);
    assert_eq!(contract.get_shares_owned(&bob()), 11);
    assert_eq!(contract.get_total_shares(), 1_000);
}

#[test]
fn selling_everything_keeps_a_holding_of_zero() {
    let mut contract = governed();
    assert_eq!(contract.sell_shares(&alice(), 1), Err(LedgerError::InvalidSellQuantity));
    contract.buy_shares(&alice(), 3, 9 * YOCTO_MULTIPLIER).unwrap();
    contract.sell_shares(&alice(), 3).unwrap();
    assert_eq!(contract.get_shares_owned(&alice()), 0);
    assert_eq!(contract.sell_shares(&alice(), 1), Err(LedgerError::InvalidSellQuantity));
    assert_eq!(contract.get_shares_outstanding(), 1_000);
}

#[test]
fn buy_of_nothing_is_refused() {
    let mut contract = company();
    assert_eq!(
        contract.buy_shares(&alice(), 0, 2 * YOCTO_MULTIPLIER),
        Err(LedgerError::InvalidBuyQuantity)
    );
    assert_eq!(contract.get_shares_outstanding(), 1_000_000_000);
    assert_eq!(contract.get_shares_owned(&alice()), 0);
}

#[test]
fn buy_of_one_share_too_many_is_refused() {
    let mut contract = governed();
    contract.buy_shares(&bob(), 400, 1_200 * YOCTO_MULTIPLIER).unwrap();
    assert_eq!(
        contract.buy_shares(&alice(), 601, u128::MAX),
        Err(LedgerError::InvalidBuyQuantity)
    );
    assert_eq!(contract.get_shares_outstanding(), 600);
    assert!(contract.buy_shares(&alice(), 600, 1_800 * YOCTO_MULTIPLIER).is_ok());
    assert_eq!(contract.get_shares_outstanding(), 0);
    assert_eq!(
        contract.buy_shares(&alice(), 1, u128::MAX),
        Err(LedgerError::InvalidBuyQuantity)
    );
}

#[test]
fn underpaid_buy_is_refused_and_changes_nothing() {
    let mut contract = company();
    assert_eq!(
        contract.buy_shares(&alice(), 20, 40 * YOCTO_MULTIPLIER - 1),
        Err(LedgerError::InsufficientDeposit)
    );
    assert_eq!(contract.buy_shares(&alice(), 1, 0), Err(LedgerError::InsufficientDeposit));
    assert_eq!(contract.get_shares_outstanding(), 1_000_000_000);
    assert_eq!(contract.get_shares_owned(&alice()), 0);
    assert_eq!(contract.get_total_shares(), 1_000_000_000);
}

#[test]
fn overpaid_buy_is_accepted_at_the_price() {
    let mut contract = company();
    let trade = contract.buy_shares(&alice(), 20, u128::MAX).unwrap();
    assert_eq!(trade.payment, 40 * YOCTO_MULTIPLIER);
    assert_eq!(trade.shares_owned, 20);
}

#[test]
fn buy_whose_price_exceeds_any_payment_is_underpaid() {
    let mut contract =
        Contract::new("DEAR".to_string(), u32::MAX, u32::MAX, "".to_string());
    assert_eq!(
        contract.buy_shares(&alice(), 79_229, u128::MAX),
        Err(LedgerError::InsufficientDeposit)
    );
    assert!(contract.buy_shares(&alice(), 79_228, u128::MAX).is_ok());
}

#[test]
fn sale_whose_proceeds_exceed_any_payment_is_refused() {
    let mut contract =
        Contract::new("DEAR".to_string(), u32::MAX, u32::MAX, "".to_string());
    contract.buy_shares(&alice(), 79_228, u128::MAX).unwrap();
    contract.buy_shares(&alice(), 1, u128::MAX).unwrap();
    assert_eq!(contract.sell_shares(&alice(), 79_229), Err(LedgerError::ProceedsOverflow));
    assert_eq!(contract.get_shares_owned(&alice()), 79_229);
    assert_eq!(contract.get_shares_outstanding(), u32::MAX - 79_229);
    let request = contract.sell_shares(&alice(), 79_228).unwrap();
    assert_eq!(request.amount, 79_228 * 4_294_967_295 * YOCTO_MULTIPLIER);
    assert_eq!(contract.get_shares_owned(&alice()), 1);
}

#[test]
fn reads_leave_the_ledger_as_it_was() {
    let mut contract = governed();
    contract.buy_shares(&alice(), 12, 36 * YOCTO_MULTIPLIER).unwrap();

    for _ in 0..3 {
        assert_eq!(contract.get_price_per_share(), 3);
        assert_eq!(contract.get_shares_owned(&alice()), 12);
        assert_eq!(contract.get_shares_owned(&bob()), 0);
        assert_eq!(contract.get_total_shares(), 1_000);
        assert_eq!(contract.get_shares_outstanding(), 988);
    }
    assert_eq!(contract.get_shares_outstanding(), 988);
    assert_eq!(contract.get_total_shares(), 1_000);
    assert_eq!(contract.get_shares_owned(&bob()), 0);
    assert_eq!(contract.get_shares_owned(&alice()), 12);
    assert_eq!(contract.get_price_per_share(), 3);

    // an account that was only asked about can still not sell
    assert_eq!(contract.sell_shares(&bob(), 1), Err(LedgerError::InvalidSellQuantity));
    assert_eq!(contract.sell_shares(&alice(), 12).unwrap().amount, 36 * YOCTO_MULTIPLIER);
}

#[test]
fn supply_changes_are_for_the_privileged_caller_only() {
    let mut contract = governed();
    assert_eq!(contract.issue_new_shares(&alice(), 10), Err(LedgerError::Unauthorized));
    assert_eq!(contract.buy_back_shares(&alice(), 10), Err(LedgerError::Unauthorized));
    assert_eq!(contract.issue_new_shares(&"".to_string(), 10), Err(LedgerError::Unauthorized));
    assert_eq!(
        contract.buy_back_shares(&"carol_nea".to_string(), 10),
        Err(LedgerError::Unauthorized)
    );
    assert_eq!(contract.get_total_shares(), 1_000);
    assert_eq!(contract.get_shares_outstanding(), 1_000);

    assert_eq!(contract.issue_new_shares(&carol(), 10), Ok(()));
    assert_eq!(contract.get_total_shares(), 1_010);
    assert_eq!(contract.get_shares_outstanding(), 1_010);
    assert_eq!(contract.buy_back_shares(&carol(), 110), Ok(()));
    assert_eq!(contract.get_total_shares(), 900);
    assert_eq!(contract.get_shares_outstanding(), 900);
    assert_eq!(contract.get_price_per_share(), 3);
}

#[test]
fn verify_caller_admits_the_exact_identity() {
    let contract = governed();
    assert_eq!(contract.verify_caller(&carol()), Ok(()));
    assert_eq!(contract.verify_caller(&alice()), Err(LedgerError::Unauthorized));
    assert_eq!(
        contract.verify_caller(&"carol_near ".to_string()),
        Err(LedgerError::Unauthorized)
    );
    assert_eq!(contract.verify_caller(&"Carol_near".to_string()), Err(LedgerError::Unauthorized));
}

#[test]
fn buy_back_of_more_than_outstanding_is_refused() {
    let mut contract = governed();
    contract.buy_shares(&alice(), 200, 600 * YOCTO_MULTIPLIER).unwrap();
    assert_eq!(
        contract.buy_back_shares(&carol(), 801),
        Err(LedgerError::BuyBackExceedsOutstanding)
    );
    assert_eq!(contract.get_total_shares(), 1_000);
    assert_eq!(contract.get_shares_outstanding(), 800);
    assert_eq!(contract.buy_back_shares(&carol(), 800), Ok(()));
    assert_eq!(contract.get_total_shares(), 200);
    assert_eq!(contract.get_shares_outstanding(), 0);
    assert_eq!(contract.get_shares_owned(&alice()), 200);
}

#[test]
fn issue_past_the_counter_is_refused() {
    let mut contract = Contract::new("FULL".to_string(), u32::MAX - 1, 1, carol());
    assert_eq!(contract.issue_new_shares(&carol(), 2), Err(LedgerError::SupplyOverflow));
    assert_eq!(contract.get_total_shares(), u32::MAX - 1);
    assert_eq!(contract.get_shares_outstanding(), u32::MAX - 1);
    assert_eq!(contract.issue_new_shares(&carol(), 1), Ok(()));
    assert_eq!(contract.get_total_shares(), u32::MAX);
    assert_eq!(contract.issue_new_shares(&carol(), 1), Err(LedgerError::SupplyOverflow));
    assert_eq!(contract.issue_new_shares(&carol(), 0), Ok(()));
}

#[test]
fn issued_shares_do_not_change_the_price() {
    let mut contract = governed();
    contract.issue_new_shares(&carol(), 1_000).unwrap();
    assert_eq!(contract.get_price_per_share(), 3);
    let trade = contract.buy_shares(&alice(), 2_000, 6_000 * YOCTO_MULTIPLIER).unwrap();
    assert_eq!(trade.payment, 6_000 * YOCTO_MULTIPLIER);
    assert_eq!(contract.get_ticker(), "MYCOMPANY");
}
