use xcm_payments::account::{AccountId, Balance};
use xcm_payments::xcm_handler::{
    BalanceDeposited, ChainConfigured, CrossChainPaymentCreated, CrossChainPaymentExecuted,
    Error, XcmEvent, XcmHandler, XcmMessageType,
};

fn account(byte: u8) -> AccountId {
    let half = u128::from_be_bytes([byte; 16]);
    AccountId::new(half, half)
}

fn alice() -> AccountId {
    account(1)
}

fn bob() -> AccountId {
    account(2)
}

fn charlie() -> AccountId {
    account(3)
}

fn django() -> AccountId {
    account(4)
}

#[test]
fn lib_default_works() {
    let xcm_handler = XcmHandler::default(alice());
    assert_eq!(xcm_handler.get_payment_counter(), 0);
    assert!(xcm_handler.is_chain_supported(1000));
    assert!(xcm_handler.is_chain_supported(2000));
}

#[test]
fn deposit_works() {
    let mut xcm_handler = XcmHandler::new(alice());
    xcm_handler.deposit(alice(), 1000);
    assert_eq!(xcm_handler.get_balance(alice()), 1000);
}

#[test]
fn create_payment_works() {
    let mut xcm_handler = XcmHandler::new(alice());
    xcm_handler.deposit(alice(), 5000);
    let payment_id = xcm_handler
        .create_cross_chain_payment(alice(), 0, bob(), 1000, 2000, XcmMessageType::Payment)
        .unwrap();
    assert_eq!(payment_id, 0);
    let payment = xcm_handler.get_payment_info(payment_id).unwrap();
    assert_eq!(payment.0, alice());
    assert_eq!(payment.1, bob());
    assert_eq!(payment.2, 1000);
    assert_eq!(payment.4, 2000);
    assert!(!payment.5);
    assert_eq!(xcm_handler.get_balance(alice()), 4000);
}

#[test]
fn execute_payment_works() {
    let mut xcm_handler = XcmHandler::new(alice());
    xcm_handler.configure_chain(alice(), 2000, true, Some(charlie())).unwrap();
    xcm_handler.deposit(alice(), 5000);
    let payment_id = xcm_handler
        .create_cross_chain_payment(alice(), 0, bob(), 1000, 2000, XcmMessageType::Payment)
        .unwrap();
    xcm_handler.execute_cross_chain_payment(charlie(), payment_id).unwrap();
    let payment = xcm_handler.get_payment_info(payment_id).unwrap();
    assert!(payment.5);
    assert_eq!(xcm_handler.get_balance(bob()), 1000);
}

#[test]
fn invalid_chain_fails() {
    let mut xcm_handler = XcmHandler::new(alice());
    xcm_handler.deposit(alice(), 5000);
    let result = xcm_handler.create_cross_chain_payment(
        alice(),
        0,
        bob(),
        1000,
        9999,
        XcmMessageType::Payment,
    );
    assert_eq!(result, Err(Error::InvalidChain));
}

#[test]
fn insufficient_balance_fails() {
    let mut xcm_handler = XcmHandler::new(alice());
    let result = xcm_handler.create_cross_chain_payment(
        alice(),
        0,
        bob(),
        1000,
        2000,
        XcmMessageType::Payment,
    );
    assert_eq!(result, Err(Error::InsufficientBalance));
}

#[test]
fn kusama_supported_and_others_not() {
    let xcm_handler = XcmHandler::new(alice());
    assert!(xcm_handler.is_chain_supported(3000));
    assert!(!xcm_handler.is_chain_supported(4000));
    assert!(!xcm_handler.is_chain_supported(0));
    assert_eq!(xcm_handler.get_owner(), alice());
}

#[test]
fn zero_amount_checked_before_chain() {
    let mut xcm_handler = XcmHandler::new(alice());
    let result =
        xcm_handler.create_cross_chain_payment(alice(), 0, bob(), 0, 9999, XcmMessageType::Payment);
    assert_eq!(result, Err(Error::InvalidAmount));
}

#[test]
fn chain_checked_before_balance() {
    let mut xcm_handler = XcmHandler::new(alice());
    let result = xcm_handler.create_cross_chain_payment(
        alice(),
        0,
        bob(),
        1000,
        9999,
        XcmMessageType::Payment,
    );
    assert_eq!(result, Err(Error::InvalidChain));
}

#[test]
fn pending_count_follows_execution() {
    let mut xcm_handler = XcmHandler::new(alice());
    xcm_handler.deposit(alice(), 5000);
    xcm_handler.deposit(bob(), 5000);
    let first = xcm_handler
        .create_cross_chain_payment(alice(), 1, bob(), 100, 1000, XcmMessageType::Payment)
        .unwrap();
    let second = xcm_handler
        .create_cross_chain_payment(bob(), 2, charlie(), 200, 1000, XcmMessageType::TokenTransfer)
        .unwrap();
    assert_eq!((first, second), (0, 1));
    assert_eq!(xcm_handler.get_pending_payments_count(bob()), 2);
    xcm_handler.execute_cross_chain_payment(alice(), first).unwrap();
    assert_eq!(xcm_handler.get_pending_payments_count(bob()), 1);
    assert_eq!(xcm_handler.get_pending_payments_count(alice()), 0);
    assert_eq!(xcm_handler.get_pending_payments_count(charlie()), 1);
    assert_eq!(xcm_handler.get_pending_payments_count(django()), 0);
}

#[test]
fn relayer_configured_after_creation_settles() {
    let mut xcm_handler = XcmHandler::new(alice());
    xcm_handler.deposit(alice(), 5000);
    let id = xcm_handler
        .create_cross_chain_payment(alice(), 0, bob(), 1000, 2000, XcmMessageType::Payment)
        .unwrap();
    assert_eq!(id, 0);
    assert_eq!(xcm_handler.get_balance(alice()), 4000);
    xcm_handler.configure_chain(alice(), 2000, true, Some(charlie())).unwrap();
    assert_eq!(xcm_handler.execute_cross_chain_payment(charlie(), 0), Ok(()));
    assert_eq!(xcm_handler.get_balance(bob()), 1000);
    assert!(xcm_handler.get_payment_info(0).unwrap().5);
}

#[test]
fn unconfigured_chain_leaves_state_alone() {
    let mut xcm_handler = XcmHandler::new(alice());
    xcm_handler.deposit(alice(), 5000);
    let result = xcm_handler.create_cross_chain_payment(
        alice(),
        0,
        bob(),
        1000,
        9999,
        XcmMessageType::Payment,
    );
    assert_eq!(result, Err(Error::InvalidChain));
    assert_eq!(xcm_handler.get_balance(alice()), 5000);
    assert_eq!(xcm_handler.get_balance(bob()), 0);
    assert_eq!(xcm_handler.get_payment_counter(), 0);
}

#[test]
fn second_execute_is_refused() {
    let mut xcm_handler = XcmHandler::new(alice());
    xcm_handler.deposit(alice(), 5000);
    let id = xcm_handler
        .create_cross_chain_payment(alice(), 0, bob(), 1000, 2000, XcmMessageType::Refund)
        .unwrap();
    assert_eq!(xcm_handler.execute_cross_chain_payment(alice(), id), Ok(()));
    assert_eq!(
        xcm_handler.execute_cross_chain_payment(alice(), id),
        Err(Error::AlreadyExecuted)
    );
    assert_eq!(xcm_handler.get_balance(alice()), 4000);
    assert_eq!(xcm_handler.get_balance(bob()), 1000);
}

#[test]
fn stranger_cannot_execute() {
    let mut xcm_handler = XcmHandler::new(alice());
    xcm_handler.configure_chain(alice(), 2000, true, Some(charlie())).unwrap();
    xcm_handler.deposit(alice(), 5000);
    let id = xcm_handler
        .create_cross_chain_payment(alice(), 0, bob(), 1000, 2000, XcmMessageType::Payment)
        .unwrap();
    assert_eq!(
        xcm_handler.execute_cross_chain_payment(django(), id),
        Err(Error::UnauthorizedAccess)
    );
    assert_eq!(
        xcm_handler.execute_cross_chain_payment(bob(), id),
        Err(Error::UnauthorizedAccess)
    );
    assert!(!xcm_handler.get_payment_info(id).unwrap().5);
    assert_eq!(xcm_handler.get_balance(bob()), 0);
    assert_eq!(xcm_handler.get_pending_payments_count(bob()), 1);
}

#[test]
fn relayer_of_other_chain_cannot_execute() {
    let mut xcm_handler = XcmHandler::new(alice());
    xcm_handler.configure_chain(alice(), 3000, true, Some(charlie())).unwrap();
    xcm_handler.deposit(alice(), 5000);
    let id = xcm_handler
        .create_cross_chain_payment(alice(), 0, bob(), 1000, 2000, XcmMessageType::Payment)
        .unwrap();
    assert_eq!(
        xcm_handler.execute_cross_chain_payment(charlie(), id),
        Err(Error::UnauthorizedAccess)
    );
}

#[test]
fn unknown_payment_not_found() {
    let mut xcm_handler = XcmHandler::new(alice());
    assert_eq!(
        xcm_handler.execute_cross_chain_payment(alice(), 7),
        Err(Error::PaymentNotFound)
    );
}

#[test]
fn missing_payment_stays_missing() {
    let mut xcm_handler = XcmHandler::new(alice());
    assert_eq!(xcm_handler.get_payment_info(5), None);
    xcm_handler.deposit(alice(), 5000);
    let id = xcm_handler
        .create_cross_chain_payment(alice(), 0, bob(), 1000, 2000, XcmMessageType::Payment)
        .unwrap();
    xcm_handler.execute_cross_chain_payment(alice(), id).unwrap();
    xcm_handler.configure_chain(alice(), 9, true, None).unwrap();
    assert_eq!(xcm_handler.get_payment_info(5), None);
}

#[test]
fn only_owner_configures() {
    let mut xcm_handler = XcmHandler::new(alice());
    assert_eq!(
        xcm_handler.configure_chain(bob(), 9999, true, Some(bob())),
        Err(Error::UnauthorizedAccess)
    );
    assert!(!xcm_handler.is_chain_supported(9999));
    assert_eq!(xcm_handler.configure_chain(alice(), 2000, false, None), Ok(()));
    assert!(!xcm_handler.is_chain_supported(2000));
}

#[test]
fn omitted_relayer_keeps_binding() {
    let mut xcm_handler = XcmHandler::new(alice());
    xcm_handler.configure_chain(alice(), 2000, true, Some(charlie())).unwrap();
    xcm_handler.configure_chain(alice(), 2000, true, None).unwrap();
    xcm_handler.deposit(bob(), 10);
    let id = xcm_handler
        .create_cross_chain_payment(bob(), 0, alice(), 10, 2000, XcmMessageType::BillSplitting)
        .unwrap();
    assert_eq!(xcm_handler.execute_cross_chain_payment(charlie(), id), Ok(()));
}

#[test]
fn record_keeps_what_was_given() {
    let mut xcm_handler = XcmHandler::new(alice());
    xcm_handler.deposit(bob(), 300);
    let id = xcm_handler
        .create_cross_chain_payment(bob(), 42, charlie(), 300, 3000, XcmMessageType::TokenTransfer)
        .unwrap();
    assert_eq!(
        xcm_handler.get_payment_info(id),
        Some((bob(), charlie(), 300, 1000, 3000, false))
    );
    assert_eq!(xcm_handler.get_balance(bob()), 0);
}

#[test]
fn deposit_of_zero_does_nothing() {
    let mut xcm_handler = XcmHandler::new(alice());
    xcm_handler.deposit(alice(), 0);
    assert_eq!(xcm_handler.get_balance(alice()), 0);
    assert!(xcm_handler.take_events().is_empty());
}

#[test]
fn deposit_saturates() {
    let mut xcm_handler = XcmHandler::new(alice());
    xcm_handler.deposit(alice(), Balance::MAX - 1);
    xcm_handler.deposit(alice(), 5);
    assert_eq!(xcm_handler.get_balance(alice()), Balance::MAX);
}

#[test]
fn settlement_credit_saturates() {
    let mut xcm_handler = XcmHandler::new(alice());
    xcm_handler.deposit(bob(), Balance::MAX);
    xcm_handler.deposit(alice(), 10);
    let id = xcm_handler
        .create_cross_chain_payment(alice(), 0, bob(), 10, 1000, XcmMessageType::Payment)
        .unwrap();
    xcm_handler.execute_cross_chain_payment(alice(), id).unwrap();
    assert_eq!(xcm_handler.get_balance(bob()), Balance::MAX);
    assert_eq!(xcm_handler.get_balance(alice()), 0);
}

#[test]
fn whole_balance_can_be_locked() {
    let mut xcm_handler = XcmHandler::new(alice());
    xcm_handler.deposit(alice(), 1000);
    assert_eq!(
        xcm_handler.create_cross_chain_payment(alice(), 0, bob(), 1001, 1000, XcmMessageType::Payment),
        Err(Error::InsufficientBalance)
    );
    assert_eq!(
        xcm_handler.create_cross_chain_payment(alice(), 0, bob(), 1000, 1000, XcmMessageType::Payment),
        Ok(0)
    );
    assert_eq!(xcm_handler.get_balance(alice()), 0);
}

#[test]
fn funds_are_conserved_in_flight() {
    let mut xcm_handler = XcmHandler::new(alice());
    xcm_handler.deposit(alice(), 5000);
    xcm_handler.deposit(bob(), 700);
    let first = xcm_handler
        .create_cross_chain_payment(alice(), 0, bob(), 1200, 1000, XcmMessageType::Payment)
        .unwrap();
    let second = xcm_handler
        .create_cross_chain_payment(bob(), 0, charlie(), 300, 2000, XcmMessageType::Payment)
        .unwrap();
    xcm_handler.execute_cross_chain_payment(alice(), first).unwrap();
    let balances: Balance = [alice(), bob(), charlie()]
        .iter()
        .map(|a| xcm_handler.get_balance(*a))
        .sum();
    let locked: Balance = [first, second]
        .iter()
        .map(|id| xcm_handler.get_payment_info(*id).unwrap())
        .filter(|info| !info.5)
        .map(|info| info.2)
        .sum();
    assert_eq!(balances, 3800 + 1600);
    assert_eq!(locked, 300);
    assert_eq!(balances + locked, 5700);
}

#[test]
fn events_record_each_signal() {
    let mut xcm_handler = XcmHandler::new(alice());
    xcm_handler.configure_chain(alice(), 2000, true, Some(charlie())).unwrap();
    xcm_handler.deposit(alice(), 5000);
    let id = xcm_handler
        .create_cross_chain_payment(alice(), 9, bob(), 1000, 2000, XcmMessageType::Payment)
        .unwrap();
    xcm_handler.execute_cross_chain_payment(charlie(), id).unwrap();
    let events = xcm_handler.take_events();
    assert_eq!(
        events,
        vec![
            XcmEvent::ChainConfigured(ChainConfigured {
                chain_id: 2000,
                supported: true,
                relayer: Some(charlie()),
            }),
            XcmEvent::BalanceDeposited(BalanceDeposited { account: alice(), amount: 5000 }),
            XcmEvent::PaymentCreated(CrossChainPaymentCreated {
                payment_id: 0,
                sender: alice(),
                recipient: bob(),
                amount: 1000,
                destination_chain: 2000,
            }),
            XcmEvent::PaymentExecuted(CrossChainPaymentExecuted {
                payment_id: 0,
                sender: alice(),
                recipient: bob(),
                amount: 1000,
                executor: charlie(),
            }),
        ]
    );
    assert!(xcm_handler.take_events().is_empty());
}

#[test]
fn refused_calls_emit_nothing() {
    let mut xcm_handler = XcmHandler::new(alice());
    let _ = xcm_handler.create_cross_chain_payment(alice(), 0, bob(), 5, 2000, XcmMessageType::Payment);
    let _ = xcm_handler.execute_cross_chain_payment(alice(), 0);
    let _ = xcm_handler.configure_chain(bob(), 1, true, None);
    assert!(xcm_handler.take_events().is_empty());
}
