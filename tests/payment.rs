use xcm_payments::account::AccountId;
use xcm_payments::payment::{
    CrossChainPaymentInitiated, Error, Payment, PaymentEvent, PaymentSent,
};

fn account(byte: u8) -> AccountId {
    let half = u128::from_be_bytes([byte; 16]);
    AccountId::new(half, half)
}

fn alice() -> AccountId {
    account(1)
}

fn bob() -> AccountId {
    account(2)
}

#[test]
fn payment_default_works() {
    let payment = Payment::default(alice());
    assert_eq!(payment.balance_of(alice()), 1_000_000_000_000);
    assert_eq!(payment.get_total_supply(), 1_000_000_000_000);
    assert_eq!(payment.get_owner(), alice());
    assert_eq!(payment.get_request_counter(), 0);
}

#[test]
fn send_payment_works() {
    let mut payment = Payment::new(alice(), 1000);
    let tx_id = payment.send_payment(alice(), bob(), 100).unwrap();
    assert_eq!(tx_id, 0);
    assert_eq!(payment.balance_of(alice()), 900);
    assert_eq!(payment.balance_of(bob()), 100);
}

#[test]
fn cross_chain_payment_works() {
    let mut payment = Payment::new(alice(), 1000);
    let tx_id = payment.initiate_cross_chain_payment(alice(), bob(), 300, 2000).unwrap();
    assert_eq!(tx_id, 0);
    assert_eq!(payment.balance_of(alice()), 700);
}

#[test]
fn insufficient_balance_error() {
    let mut payment = Payment::new(alice(), 100);
    let result = payment.send_payment(alice(), bob(), 200);
    assert_eq!(result, Err(Error::InsufficientBalance));
}

#[test]
fn self_payment_error() {
    let mut payment = Payment::new(alice(), 1000);
    let result = payment.send_payment(alice(), alice(), 100);
    assert_eq!(result, Err(Error::SelfPayment));
}

#[test]
fn self_payment_checked_before_amount() {
    let mut payment = Payment::new(alice(), 1000);
    assert_eq!(payment.send_payment(alice(), alice(), 0), Err(Error::SelfPayment));
    assert_eq!(payment.send_payment(alice(), bob(), 0), Err(Error::InvalidAmount));
    assert_eq!(
        payment.initiate_cross_chain_payment(alice(), bob(), 0, 2000),
        Err(Error::InvalidAmount)
    );
    assert_eq!(payment.balance_of(alice()), 1000);
    assert_eq!(payment.get_transaction_counter(), 0);
}

#[test]
fn transaction_ids_count_up() {
    let mut payment = Payment::new(alice(), 1000);
    assert_eq!(payment.send_payment(alice(), bob(), 100), Ok(0));
    assert_eq!(payment.initiate_cross_chain_payment(bob(), alice(), 40, 3000), Ok(1));
    assert_eq!(payment.send_payment(bob(), alice(), 60), Ok(2));
    assert_eq!(payment.get_transaction_counter(), 3);
    assert_eq!(payment.balance_of(alice()), 960);
    assert_eq!(payment.balance_of(bob()), 0);
    let events = payment.take_events();
    assert_eq!(events.len(), 3);
    assert_eq!(
        events[0],
        PaymentEvent::Sent(PaymentSent { from: alice(), to: bob(), amount: 100, transaction_id: 0 })
    );
    assert_eq!(
        events[1],
        PaymentEvent::CrossChainInitiated(CrossChainPaymentInitiated {
            transaction_id: 1,
            from: bob(),
            to: alice(),
            amount: 40,
            destination_chain: 3000,
        })
    );
}
