use invoice::constants::{TTL_EXTEND_TO, TTL_THRESHOLD};
use invoice::events::{approve_payment as approved_event, invoice_created, InvoiceEvent};
use invoice::invoice::{create_invoice, next_invoice_id, ContractError, Invoice, InvoiceStatus};
use invoice::lifecycle::{
    approve_payment, cancel_invoice, fund_invoice, mark_delivered, release_payment, required_signer,
    Action, Effects, Transfer,
};
use invoice::party::{AccountId, AddressKind};

fn account(n: u128) -> AccountId {
    AccountId { kind: AddressKind::Account, key_hi: n, key_lo: n * 7 + 1 }
}

fn token() -> AccountId {
    AccountId { kind: AddressKind::Contract, key_hi: 99, key_lo: 12345 }
}

fn new_invoice(amount: i128, description: &str) -> Invoice {
    let (id, _) = next_invoice_id(0);
    let (inv, _) = create_invoice(
        id,
        account(1),
        account(2),
        amount,
        token(),
        9999999999,
        1000,
        description.to_string(),
    );
    inv
}

#[test]
fn first_invoice_gets_id_zero_and_stores_its_fields() {
    let (id, next) = next_invoice_id(0);
    assert_eq!(id, 0);
    assert_eq!(next, 1);
    let (inv, event) = create_invoice(
        id,
        account(1),
        account(2),
        1000,
        token(),
        9999999999,
        1000,
        "Website redesign - Phase 1".to_string(),
    );
    assert_eq!(inv.id, 0);
    assert_eq!(inv.freelancer, account(1));
    assert_eq!(inv.client, account(2));
    assert_eq!(inv.amount, 1000);
    assert_eq!(inv.token, token());
    assert_eq!(inv.deadline, 9999999999);
    assert_eq!(inv.created_at, 1000);
    assert_eq!(inv.description, "Website redesign - Phase 1");
    assert_eq!(inv.status, InvoiceStatus::Pending);
    assert_eq!(
        event,
        InvoiceEvent::Created { invoice_id: 0, freelancer: account(1), client: account(2), amount: 1000 }
    );
}

#[test]
fn ids_follow_the_counter() {
    let (a, c1) = next_invoice_id(0);
    let (b, c2) = next_invoice_id(c1);
    let (c, c3) = next_invoice_id(c2);
    assert_eq!((a, b, c, c3), (0, 1, 2, 3));
}

#[test]
fn freelancer_cancels_pending_invoice() {
    let mut inv = new_invoice(500, "Logo design");
    let fx = cancel_invoice(&mut inv, account(1)).unwrap();
    assert_eq!(inv.status, InvoiceStatus::Cancelled);
    assert_eq!(fx, Effects { event: InvoiceEvent::Cancelled { invoice_id: 0, caller: account(1) }, transfer: None });
}

#[test]
fn client_cancels_pending_invoice() {
    let mut inv = new_invoice(200, "SEO audit");
    assert!(cancel_invoice(&mut inv, account(2)).is_ok());
    assert_eq!(inv.status, InvoiceStatus::Cancelled);
}

#[test]
fn stranger_cannot_cancel() {
    let mut inv = new_invoice(750, "Branding package");
    let before = inv.clone();
    assert_eq!(cancel_invoice(&mut inv, account(3)), Err(ContractError::UnauthorizedCaller));
    assert_eq!(inv, before);
}

#[test]
fn cancelling_twice_is_refused_with_code_two() {
    let mut inv = new_invoice(3000, "App development");
    cancel_invoice(&mut inv, account(1)).unwrap();
    let err = cancel_invoice(&mut inv, account(1)).unwrap_err();
    assert_eq!(err, ContractError::InvalidInvoiceStatus);
    assert_eq!(err.code(), 2);
}

#[test]
fn status_is_checked_before_the_caller() {
    let mut inv = new_invoice(3000, "App development");
    fund_invoice(&mut inv).unwrap();
    assert_eq!(cancel_invoice(&mut inv, account(3)), Err(ContractError::InvalidInvoiceStatus));
}

#[test]
fn funded_invoice_cannot_be_cancelled() {
    let mut inv = new_invoice(1500, "Development services");
    fund_invoice(&mut inv).unwrap();
    assert_eq!(cancel_invoice(&mut inv, account(1)), Err(ContractError::InvalidInvoiceStatus));
    assert_eq!(inv.status, InvoiceStatus::Funded);
}

#[test]
fn funding_moves_the_amount_into_escrow() {
    let mut inv = new_invoice(5000, "Smart contract audit");
    let fx = fund_invoice(&mut inv).unwrap();
    assert_eq!(inv.status, InvoiceStatus::Funded);
    assert_eq!(fx.event, InvoiceEvent::Funded { invoice_id: 0, client: account(2) });
    assert_eq!(fx.transfer, Some(Transfer::IntoEscrow { token: token(), from: account(2), amount: 5000 }));
}

#[test]
fn funding_twice_is_refused() {
    let mut inv = new_invoice(5000, "Smart contract audit");
    fund_invoice(&mut inv).unwrap();
    assert_eq!(fund_invoice(&mut inv), Err(ContractError::InvalidInvoiceStatus));
    assert_eq!(inv.status, InvoiceStatus::Funded);
}

#[test]
fn funded_invoice_is_marked_delivered() {
    let mut inv = new_invoice(2000, "Mark delivered test");
    fund_invoice(&mut inv).unwrap();
    let fx = mark_delivered(&mut inv).unwrap();
    assert_eq!(inv.status, InvoiceStatus::Delivered);
    assert_eq!(fx, Effects { event: InvoiceEvent::Delivered { invoice_id: 0, freelancer: account(1) }, transfer: None });
}

#[test]
fn unfunded_invoice_cannot_be_marked_delivered() {
    let mut inv = new_invoice(1000, "Wrong status test");
    assert_eq!(mark_delivered(&mut inv), Err(ContractError::InvalidInvoiceStatus));
    assert_eq!(inv.status, InvoiceStatus::Pending);
}

#[test]
fn cancelled_invoice_cannot_be_marked_delivered() {
    let mut inv = new_invoice(1000, "Cancelled status test");
    cancel_invoice(&mut inv, account(1)).unwrap();
    assert_eq!(mark_delivered(&mut inv), Err(ContractError::InvalidInvoiceStatus));
    assert_eq!(inv.status, InvoiceStatus::Cancelled);
}

#[test]
fn delivered_invoice_is_approved() {
    let mut inv = new_invoice(3000, "Approve payment test");
    fund_invoice(&mut inv).unwrap();
    mark_delivered(&mut inv).unwrap();
    let fx = approve_payment(&mut inv).unwrap();
    assert_eq!(inv.status, InvoiceStatus::Approved);
    assert_eq!(fx, Effects { event: approved_event(0, &account(2)), transfer: None });
}

#[test]
fn undelivered_invoice_cannot_be_approved() {
    let mut inv = new_invoice(1000, "Wrong status test");
    assert_eq!(approve_payment(&mut inv), Err(ContractError::InvalidInvoiceStatus));
    fund_invoice(&mut inv).unwrap();
    assert_eq!(approve_payment(&mut inv), Err(ContractError::InvalidInvoiceStatus));
    assert_eq!(inv.status, InvoiceStatus::Funded);
}

#[test]
fn approved_invoice_is_released_to_the_freelancer() {
    let mut inv = new_invoice(3000, "Release test");
    fund_invoice(&mut inv).unwrap();
    mark_delivered(&mut inv).unwrap();
    approve_payment(&mut inv).unwrap();
    let fx = release_payment(&mut inv);
    assert_eq!(inv.status, InvoiceStatus::Completed);
    assert_eq!(fx.event, InvoiceEvent::Released { invoice_id: 0, amount: 3000 });
    assert_eq!(fx.transfer, Some(Transfer::OutOfEscrow { token: token(), to: account(1), amount: 3000 }));
}

#[test]
fn completed_invoice_refuses_every_action() {
    let mut inv = new_invoice(3000, "Closed");
    fund_invoice(&mut inv).unwrap();
    mark_delivered(&mut inv).unwrap();
    approve_payment(&mut inv).unwrap();
    release_payment(&mut inv);
    let before = inv.clone();
    assert_eq!(fund_invoice(&mut inv), Err(ContractError::InvalidInvoiceStatus));
    assert_eq!(mark_delivered(&mut inv), Err(ContractError::InvalidInvoiceStatus));
    assert_eq!(approve_payment(&mut inv), Err(ContractError::InvalidInvoiceStatus));
    assert_eq!(cancel_invoice(&mut inv, account(2)), Err(ContractError::InvalidInvoiceStatus));
    assert_eq!(inv, before);
}

#[test]
fn escrow_balances_over_a_full_lifecycle() {
    let mut inv = new_invoice(4200, "Full run");
    let mut held: i128 = 0;
    let mut deposits = 0;
    let mut payouts = 0;
    let mut account_for = |fx: &Effects| match fx.transfer {
        Some(Transfer::IntoEscrow { amount, .. }) => {
            held += amount;
            deposits += 1;
        }
        Some(Transfer::OutOfEscrow { amount, .. }) => {
            held -= amount;
            payouts += 1;
        }
        None => {}
    };
    account_for(&fund_invoice(&mut inv).unwrap());
    assert!(fund_invoice(&mut inv).is_err());
    account_for(&mark_delivered(&mut inv).unwrap());
    account_for(&approve_payment(&mut inv).unwrap());
    account_for(&release_payment(&mut inv));
    assert_eq!(held, 0);
    assert_eq!(deposits, 1);
    assert_eq!(payouts, 1);
    assert_eq!(inv.description, "Full run");
    assert_eq!(inv.amount, 4200);
}

#[test]
fn signers_are_the_parties_and_payout_needs_none() {
    let inv = new_invoice(10, "Signers");
    assert_eq!(required_signer(&inv, &Action::Fund), Some(account(2)));
    assert_eq!(required_signer(&inv, &Action::MarkDelivered), Some(account(1)));
    assert_eq!(required_signer(&inv, &Action::Approve), Some(account(2)));
    assert_eq!(required_signer(&inv, &Action::Cancel { caller: account(5) }), Some(account(5)));
    assert_eq!(required_signer(&inv, &Action::Release), None);
}

#[test]
fn events_carry_their_topics() {
    let created = invoice_created(7, &account(1), &account(2), 1000);
    assert_eq!(created.topic(), ("INVOICE", "created"));
    assert_eq!(approved_event(7, &account(2)).topic(), ("INVOICE", "approved"));
    assert_eq!(InvoiceEvent::Funded { invoice_id: 7, client: account(2) }.topic(), ("INVOICE", "funded"));
    assert_eq!(InvoiceEvent::Delivered { invoice_id: 7, freelancer: account(1) }.topic(), ("INVOICE", "delivered"));
    assert_eq!(InvoiceEvent::Cancelled { invoice_id: 7, caller: account(1) }.topic(), ("INVOICE", "cancelled"));
    assert_eq!(InvoiceEvent::Released { invoice_id: 7, amount: 1 }.topic(), ("INVOICE", "released"));
}

#[test]
fn error_codes() {
    assert_eq!(ContractError::InvoiceNotFound.code(), 1);
    assert_eq!(ContractError::InvalidInvoiceStatus.code(), 2);
    assert_eq!(ContractError::UnauthorizedCaller.code(), 3);
}

#[test]
fn ttl_constants() {
    assert_eq!(TTL_THRESHOLD, 518400);
    assert_eq!(TTL_EXTEND_TO, 1036800);
    assert!(TTL_THRESHOLD < TTL_EXTEND_TO);
}
