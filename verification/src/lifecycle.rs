use vstd::prelude::*;

use crate::events::InvoiceEvent;
use crate::invoice::{ContractError, Invoice, InvoiceStatus};
use crate::party::AccountId;

verus! {

/// A step that a party asks of an existing invoice.
#[derive(Clone, Copy, PartialEq, Eq, Structural, Debug)]
pub enum Action {
    /// The client deposits the amount into escrow.
    Fund,
    /// The freelancer signals that the work is done.
    MarkDelivered,
    /// The client approves the delivered work.
    Approve,
    /// A party voids the invoice.
    Cancel { caller: AccountId },
    /// The escrowed amount is paid out to the freelancer.
    Release,
}

/// A token movement that a step calls for, between a party and the escrow
/// held by the contract.
#[derive(Clone, Copy, PartialEq, Eq, Structural, Debug)]
pub enum Transfer {
    /// `amount` of `token` moves from `from` into escrow.
    IntoEscrow { token: AccountId, from: AccountId, amount: i128 },
    /// `amount` of `token` moves out of escrow to `to`.
    OutOfEscrow { token: AccountId, to: AccountId, amount: i128 },
}

/// What a successful step calls for besides the new invoice: the event to
/// publish and the token movement to make, if any.
#[derive(Clone, Copy, PartialEq, Eq, Structural, Debug)]
pub struct Effects {
    pub event: InvoiceEvent,
    pub transfer: Option<Transfer>,
}

/// The lifecycle of an invoice: what each action does to it. `Ok` holds the
/// invoice after the step and its effects; `Err` means that the step is
/// refused and nothing changes.
pub open spec fn transition(inv: Invoice, action: Action) -> Result<(Invoice, Effects), ContractError> {
    match action {
        Action::Fund => if inv.status == InvoiceStatus::Pending {
            Ok((inv.with_status(InvoiceStatus::Funded), Effects {
                event: InvoiceEvent::Funded { invoice_id: inv.id, client: inv.client },
                transfer: Some(Transfer::IntoEscrow { token: inv.token, from: inv.client, amount: inv.amount }),
            }))
        } else {
            Err(ContractError::InvalidInvoiceStatus)
        },
        Action::MarkDelivered => if inv.status == InvoiceStatus::Funded {
            Ok((inv.with_status(InvoiceStatus::Delivered), Effects {
                event: InvoiceEvent::Delivered { invoice_id: inv.id, freelancer: inv.freelancer },
                transfer: None,
            }))
        } else {
            Err(ContractError::InvalidInvoiceStatus)
        },
        Action::Approve => if inv.status == InvoiceStatus::Delivered {
            Ok((inv.with_status(InvoiceStatus::Approved), Effects {
                event: InvoiceEvent::Approved { invoice_id: inv.id, client: inv.client },
                transfer: None,
            }))
        } else {
            Err(ContractError::InvalidInvoiceStatus)
        },
        Action::Cancel { caller } => if inv.status != InvoiceStatus::Pending {
            Err(ContractError::InvalidInvoiceStatus)
        } else if caller != inv.freelancer && caller != inv.client {
            Err(ContractError::UnauthorizedCaller)
        } else {
            Ok((inv.with_status(InvoiceStatus::Cancelled), Effects {
                event: InvoiceEvent::Cancelled { invoice_id: inv.id, caller },
                transfer: None,
            }))
        },
        Action::Release => if inv.status == InvoiceStatus::Approved {
            Ok((inv.with_status(InvoiceStatus::Completed), Effects {
                event: InvoiceEvent::Released { invoice_id: inv.id, amount: inv.amount },
                transfer: Some(Transfer::OutOfEscrow { token: inv.token, to: inv.freelancer, amount: inv.amount }),
            }))
        } else {
            Err(ContractError::InvalidInvoiceStatus)
        },
    }
}

/// The party whose authorization an action needs before it is tried; the
/// payout needs none.
pub open spec fn signer_of(inv: Invoice, action: Action) -> Option<AccountId> {
    match action {
        Action::Fund => Some(inv.client),
        Action::MarkDelivered => Some(inv.freelancer),
        Action::Approve => Some(inv.client),
        Action::Cancel { caller } => Some(caller),
        Action::Release => None,
    }
}

/// The result of an exec step, paired with the invoice it left behind.
pub open spec fn outcome(inv: Invoice, r: Result<Effects, ContractError>) -> Result<(Invoice, Effects), ContractError> {
    match r {
        Ok(fx) => Ok((inv, fx)),
        Err(e) => Err(e),
    }
}

/// The party that must authorize `action` on `inv` before it is tried.
pub fn required_signer(inv: &Invoice, action: &Action) -> (r: Option<AccountId>)
    ensures
        r == signer_of(*inv, *action),
        *action == Action::Fund ==> r == Some(inv.client),
        *action == Action::MarkDelivered ==> r == Some(inv.freelancer),
        *action == Action::Approve ==> r == Some(inv.client),
        *action matches Action::Cancel { caller } ==> r == Some(caller),
        *action == Action::Release ==> r is None,
{
    match action {
        Action::Fund => Some(inv.client),
        Action::MarkDelivered => Some(inv.freelancer),
        Action::Approve => Some(inv.client),
        Action::Cancel { caller } => Some(*caller),
        Action::Release => None,
    }
}

/// Moves a pending invoice to funded and asks for the amount to be deposited
/// by the client; refused with `InvalidInvoiceStatus` from any other status.
pub fn fund_invoice(inv: &mut Invoice) -> (r: Result<Effects, ContractError>)
    ensures
        outcome(*final(inv), r) == transition(*old(inv), Action::Fund),
        r is Err ==> *final(inv) == *old(inv),
        r is Ok <==> old(inv).status == InvoiceStatus::Pending,
        r is Ok ==> *final(inv) == old(inv).with_status(InvoiceStatus::Funded),
        r matches Ok(fx) ==> fx.transfer == Some(Transfer::IntoEscrow {
            token: old(inv).token,
            from: old(inv).client,
            amount: old(inv).amount,
        }),
        r matches Err(e) ==> e == ContractError::InvalidInvoiceStatus,
{
    if inv.status == InvoiceStatus::Pending {
        inv.status = InvoiceStatus::Funded;
        Ok(Effects {
            event: InvoiceEvent::Funded { invoice_id: inv.id, client: inv.client },
            transfer: Some(Transfer::IntoEscrow { token: inv.token, from: inv.client, amount: inv.amount }),
        })
    } else {
        Err(ContractError::InvalidInvoiceStatus)
    }
}

/// Moves a funded invoice to delivered; refused with `InvalidInvoiceStatus`
/// from any other status.
pub fn mark_delivered(inv: &mut Invoice) -> (r: Result<Effects, ContractError>)
    ensures
        outcome(*final(inv), r) == transition(*old(inv), Action::MarkDelivered),
        r is Err ==> *final(inv) == *old(inv),
        r is Ok <==> old(inv).status == InvoiceStatus::Funded,
        r is Ok ==> *final(inv) == old(inv).with_status(InvoiceStatus::Delivered),
        r matches Ok(fx) ==> fx.transfer is None,
        r matches Err(e) ==> e == ContractError::InvalidInvoiceStatus,
{
    if inv.status == InvoiceStatus::Funded {
        inv.status = InvoiceStatus::Delivered;
        Ok(Effects {
            event: InvoiceEvent::Delivered { invoice_id: inv.id, freelancer: inv.freelancer },
            transfer: None,
        })
    } else {
        Err(ContractError::InvalidInvoiceStatus)
    }
}

/// Moves a delivered invoice to approved; refused with
/// `InvalidInvoiceStatus` from any other status.
pub fn approve_payment(inv: &mut Invoice) -> (r: Result<Effects, ContractError>)
    ensures
        outcome(*final(inv), r) == transition(*old(inv), Action::Approve),
        r is Err ==> *final(inv) == *old(inv),
        r is Ok <==> old(inv).status == InvoiceStatus::Delivered,
        r is Ok ==> *final(inv) == old(inv).with_status(InvoiceStatus::Approved),
        r matches Ok(fx) ==> fx.transfer is None,
        r matches Err(e) ==> e == ContractError::InvalidInvoiceStatus,
{
    if inv.status == InvoiceStatus::Delivered {
        inv.status = InvoiceStatus::Approved;
        let event = crate::events::approve_payment(inv.id, &inv.client);
        Ok(Effects { event, transfer: None })
    } else {
        Err(ContractError::InvalidInvoiceStatus)
    }
}

/// Voids a pending invoice at the request of one of its parties. Refused
/// with `InvalidInvoiceStatus` when the invoice is not pending, else with
/// `UnauthorizedCaller` when `caller` is neither the freelancer nor the client.
pub fn cancel_invoice(inv: &mut Invoice, caller: AccountId) -> (r: Result<Effects, ContractError>)
    ensures
        outcome(*final(inv), r) == transition(*old(inv), Action::Cancel { caller }),
        r is Err ==> *final(inv) == *old(inv),
        r is Ok <==> (old(inv).status == InvoiceStatus::Pending && (caller == old(inv).freelancer
            || caller == old(inv).client)),
        old(inv).status != InvoiceStatus::Pending ==> r == Err::<Effects, ContractError>(
            ContractError::InvalidInvoiceStatus,
        ),
        r is Ok ==> *final(inv) == old(inv).with_status(InvoiceStatus::Cancelled),
        r matches Ok(fx) ==> fx.transfer is None,
{
    if inv.status != InvoiceStatus::Pending {
        return Err(ContractError::InvalidInvoiceStatus);
    }
    if caller != inv.freelancer && caller != inv.client {
        return Err(ContractError::UnauthorizedCaller);
    }
    inv.status = InvoiceStatus::Cancelled;
    Ok(Effects { event: InvoiceEvent::Cancelled { invoice_id: inv.id, caller }, transfer: None })
}

/// Completes an approved invoice and asks for the escrowed amount to be paid
/// out to the freelancer. Only an approved invoice can be released.
pub fn release_payment(inv: &mut Invoice) -> (fx: Effects)
    requires
        old(inv).status == InvoiceStatus::Approved,
    ensures
        transition(*old(inv), Action::Release) == Ok::<(Invoice, Effects), ContractError>((*final(inv), fx)),
        *final(inv) == old(inv).with_status(InvoiceStatus::Completed),
        fx.transfer == Some(Transfer::OutOfEscrow {
            token: old(inv).token,
            to: old(inv).freelancer,
            amount: old(inv).amount,
        }),
{
    inv.status = InvoiceStatus::Completed;
    Effects {
        event: InvoiceEvent::Released { invoice_id: inv.id, amount: inv.amount },
        transfer: Some(Transfer::OutOfEscrow { token: inv.token, to: inv.freelancer, amount: inv.amount }),
    }
}

} // verus!
