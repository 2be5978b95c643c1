use vstd::prelude::*;

use crate::events::InvoiceEvent;
use crate::party::AccountId;

verus! {

/// Where an invoice stands in its lifecycle.
#[derive(Clone, Copy, PartialEq, Eq, Structural, Debug)]
pub enum InvoiceStatus {
    /// Created; no funds held yet.
    Pending,
    /// The client has deposited the amount into escrow.
    Funded,
    /// The freelancer has signalled that the work is done.
    Delivered,
    /// The client has approved the delivered work.
    Approved,
    /// The escrowed amount has been paid out to the freelancer.
    Completed,
    /// Voided while still pending.
    Cancelled,
    /// Under dispute; no operation of this library leads here or out of here.
    Disputed,
}

/// Errors returned by the invoice operations.
#[derive(Clone, Copy, PartialEq, Eq, Structural, Debug)]
pub enum ContractError {
    /// No invoice is stored under the requested id.
    InvoiceNotFound,
    /// The invoice is not in the status that the operation requires.
    InvalidInvoiceStatus,
    /// The caller is neither the freelancer nor the client of the invoice.
    UnauthorizedCaller,
}

/// The number under which each error is reported to callers of the contract.
pub open spec fn error_code(e: ContractError) -> u32 {
    match e {
        ContractError::InvoiceNotFound => 1,
        ContractError::InvalidInvoiceStatus => 2,
        ContractError::UnauthorizedCaller => 3,
    }
}

impl ContractError {
    /// The number under which this error is reported.
    pub fn code(&self) -> (c: u32)
        ensures
            c == error_code(*self),
    {
        match self {
            ContractError::InvoiceNotFound => 1,
            ContractError::InvalidInvoiceStatus => 2,
            ContractError::UnauthorizedCaller => 3,
        }
    }
}

/// An invoice between a freelancer (who is paid) and a client (who pays).
#[derive(Clone, Debug, PartialEq, Eq)]
pub struct Invoice {
    pub id: u64,
    pub freelancer: AccountId,
    pub client: AccountId,
    /// Payment amount in the token's smallest unit.
    pub amount: i128,
    /// The token contract in which the amount is paid.
    pub token: AccountId,
    pub deadline: u64,
    /// Ledger timestamp at creation.
    pub created_at: u64,
    pub description: String,
    pub status: InvoiceStatus,
}

impl Invoice {
    /// The same invoice with its status replaced.
    pub open spec fn with_status(self, s: InvoiceStatus) -> Invoice {
        Invoice { status: s, ..self }
    }
}

/// The id handed to the next invoice, and the counter that follows it: ids
/// are handed out in order, starting from the counter's initial value 0.
pub fn next_invoice_id(counter: u64) -> (r: (u64, u64))
    requires
        counter < u64::MAX,
    ensures
        r.0 == counter,
        r.1 == counter + 1,
{
    (counter, counter + 1)
}

/// A new pending invoice under `id`, and the event that announces it.
/// The freelancer and the client must be different parties.
pub fn create_invoice(
    id: u64,
    freelancer: AccountId,
    client: AccountId,
    amount: i128,
    token: AccountId,
    deadline: u64,
    created_at: u64,
    description: String,
) -> (r: (Invoice, InvoiceEvent))
    requires
        freelancer != client,
    ensures
        r.0 == (Invoice {
            id,
            freelancer,
            client,
            amount,
            token,
            deadline,
            created_at,
            description,
            status: InvoiceStatus::Pending,
        }),
        r.1 == (InvoiceEvent::Created { invoice_id: id, freelancer, client, amount }),
{
    let event = crate::events::invoice_created(id, &freelancer, &client, amount);
    let invoice = Invoice {
        id,
        freelancer,
        client,
        amount,
        token,
        deadline,
        created_at,
        description,
        status: InvoiceStatus::Pending,
    };
    (invoice, event)
}

} // verus!
