use vstd::prelude::*;

use crate::party::AccountId;

verus! {

/// An event published by the invoice contract. Every event is published under
/// the topic pair ("INVOICE", action), with the variant's fields as data.
#[derive(Clone, Copy, PartialEq, Eq, Structural, Debug)]
pub enum InvoiceEvent {
    /// Topic ("INVOICE", "created"), data (invoice_id, freelancer, client, amount).
    Created { invoice_id: u64, freelancer: AccountId, client: AccountId, amount: i128 },
    /// Topic ("INVOICE", "funded"), data (invoice_id, client).
    Funded { invoice_id: u64, client: AccountId },
    /// Topic ("INVOICE", "delivered"), data (invoice_id, freelancer).
    Delivered { invoice_id: u64, freelancer: AccountId },
    /// Topic ("INVOICE", "approved"), data (invoice_id, client).
    Approved { invoice_id: u64, client: AccountId },
    /// Topic ("INVOICE", "cancelled"), data (invoice_id, caller).
    Cancelled { invoice_id: u64, caller: AccountId },
    /// Topic ("INVOICE", "released"), data (invoice_id, amount).
    Released { invoice_id: u64, amount: i128 },
}

/// The first topic of every invoice event.
pub open spec fn topic_namespace() -> Seq<char> {
    "INVOICE"@
}

impl InvoiceEvent {
    /// The second topic of the event: the action it reports.
    pub open spec fn action_name(self) -> Seq<char> {
        match self {
            InvoiceEvent::Created { .. } => "created"@,
            InvoiceEvent::Funded { .. } => "funded"@,
            InvoiceEvent::Delivered { .. } => "delivered"@,
            InvoiceEvent::Approved { .. } => "approved"@,
            InvoiceEvent::Cancelled { .. } => "cancelled"@,
            InvoiceEvent::Released { .. } => "released"@,
        }
    }

    /// The invoice that the event is about.
    pub open spec fn subject(self) -> u64 {
        match self {
            InvoiceEvent::Created { invoice_id, .. } => invoice_id,
            InvoiceEvent::Funded { invoice_id, .. } => invoice_id,
            InvoiceEvent::Delivered { invoice_id, .. } => invoice_id,
            InvoiceEvent::Approved { invoice_id, .. } => invoice_id,
            InvoiceEvent::Cancelled { invoice_id, .. } => invoice_id,
            InvoiceEvent::Released { invoice_id, .. } => invoice_id,
        }
    }

    /// The topic pair under which the event is published.
    pub fn topic(&self) -> (t: (&'static str, &'static str))
        ensures
            t.0@ == topic_namespace(),
            t.1@ == self.action_name(),
    {
        let action = match self {
            InvoiceEvent::Created { .. } => "created",
            InvoiceEvent::Funded { .. } => "funded",
            InvoiceEvent::Delivered { .. } => "delivered",
            InvoiceEvent::Approved { .. } => "approved",
            InvoiceEvent::Cancelled { .. } => "cancelled",
            InvoiceEvent::Released { .. } => "released",
        };
        ("INVOICE", action)
    }
}

/// The event announcing a new invoice: topic ("INVOICE", "created"),
/// data (invoice_id, freelancer, client, amount).
pub fn invoice_created(
    invoice_id: u64,
    freelancer: &AccountId,
    client: &AccountId,
    amount: i128,
) -> (e: InvoiceEvent)
    ensures
        e == (InvoiceEvent::Created { invoice_id, freelancer: *freelancer, client: *client, amount }),
{
    InvoiceEvent::Created { invoice_id, freelancer: *freelancer, client: *client, amount }
}

/// The event announcing that the client approved the delivered work:
/// topic ("INVOICE", "approved"), data (invoice_id, client).
pub fn approve_payment(invoice_id: u64, client: &AccountId) -> (e: InvoiceEvent)
    ensures
        e == (InvoiceEvent::Approved { invoice_id, client: *client }),
{
    InvoiceEvent::Approved { invoice_id, client: *client }
}

} // verus!
