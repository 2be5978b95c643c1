use vstd::prelude::*;

use crate::events::InvoiceEvent;
use crate::invoice::{ContractError, Invoice, InvoiceStatus};
use crate::party::AccountId;
use crate::lifecycle::{signer_of, transition, Action, Effects, Transfer};

verus! {

/// The documented lifecycle: pending, funded, delivered, approved, completed,
/// with cancellation possible only while pending.
pub open spec fn allowed_step(from: InvoiceStatus, to: InvoiceStatus) -> bool {
    ||| from == InvoiceStatus::Pending && to == InvoiceStatus::Funded
    ||| from == InvoiceStatus::Funded && to == InvoiceStatus::Delivered
    ||| from == InvoiceStatus::Delivered && to == InvoiceStatus::Approved
    ||| from == InvoiceStatus::Approved && to == InvoiceStatus::Completed
    ||| from == InvoiceStatus::Pending && to == InvoiceStatus::Cancelled
}

/// Statuses from which no action moves an invoice.
pub open spec fn is_closed(s: InvoiceStatus) -> bool {
    s == InvoiceStatus::Completed || s == InvoiceStatus::Cancelled || s == InvoiceStatus::Disputed
}

/// What the escrow holds for an invoice in its current status.
pub open spec fn escrow_held(inv: Invoice) -> int {
    if inv.status == InvoiceStatus::Funded || inv.status == InvoiceStatus::Delivered
        || inv.status == InvoiceStatus::Approved {
        inv.amount as int
    } else {
        0
    }
}

/// How a token movement changes what the escrow holds.
pub open spec fn escrow_delta(t: Option<Transfer>) -> int {
    match t {
        Some(Transfer::IntoEscrow { amount, .. }) => amount as int,
        Some(Transfer::OutOfEscrow { amount, .. }) => -(amount as int),
        None => 0,
    }
}

/// Applies the actions in order to an invoice; a refused action leaves the
/// invoice as it was and has no effects. Returns the final invoice and the
/// effects of the accepted actions, in order.
pub open spec fn run(inv: Invoice, actions: Seq<Action>) -> (Invoice, Seq<Effects>)
    decreases actions.len(),
{
    if actions.len() == 0 {
        (inv, Seq::empty())
    } else {
        let (prev, fxs) = run(inv, actions.drop_last());
        match transition(prev, actions.last()) {
            Ok((next, fx)) => (next, fxs.push(fx)),
            Err(_) => (prev, fxs),
        }
    }
}

/// The net change to the escrow over a sequence of effects.
pub open spec fn net_escrow(fxs: Seq<Effects>) -> int
    decreases fxs.len(),
{
    if fxs.len() == 0 {
        0
    } else {
        net_escrow(fxs.drop_last()) + escrow_delta(fxs.last().transfer)
    }
}

/// How many of the effects are deposits into escrow.
pub open spec fn deposits(fxs: Seq<Effects>) -> int
    decreases fxs.len(),
{
    if fxs.len() == 0 {
        0
    } else {
        deposits(fxs.drop_last()) + if fxs.last().transfer matches Some(Transfer::IntoEscrow { .. }) { 1int } else { 0int }
    }
}

/// How many of the effects are payouts from escrow.
pub open spec fn payouts(fxs: Seq<Effects>) -> int
    decreases fxs.len(),
{
    if fxs.len() == 0 {
        0
    } else {
        payouts(fxs.drop_last()) + if fxs.last().transfer matches Some(Transfer::OutOfEscrow { .. }) { 1int } else { 0int }
    }
}

/// 1 when the invoice has been funded at some point of its life, else 0.
pub open spec fn funded_once(s: InvoiceStatus) -> int {
    if s == InvoiceStatus::Funded || s == InvoiceStatus::Delivered || s == InvoiceStatus::Approved
        || s == InvoiceStatus::Completed {
        1
    } else {
        0
    }
}

/// 1 when the invoice has been paid out, else 0.
pub open spec fn paid_once(s: InvoiceStatus) -> int {
    if s == InvoiceStatus::Completed { 1 } else { 0 }
}

/// Every accepted action moves the invoice along one edge of the documented
/// lifecycle, and changes nothing but its status.
pub proof fn lemma_step_follows_lifecycle(inv: Invoice, action: Action)
    ensures
        transition(inv, action) matches Ok((next, _)) ==> {
            &&& allowed_step(inv.status, next.status)
            &&& next == inv.with_status(next.status)
        },
{
}

/// A completed, cancelled or disputed invoice refuses every action.
pub proof fn lemma_closed_invoice_is_frozen(inv: Invoice, action: Action)
    requires
        is_closed(inv.status),
    ensures
        transition(inv, action) is Err,
{
}

/// An accepted action changes what the escrow holds by exactly the token
/// movement it calls for: the client deposits the amount when the invoice is
/// funded, and the freelancer receives that amount when it is released.
pub proof fn lemma_escrow_follows_transfers(inv: Invoice, action: Action)
    ensures
        transition(inv, action) matches Ok((next, fx)) ==>
            escrow_held(next) == escrow_held(inv) + escrow_delta(fx.transfer),
{
}

/// Every accepted action that needs a signature is signed by the freelancer
/// or the client of the invoice.
pub proof fn lemma_only_parties_sign(inv: Invoice, action: Action)
    ensures
        transition(inv, action) is Ok ==> (signer_of(inv, action) matches Some(s) ==> (s == inv.freelancer
            || s == inv.client)),
{
}

/// The effects of an accepted action concern that invoice: the event names
/// it, and a token movement is of its token, for its amount, between the
/// escrow and the client (deposit) or the freelancer (payout).
pub proof fn lemma_effects_concern_invoice(inv: Invoice, action: Action)
    ensures
        transition(inv, action) matches Ok((_, fx)) ==> {
            &&& fx.event.subject() == inv.id
            &&& (fx.transfer matches Some(Transfer::IntoEscrow { token, from, amount }) ==> token == inv.token
                && from == inv.client && amount == inv.amount)
            &&& (fx.transfer matches Some(Transfer::OutOfEscrow { token, to, amount }) ==> token == inv.token
                && to == inv.freelancer && amount == inv.amount)
        },
{
}

/// Over any sequence of actions, the invoice keeps everything but its status,
/// the net token movement into escrow equals the change in what the escrow
/// holds, and the number of deposits and payouts is fixed by where the
/// invoice started and ended.
pub proof fn lemma_run_accounts_for_escrow(inv: Invoice, actions: Seq<Action>)
    ensures
        ({
            let (last, fxs) = run(inv, actions);
            &&& last == inv.with_status(last.status)
            &&& net_escrow(fxs) == escrow_held(last) - escrow_held(inv)
            &&& deposits(fxs) == funded_once(last.status) - funded_once(inv.status)
            &&& payouts(fxs) == paid_once(last.status) - paid_once(inv.status)
        }),
    decreases actions.len(),
{
    if actions.len() > 0 {
        lemma_run_accounts_for_escrow(inv, actions.drop_last());
        let (prev, fxs) = run(inv, actions.drop_last());
        lemma_escrow_follows_transfers(prev, actions.last());
        if let Ok((next, fx)) = transition(prev, actions.last()) {
            assert(fxs.push(fx).drop_last() =~= fxs);
        }
    }
}

/// Starting from a new (pending) invoice, any sequence of actions deposits
/// at most once and pays out at most once; once the invoice is completed or
/// cancelled, every deposited unit has left the escrow again.
pub proof fn lemma_new_invoice_settles(inv: Invoice, actions: Seq<Action>)
    requires
        inv.status == InvoiceStatus::Pending,
    ensures
        ({
            let (last, fxs) = run(inv, actions);
            &&& 0 <= deposits(fxs) <= 1
            &&& 0 <= payouts(fxs) <= deposits(fxs)
            &&& (last.status == InvoiceStatus::Completed || last.status == InvoiceStatus::Cancelled)
                ==> net_escrow(fxs) == 0
        }),
{
    lemma_run_accounts_for_escrow(inv, actions);
}

/// Funding is accepted exactly when the invoice is pending. It leaves the
/// invoice funded and asks the client to deposit the full amount, in the
/// invoice's token, into escrow. From any other status it is refused as
/// being in the wrong status.
pub proof fn lemma_fund_law(inv: Invoice)
    ensures
        transition(inv, Action::Fund) is Ok <==> inv.status == InvoiceStatus::Pending,
        transition(inv, Action::Fund) matches Ok((next, fx)) ==> {
            &&& next == inv.with_status(InvoiceStatus::Funded)
            &&& fx.event == (InvoiceEvent::Funded { invoice_id: inv.id, client: inv.client })
            &&& fx.transfer == Some(Transfer::IntoEscrow { token: inv.token, from: inv.client, amount: inv.amount })
        },
        transition(inv, Action::Fund) matches Err(e) ==> e == ContractError::InvalidInvoiceStatus,
{
}

/// Marking delivered is accepted exactly when the invoice is funded. It
/// leaves the invoice delivered and moves no tokens. From any other status it
/// is refused as being in the wrong status.
pub proof fn lemma_mark_delivered_law(inv: Invoice)
    ensures
        transition(inv, Action::MarkDelivered) is Ok <==> inv.status == InvoiceStatus::Funded,
        transition(inv, Action::MarkDelivered) matches Ok((next, fx)) ==> {
            &&& next == inv.with_status(InvoiceStatus::Delivered)
            &&& fx.event == (InvoiceEvent::Delivered { invoice_id: inv.id, freelancer: inv.freelancer })
            &&& fx.transfer is None
        },
        transition(inv, Action::MarkDelivered) matches Err(e) ==> e == ContractError::InvalidInvoiceStatus,
{
}

/// Approval is accepted exactly when the invoice is delivered. It leaves the
/// invoice approved and moves no tokens: payment happens only on release.
/// From any other status it is refused as being in the wrong status.
pub proof fn lemma_approve_law(inv: Invoice)
    ensures
        transition(inv, Action::Approve) is Ok <==> inv.status == InvoiceStatus::Delivered,
        transition(inv, Action::Approve) matches Ok((next, fx)) ==> {
            &&& next == inv.with_status(InvoiceStatus::Approved)
            &&& fx.event == (InvoiceEvent::Approved { invoice_id: inv.id, client: inv.client })
            &&& fx.transfer is None
        },
        transition(inv, Action::Approve) matches Err(e) ==> e == ContractError::InvalidInvoiceStatus,
{
}

/// Cancellation is accepted exactly when the invoice is pending and the
/// caller is its freelancer or its client; it leaves the invoice cancelled and
/// moves no tokens. A non-pending invoice is refused as being in the wrong
/// status whoever calls; a pending one is refused to anyone else as an
/// unauthorized caller.
pub proof fn lemma_cancel_law(inv: Invoice, caller: AccountId)
    ensures
        transition(inv, Action::Cancel { caller }) is Ok <==> (inv.status == InvoiceStatus::Pending && (caller
            == inv.freelancer || caller == inv.client)),
        inv.status != InvoiceStatus::Pending ==> transition(inv, Action::Cancel { caller }) == Err::<
            (Invoice, Effects),
            ContractError,
        >(ContractError::InvalidInvoiceStatus),
        (inv.status == InvoiceStatus::Pending && caller != inv.freelancer && caller != inv.client)
            ==> transition(inv, Action::Cancel { caller }) == Err::<(Invoice, Effects), ContractError>(
            ContractError::UnauthorizedCaller,
        ),
        transition(inv, Action::Cancel { caller }) matches Ok((next, fx)) ==> {
            &&& next == inv.with_status(InvoiceStatus::Cancelled)
            &&& fx.event == (InvoiceEvent::Cancelled { invoice_id: inv.id, caller })
            &&& fx.transfer is None
        },
{
}

/// Release is accepted exactly when the invoice is approved. It leaves the
/// invoice completed and pays the full amount, in the invoice's token, out of
/// escrow to the freelancer.
pub proof fn lemma_release_law(inv: Invoice)
    ensures
        transition(inv, Action::Release) is Ok <==> inv.status == InvoiceStatus::Approved,
        transition(inv, Action::Release) matches Ok((next, fx)) ==> {
            &&& next == inv.with_status(InvoiceStatus::Completed)
            &&& fx.event == (InvoiceEvent::Released { invoice_id: inv.id, amount: inv.amount })
            &&& fx.transfer == Some(Transfer::OutOfEscrow { token: inv.token, to: inv.freelancer, amount: inv.amount })
        },
{
}

/// No action is accepted twice in a row: once an action has moved an
/// invoice, asking for the same action again is refused.
pub proof fn lemma_no_action_twice(inv: Invoice, action: Action)
    ensures
        transition(inv, action) matches Ok((next, _)) ==> transition(next, action) is Err,
{
}

/// Who must authorize each action, whatever the invoice's status: the client
/// funds and approves, the freelancer marks delivered, a cancellation is
/// signed by its caller, and a release needs no signature.
pub proof fn lemma_signers(inv: Invoice, caller: AccountId, s: InvoiceStatus)
    ensures
        signer_of(inv, Action::Fund) == Some(inv.client),
        signer_of(inv, Action::MarkDelivered) == Some(inv.freelancer),
        signer_of(inv, Action::Approve) == Some(inv.client),
        signer_of(inv, Action::Cancel { caller }) == Some(caller),
        signer_of(inv, Action::Release) is None,
        signer_of(inv.with_status(s), Action::Approve) == signer_of(inv, Action::Approve),
{
}

} // verus!
