//! What holds of every run of the ledger, proved of the model that the
//! executable ledger is verified against.

use crate::model::{LedgerView, Operation};
use crate::shipment::{lemma_record_keeps_wf, TrackingEvent};
use crate::types::{Context, Error, EscrowStatus, ProductId, ShipmentId, ShipmentStatus};
use vstd::prelude::*;

verus! {

/// The empty ledger is well-formed.
pub proof fn lemma_empty_is_well_formed()
    ensures
        LedgerView::empty().wf(),
{
}

/// Every call keeps a well-formed ledger well-formed. A creation needs
/// room for one more shipment below what an identifier can count.
pub proof fn lemma_step_keeps_well_formed(ledger: LedgerView, ctx: Context, operation: Operation)
    requires
        ledger.wf(),
        operation is CreateShipment ==> ledger.shipments.len() < u64::MAX,
    ensures
        ledger.step(ctx, operation).wf(),
{
    let after = ledger.step(ctx, operation);
    match operation {
        Operation::CreateShipment { order_id, destination, requirements, seal } => {
            assert forall|i: int| 0 <= i < after.transfers.len() implies after.transfer_backed(
                #[trigger] after.transfers[i],
            ) by {
                assert(ledger.transfer_backed(ledger.transfers[i]));
            }
        },
        Operation::UpdateShipmentStatus { shipment_id, event } => {
            if ledger.update_outcome(ctx, shipment_id) is Ok {
                lemma_record_keeps_wf(ledger.shipment(shipment_id), event);
                assert forall|k: u64| #[trigger] after.escrows.contains_key(k) implies after.escrow_agrees(
                    k,
                ) by {
                    assert(ledger.escrow_agrees(k));
                }
                assert forall|i: int| 0 <= i < after.transfers.len() implies after.transfer_backed(
                    #[trigger] after.transfers[i],
                ) by {
                    assert(ledger.transfer_backed(ledger.transfers[i]));
                }
            }
        },
        Operation::VerifyDelivery { shipment_id, proof, condition_report, signature } => {
            if ledger.verification_outcome(ctx, shipment_id, proof, condition_report, signature)
                is Ok {
                assert forall|k: u64| #[trigger] after.escrows.contains_key(k) implies after.escrow_agrees(
                    k,
                ) by {
                    assert(ledger.escrow_agrees(k));
                }
                assert forall|i: int| 0 <= i < after.transfers.len() implies after.transfer_backed(
                    #[trigger] after.transfers[i],
                ) by {
                    if i < ledger.transfers.len() {
                        assert(ledger.transfer_backed(ledger.transfers[i]));
                    }
                }
                assert forall|i: int, j: int| 0 <= i < j < after.transfers.len() implies (
                #[trigger] after.transfers[i]).shipment_id != (
                #[trigger] after.transfers[j]).shipment_id by {
                    if j == ledger.transfers.len() {
                        assert(ledger.transfer_backed(ledger.transfers[i]));
                    }
                }
            }
        },
        Operation::EndorseRelease { shipment_id, signature } => {
            if ledger.endorsement_outcome(ctx, shipment_id, signature) is Ok {
                assert forall|k: u64| #[trigger] after.escrows.contains_key(k) implies after.escrow_agrees(
                    k,
                ) by {
                    assert(ledger.escrow_agrees(k));
                }
                assert forall|i: int| 0 <= i < after.transfers.len() implies after.transfer_backed(
                    #[trigger] after.transfers[i],
                ) by {
                    assert(ledger.transfer_backed(ledger.transfers[i]));
                }
            }
        },
        _ => {},
    }
}

/// Every ledger that calls can make of the empty ledger is well-formed, as
/// long as there are no more calls than an identifier can count.
pub proof fn lemma_reachable_is_well_formed(calls: Seq<(Context, Operation)>)
    requires
        calls.len() <= u64::MAX,
    ensures
        LedgerView::empty().run(calls).wf(),
        LedgerView::empty().run(calls).shipments.len() <= calls.len(),
    decreases calls.len(),
{
    if calls.len() > 0 {
        let before = LedgerView::empty().run(calls.drop_last());
        lemma_reachable_is_well_formed(calls.drop_last());
        lemma_step_keeps_well_formed(before, calls.last().0, calls.last().1);
        lemma_step_keeps_shipments(before, calls.last().0, calls.last().1);
    }
}

/// No call removes or renumbers a shipment, and a call adds at most one.
pub proof fn lemma_step_keeps_shipments(ledger: LedgerView, ctx: Context, operation: Operation)
    ensures
        ledger.shipments.len() <= ledger.step(ctx, operation).shipments.len()
            <= ledger.shipments.len() + 1,
{
}

/// The status of a shipment never moves backward: after any call it stands
/// where it stood or further along `Created`, `InTransit`, `Delivered`,
/// `Verified`.
pub proof fn lemma_status_never_regresses(
    ledger: LedgerView,
    ctx: Context,
    operation: Operation,
    id: ShipmentId,
)
    requires
        ledger.has_shipment(id),
    ensures
        ledger.step(ctx, operation).has_shipment(id),
        ledger.step(ctx, operation).shipment(id).status.rank() >= ledger.shipment(id).status.rank(),
{
}

/// The status of a shipment never moves backward over any sequence of
/// calls.
pub proof fn lemma_status_never_regresses_over_run(
    ledger: LedgerView,
    calls: Seq<(Context, Operation)>,
    id: ShipmentId,
)
    requires
        ledger.has_shipment(id),
    ensures
        ledger.run(calls).has_shipment(id),
        ledger.run(calls).shipment(id).status.rank() >= ledger.shipment(id).status.rank(),
    decreases calls.len(),
{
    if calls.len() > 0 {
        lemma_status_never_regresses_over_run(ledger, calls.drop_last(), id);
        lemma_status_never_regresses(
            ledger.run(calls.drop_last()),
            calls.last().0,
            calls.last().1,
            id,
        );
    }
}

/// Whether `operation` is a tracking event for the shipment `id` that the
/// ledger accepts.
pub open spec fn records_event_for(
    ledger: LedgerView,
    ctx: Context,
    operation: Operation,
    id: ShipmentId,
) -> bool {
    match operation {
        Operation::UpdateShipmentStatus { shipment_id, event } => shipment_id == id
            && ledger.update_outcome(ctx, id) is Ok,
        _ => false,
    }
}

/// Whether `operation` is a verification of the shipment `id` that
/// succeeds.
pub open spec fn verifies(
    ledger: LedgerView,
    ctx: Context,
    operation: Operation,
    id: ShipmentId,
) -> bool {
    match operation {
        Operation::VerifyDelivery { shipment_id, proof, condition_report, signature } => shipment_id
            == id && ledger.verification_outcome(ctx, id, proof, condition_report, signature)
            is Ok,
        _ => false,
    }
}

/// The trail of a shipment changes in one way only: a tracking event for
/// that shipment, when it is accepted, is appended. Every other call, and
/// every rejected one, leaves the trail as it is.
pub proof fn lemma_trail_is_append_only(
    ledger: LedgerView,
    ctx: Context,
    operation: Operation,
    id: ShipmentId,
)
    requires
        ledger.has_shipment(id),
    ensures
        ledger.step(ctx, operation).shipment(id).tracking == if records_event_for(
            ledger,
            ctx,
            operation,
            id,
        ) {
            ledger.shipment(id).tracking.push(operation->event)
        } else {
            ledger.shipment(id).tracking
        },
{
}

/// A verification comes on record in one way only: by a verification of
/// that shipment that succeeds. And a verification on record stays as it
/// is.
pub proof fn lemma_verification_is_written_once(
    ledger: LedgerView,
    ctx: Context,
    operation: Operation,
    id: ShipmentId,
)
    requires
        ledger.wf(),
    ensures
        ledger.verifications.contains_key(id.0) ==> ledger.step(
            ctx,
            operation,
        ).verifications.contains_key(id.0) && ledger.step(ctx, operation).verifications[id.0]
            == ledger.verifications[id.0],
        !ledger.verifications.contains_key(id.0) ==> (ledger.step(
            ctx,
            operation,
        ).verifications.contains_key(id.0) <==> verifies(ledger, ctx, operation, id)),
{
}

/// A delivery cannot be verified before it is recorded: while the status
/// of the shipment is `Created` or `InTransit`, verification fails with
/// `NotDelivered`, whoever calls and whatever is presented, and changes
/// nothing.
pub proof fn lemma_verification_needs_delivery(
    ledger: LedgerView,
    ctx: Context,
    id: ShipmentId,
    proof: Seq<u8>,
    condition_report: Seq<u8>,
    signature: Seq<u8>,
)
    requires
        ledger.has_shipment(id),
        ledger.shipment(id).status == ShipmentStatus::Created || ledger.shipment(id).status
            == ShipmentStatus::InTransit,
    ensures
        ledger.verification_outcome(ctx, id, proof, condition_report, signature) == Err::<
            (),
            Error,
        >(Error::NotDelivered),
        ledger.step(ctx, Operation::VerifyDelivery { shipment_id: id, proof, condition_report, signature })
            == ledger,
{
}

/// A delivery is verified at most once: after a verification has
/// succeeded, every later verification of the same shipment fails with
/// `AlreadyVerified`, whatever calls were made in between.
pub proof fn lemma_verification_succeeds_once(
    ledger: LedgerView,
    first_ctx: Context,
    id: ShipmentId,
    first_proof: Seq<u8>,
    first_report: Seq<u8>,
    first_signature: Seq<u8>,
    between: Seq<(Context, Operation)>,
    later_ctx: Context,
    later_proof: Seq<u8>,
    later_report: Seq<u8>,
    later_signature: Seq<u8>,
)
    requires
        ledger.verification_outcome(first_ctx, id, first_proof, first_report, first_signature)
            is Ok,
    ensures
        ledger.verified(first_ctx, id, first_proof, first_report, first_signature).run(
            between,
        ).verification_outcome(later_ctx, id, later_proof, later_report, later_signature) == Err::<
            (),
            Error,
        >(Error::AlreadyVerified),
{
    let verified = ledger.verified(first_ctx, id, first_proof, first_report, first_signature);
    assert(verified.has_shipment(id));
    assert(verified.shipment(id).status == ShipmentStatus::Verified);
    lemma_status_never_regresses_over_run(verified, between, id);
}

/// A verification that succeeds finds the shipment `Delivered` and leaves
/// it `Verified`, with the verification on record.
pub proof fn lemma_verification_completes(
    ledger: LedgerView,
    ctx: Context,
    id: ShipmentId,
    proof: Seq<u8>,
    condition_report: Seq<u8>,
    signature: Seq<u8>,
)
    requires
        ledger.verification_outcome(ctx, id, proof, condition_report, signature) is Ok,
    ensures
        ledger.shipment(id).status == ShipmentStatus::Delivered,
        ledger.verified(ctx, id, proof, condition_report, signature).shipment(id).status
            == ShipmentStatus::Verified,
        ledger.verified(ctx, id, proof, condition_report, signature).verifications.contains_key(
            id.0,
        ),
{
}

/// Funds are released only after both a recorded delivery and a verified
/// delivery: in a well-formed ledger, the shipment of a `Released` escrow
/// has a `Delivered` event on its trail and a verification on record.
pub proof fn lemma_release_needs_delivery_and_verification(ledger: LedgerView, id: ShipmentId)
    requires
        ledger.wf(),
        ledger.escrows.contains_key(id.0),
        ledger.escrows[id.0].status == EscrowStatus::Released,
    ensures
        ledger.has_shipment(id),
        ledger.shipment(id).delivery_recorded(),
        ledger.verifications.contains_key(id.0),
{
    assert(ledger.shipments[id.0 as int].wf());
}

/// In every ledger that calls can make of the empty ledger, an escrow is
/// `Released` only if a delivery of its shipment was recorded and the
/// delivery was verified.
pub proof fn lemma_reachable_release_needs_both(calls: Seq<(Context, Operation)>, id: ShipmentId)
    requires
        calls.len() <= u64::MAX,
        LedgerView::empty().run(calls).escrows.contains_key(id.0),
        LedgerView::empty().run(calls).escrows[id.0].status == EscrowStatus::Released,
    ensures
        LedgerView::empty().run(calls).shipment(id).delivery_recorded(),
        LedgerView::empty().run(calls).verifications.contains_key(id.0),
{
    lemma_reachable_is_well_formed(calls);
    lemma_release_needs_delivery_and_verification(LedgerView::empty().run(calls), id);
}

/// No single call releases a pending escrow: whatever the call, an escrow
/// that is `Pending` before it is not `Released` after it.
pub proof fn lemma_no_release_in_one_step(
    ledger: LedgerView,
    ctx: Context,
    operation: Operation,
    id: ShipmentId,
)
    requires
        ledger.wf(),
        ledger.escrows.contains_key(id.0),
        ledger.escrows[id.0].status == EscrowStatus::Pending,
    ensures
        ledger.step(ctx, operation).escrows.contains_key(id.0),
        ledger.step(ctx, operation).escrows[id.0].status != EscrowStatus::Released,
{
}

/// An endorsement releases nothing: it leaves the status and the amount of
/// every escrow, and instructs no transfer.
pub proof fn lemma_endorsement_releases_nothing(
    ledger: LedgerView,
    ctx: Context,
    endorsed: ShipmentId,
    signature: Seq<u8>,
    id: ShipmentId,
)
    requires
        ledger.escrows.contains_key(id.0),
    ensures
        ({
            let after = ledger.step(
                ctx,
                Operation::EndorseRelease { shipment_id: endorsed, signature },
            );
            &&& after.escrows.contains_key(id.0)
            &&& after.escrows[id.0].status == ledger.escrows[id.0].status
            &&& after.escrows[id.0].amount == ledger.escrows[id.0].amount
            &&& after.transfers == ledger.transfers
            &&& after.shipments == ledger.shipments
        }),
{
}

/// An escrow that a call opens is `Pending`: none comes into being
/// released.
pub proof fn lemma_new_escrow_is_pending(
    ledger: LedgerView,
    ctx: Context,
    operation: Operation,
    id: ShipmentId,
)
    requires
        !ledger.escrows.contains_key(id.0),
        ledger.step(ctx, operation).escrows.contains_key(id.0),
    ensures
        ledger.step(ctx, operation).escrows[id.0].status == EscrowStatus::Pending,
{
}

/// A tracking event from a caller who is not the registered operator of
/// the shipment's carrier, or for a carrier that is not active, is
/// rejected with `UnauthorizedAccess` or `InvalidCarrier`, and the ledger,
/// the shipment's record included, stays exactly as it was.
pub proof fn lemma_unauthorized_update_changes_nothing(
    ledger: LedgerView,
    ctx: Context,
    id: ShipmentId,
    event: TrackingEvent,
)
    requires
        ledger.has_shipment(id),
        ledger.carrier_authorization(ctx.caller, ledger.shipment(id).carrier) is Err,
    ensures
        ledger.update_outcome(ctx, id) == Err::<(), Error>(Error::UnauthorizedAccess)
            || ledger.update_outcome(ctx, id) == Err::<(), Error>(Error::InvalidCarrier),
        ledger.step(ctx, Operation::UpdateShipmentStatus { shipment_id: id, event }) == ledger,
{
}

/// Authenticating a product that is not registered fails with
/// `ProductNotFound` and leaves no trace: no record is made for the
/// product and the ledger stays exactly as it was.
pub proof fn lemma_unknown_product_leaves_no_trace(
    ledger: LedgerView,
    ctx: Context,
    product: ProductId,
    data: Seq<u8>,
)
    requires
        !ledger.products.contains_key(product.0),
    ensures
        ledger.authentication_outcome(ctx, product, data) == Err::<bool, Error>(
            Error::ProductNotFound,
        ),
        ledger.step(ctx, Operation::AuthenticateProduct { product_id: product, data }) == ledger,
{
}

/// The audit trail of a product only grows: after any call it begins with
/// what it held before.
pub proof fn lemma_history_is_append_only(
    ledger: LedgerView,
    ctx: Context,
    operation: Operation,
    product: ProductId,
)
    requires
        ledger.products.contains_key(product.0),
    ensures
        ledger.step(ctx, operation).products.contains_key(product.0),
        ledger.products[product.0].history.is_prefix_of(
            ledger.step(ctx, operation).products[product.0].history,
        ),
{
}

/// The audit log only grows: after any call it begins with what it held
/// before.
pub proof fn lemma_log_is_append_only(ledger: LedgerView, ctx: Context, operation: Operation)
    ensures
        ledger.events.is_prefix_of(ledger.step(ctx, operation).events),
{
}

/// A shipment that is created gets an identifier that no shipment held
/// before, with status `Created` and an escrow that is `Pending`.
pub proof fn lemma_creation_is_fresh(
    ledger: LedgerView,
    order_id: crate::types::OrderId,
    destination: crate::types::Address,
    requirements: crate::catalog::RequirementsView,
    seal: Seq<u8>,
)
    requires
        ledger.wf(),
        ledger.creation_outcome(order_id, destination, requirements, seal) is Ok,
    ensures
        ({
            let id = ledger.creation_outcome(order_id, destination, requirements, seal)->Ok_0;
            let after = ledger.created(order_id, destination, requirements, seal);
            &&& !ledger.has_shipment(id)
            &&& !ledger.escrows.contains_key(id.0)
            &&& after.has_shipment(id)
            &&& after.shipment(id).status == ShipmentStatus::Created
            &&& after.escrows.contains_key(id.0)
            &&& after.escrows[id.0].status == EscrowStatus::Pending
        }),
{
    let id = ledger.creation_outcome(order_id, destination, requirements, seal)->Ok_0;
    if ledger.escrows.contains_key(id.0) {
        assert(id.0 < ledger.shipments.len());
    }
}

} // verus!
