//! Escrowed payment: the conditions under which funds are held and the two
//! independent steps by which they come free. A delivery recorded by the
//! carrier moves an escrow from `Pending` to `ConditionsMet`; only a
//! verified delivery moves it on to `Released`. There is no step from
//! `Pending` to `Released`. Where an escrow asks for more than one release
//! signature, other verifiers endorse the release of a `ConditionsMet`
//! escrow beforehand; the signature of the verifier of the delivery counts
//! as one.

use crate::bytes::copy_of;
use crate::catalog::{
    order_value, value_of, FulfillmentOrder, FulfillmentRequirements, RequirementsView,
};
use crate::shipment::{Shipment, ShipmentView, TrackingEvent};
use crate::types::{Balance, Error, EscrowStatus, EventType, ShipmentId, ShipmentStatus, Timestamp};
use crate::verification::{
    check_signature, condition_score, score_of, signature_valid, DeliveryVerification,
    VerificationView,
};
use vstd::prelude::*;

verus! {

/// One condition on the release of an escrow.
#[derive(Clone, Copy, Debug, PartialEq, Eq, Structural)]
pub enum PaymentCondition {
    /// The shipment stands as delivered.
    Delivered,
    /// The carrier's delivery event is timestamped no later than this.
    DeliveredBy(Timestamp),
    /// The condition report of the verification scores at least this.
    ConditionScore(u8),
    /// This many release signatures are at hand, the verifier's included.
    Signatures(u32),
}

/// Funds held for a shipment until delivery is recorded and verified.
#[derive(Debug)]
pub struct PaymentEscrow {
    pub amount: Balance,
    pub conditions: Vec<PaymentCondition>,
    pub release_signatures: Vec<Vec<u8>>,
    pub status: EscrowStatus,
}

/// An instruction to the token-transfer service: pay out the escrow of a
/// shipment.
#[derive(Clone, Copy, Debug, PartialEq, Eq, Structural)]
pub struct Transfer {
    pub shipment_id: ShipmentId,
    pub amount: Balance,
}

/// [`PaymentEscrow`] as a mathematical value.
pub struct EscrowView {
    pub amount: Balance,
    pub conditions: Seq<PaymentCondition>,
    pub signatures: Seq<Seq<u8>>,
    pub status: EscrowStatus,
}

impl View for PaymentEscrow {
    type V = EscrowView;

    open spec fn view(&self) -> EscrowView {
        EscrowView {
            amount: self.amount,
            conditions: self.conditions@,
            signatures: self.release_signatures@.map_values(|signature: Vec<u8>| signature@),
            status: self.status,
        }
    }
}

impl PaymentCondition {
    /// Whether the condition holds once `event` has been recorded for
    /// `shipment`. Conditions on the verification hold here by default.
    pub open spec fn met_by_event(self, shipment: ShipmentView, event: TrackingEvent) -> bool {
        match self {
            PaymentCondition::Delivered => shipment.status == ShipmentStatus::Delivered,
            PaymentCondition::DeliveredBy(deadline) => event.event_type == EventType::Delivered
                && event.timestamp <= deadline,
            _ => true,
        }
    }

    /// Whether the condition holds of a verification, `collected` release
    /// signatures being at hand before it. Conditions on the lifecycle hold
    /// here by default.
    pub open spec fn met_by_verification(
        self,
        collected: nat,
        verification: VerificationView,
    ) -> bool {
        match self {
            PaymentCondition::ConditionScore(least) => condition_score(
                verification.condition_report,
            ) >= least,
            PaymentCondition::Signatures(needed) => collected + 1 >= needed,
            _ => true,
        }
    }

    /// Computes [`PaymentCondition::met_by_event`].
    pub fn holds_after_event(&self, shipment: &Shipment, event: &TrackingEvent) -> (met: bool)
        ensures
            met == self.met_by_event(shipment@, *event),
    {
        match self {
            PaymentCondition::Delivered => shipment.status == ShipmentStatus::Delivered,
            PaymentCondition::DeliveredBy(deadline) => event.event_type == EventType::Delivered
                && event.timestamp <= *deadline,
            _ => true,
        }
    }

    /// Computes [`PaymentCondition::met_by_verification`].
    pub fn holds_of_verification(
        &self,
        collected: usize,
        verification: &DeliveryVerification,
    ) -> (met: bool)
        ensures
            met == self.met_by_verification(collected as nat, verification@),
    {
        match self {
            PaymentCondition::ConditionScore(least) => score_of(&verification.condition_report)
                >= *least,
            PaymentCondition::Signatures(needed) => *needed == 0 || (*needed - 1) as usize
                <= collected,
            _ => true,
        }
    }
}

/// The conditions that `requirements` puts on the release of payment:
/// delivery; delivery by the deadline, where there is one; the score of the
/// condition report; the number of signatures.
pub open spec fn conditions_of(requirements: RequirementsView) -> Seq<PaymentCondition> {
    let deadline = match requirements.delivery_deadline {
        Some(deadline) => seq![PaymentCondition::DeliveredBy(deadline)],
        None => Seq::empty(),
    };
    seq![PaymentCondition::Delivered] + deadline + seq![
        PaymentCondition::ConditionScore(requirements.min_condition_score),
        PaymentCondition::Signatures(requirements.release_signatures),
    ]
}

impl EscrowView {
    /// The escrow as it is set up: `amount` held under the conditions of
    /// `requirements`, no signature yet, status `Pending`.
    pub open spec fn pending(amount: Balance, requirements: RequirementsView) -> EscrowView {
        EscrowView {
            amount,
            conditions: conditions_of(requirements),
            signatures: Seq::empty(),
            status: EscrowStatus::Pending,
        }
    }

    /// Whether every condition holds once `event` has been recorded for
    /// `shipment`.
    pub open spec fn lifecycle_met(self, shipment: ShipmentView, event: TrackingEvent) -> bool {
        forall|i: int|
            0 <= i < self.conditions.len() ==> (#[trigger] self.conditions[i]).met_by_event(
                shipment,
                event,
            )
    }

    /// Whether `event`, recorded for `shipment`, brings the escrow to
    /// `ConditionsMet`: it is `Pending`, the shipment stands as delivered,
    /// and every condition on the lifecycle holds.
    pub open spec fn falls_due(self, shipment: ShipmentView, event: TrackingEvent) -> bool {
        &&& self.status == EscrowStatus::Pending
        &&& shipment.status == ShipmentStatus::Delivered
        &&& self.lifecycle_met(shipment, event)
    }

    /// The escrow after `event` has been recorded for `shipment`.
    pub open spec fn after_event(self, shipment: ShipmentView, event: TrackingEvent) -> EscrowView {
        if self.falls_due(shipment, event) {
            EscrowView { status: EscrowStatus::ConditionsMet, ..self }
        } else {
            self
        }
    }

    /// Whether every condition holds of `verification`.
    pub open spec fn verification_met(self, verification: VerificationView) -> bool {
        forall|i: int|
            0 <= i < self.conditions.len() ==> (#[trigger] self.conditions[i]).met_by_verification(
                self.signatures.len(),
                verification,
            )
    }

    /// Whether `verification` releases the escrow: its conditions on the
    /// lifecycle were met before (`ConditionsMet`), and those on the
    /// verification hold now.
    pub open spec fn releasable(self, verification: VerificationView) -> bool {
        self.status == EscrowStatus::ConditionsMet && self.verification_met(verification)
    }

    /// Whether one of the release signatures at hand is a valid signature
    /// over `message` under `key`: the holder of the key has endorsed.
    pub open spec fn endorsed_under(self, message: Seq<u8>, key: Seq<u8>) -> bool {
        exists|i: int|
            0 <= i < self.signatures.len() && signature_valid(
                #[trigger] self.signatures[i],
                message,
                key,
            )
    }

    /// The escrow with one more release signature at hand.
    pub open spec fn endorsed(self, signature: Seq<u8>) -> EscrowView {
        EscrowView { signatures: self.signatures.push(signature), ..self }
    }

    /// The escrow released by `verification`: the verifier's signature is
    /// added to the release signatures.
    pub open spec fn released(self, verification: VerificationView) -> EscrowView {
        EscrowView {
            status: EscrowStatus::Released,
            signatures: self.signatures.push(verification.signature),
            ..self
        }
    }
}

/// Sets up the escrow for an order: the order's value, held under the
/// conditions that `requirements` names. Fails with `PaymentError` where the
/// value of the order exceeds what a [`Balance`] can hold.
pub fn setup_payment_escrow(order: &FulfillmentOrder, requirements: &FulfillmentRequirements) -> (r:
    Result<PaymentEscrow, Error>)
    ensures
        match r {
            Ok(escrow) => order_value(order@.products) <= Balance::MAX && escrow@
                == EscrowView::pending(order_value(order@.products) as Balance, requirements@),
            Err(e) => e == Error::PaymentError && order_value(order@.products) > Balance::MAX,
        },
{
    let amount = match value_of(&order.products) {
        Some(amount) => amount,
        None => {
            return Err(Error::PaymentError);
        },
    };
    let mut conditions: Vec<PaymentCondition> = Vec::new();
    conditions.push(PaymentCondition::Delivered);
    match requirements.delivery_deadline {
        Some(deadline) => {
            conditions.push(PaymentCondition::DeliveredBy(deadline));
        },
        None => {},
    }
    conditions.push(PaymentCondition::ConditionScore(requirements.min_condition_score));
    conditions.push(PaymentCondition::Signatures(requirements.release_signatures));
    let escrow = PaymentEscrow {
        amount,
        conditions,
        release_signatures: Vec::new(),
        status: EscrowStatus::Pending,
    };
    proof {
        assert(escrow@.conditions =~= conditions_of(requirements@));
        assert(escrow@.signatures =~= Seq::empty());
    }
    Ok(escrow)
}

/// Re-evaluates an escrow after `event` has been recorded for `shipment`:
/// a `Pending` escrow whose shipment stands as delivered and whose
/// conditions on the lifecycle all hold becomes `ConditionsMet`. Nothing
/// else changes, and no funds are released here.
pub fn check_payment_conditions(
    escrow: &mut PaymentEscrow,
    shipment: &Shipment,
    event: &TrackingEvent,
)
    ensures
        final(escrow)@ == old(escrow)@.after_event(shipment@, *event),
{
    if escrow.status != EscrowStatus::Pending || shipment.status != ShipmentStatus::Delivered {
        return ;
    }
    let mut i: usize = 0;
    while i < escrow.conditions.len()
        invariant
            i <= escrow.conditions.len(),
            *escrow == *old(escrow),
            forall|j: int|
                0 <= j < i ==> (#[trigger] escrow.conditions@[j]).met_by_event(shipment@, *event),
        decreases escrow.conditions.len() - i,
    {
        if !escrow.conditions[i].holds_after_event(shipment, event) {
            return ;
        }
        i += 1;
    }
    escrow.status = EscrowStatus::ConditionsMet;
}

/// Releases an escrow upon a verification. The escrow must be
/// `ConditionsMet` and its conditions on the verification (score of the
/// condition report, number of signatures) must hold; it then becomes
/// `Released` and keeps the verifier's signature. Otherwise the call fails
/// with `PaymentError` and the escrow is left as it was, so that release
/// can be tried again.
pub fn process_payment_release(escrow: &mut PaymentEscrow, verification: &DeliveryVerification) -> (r:
    Result<(), Error>)
    ensures
        r == if old(escrow)@.releasable(verification@) {
            Ok::<(), Error>(())
        } else {
            Err(Error::PaymentError)
        },
        final(escrow)@ == if old(escrow)@.releasable(verification@) {
            old(escrow)@.released(verification@)
        } else {
            old(escrow)@
        },
{
    if !can_release(escrow, verification) {
        return Err(Error::PaymentError);
    }
    escrow.release_signatures.push(copy_of(&verification.verifier_signature));
    escrow.status = EscrowStatus::Released;
    proof {
        assert(final(escrow)@.signatures =~= old(escrow)@.signatures.push(verification@.signature));
    }
    Ok(())
}

/// Tells whether a verification releases an escrow.
pub fn can_release(escrow: &PaymentEscrow, verification: &DeliveryVerification) -> (can: bool)
    ensures
        can == escrow@.releasable(verification@),
{
    if escrow.status != EscrowStatus::ConditionsMet {
        return false;
    }
    let collected = escrow.release_signatures.len();
    let mut i: usize = 0;
    while i < escrow.conditions.len()
        invariant
            i <= escrow.conditions.len(),
            collected == escrow@.signatures.len(),
            forall|j: int|
                0 <= j < i ==> (#[trigger] escrow.conditions@[j]).met_by_verification(
                    collected as nat,
                    verification@,
                ),
        decreases escrow.conditions.len() - i,
    {
        if !escrow.conditions[i].holds_of_verification(collected, verification) {
            proof {
                assert(!escrow@.conditions[i as int].met_by_verification(
                    escrow@.signatures.len(),
                    verification@,
                ));
            }
            return false;
        }
        i += 1;
    }
    true
}

/// Tells whether one of the release signatures of an escrow is a valid
/// signature over `message` under `key`.
pub fn has_endorsement(escrow: &PaymentEscrow, message: &Vec<u8>, key: &Vec<u8>) -> (found: bool)
    ensures
        found == escrow@.endorsed_under(message@, key@),
{
    let mut i: usize = 0;
    while i < escrow.release_signatures.len()
        invariant
            i <= escrow.release_signatures.len(),
            forall|j: int|
                0 <= j < i ==> !signature_valid(#[trigger] escrow@.signatures[j], message@, key@),
        decreases escrow.release_signatures.len() - i,
    {
        if check_signature(&escrow.release_signatures[i], message, key) {
            assert(signature_valid(escrow@.signatures[i as int], message@, key@));
            return true;
        }
        i += 1;
    }
    false
}

impl PaymentEscrow {
    /// Adds a release signature to those at hand.
    pub fn add_signature(&mut self, signature: Vec<u8>)
        ensures
            final(self)@ == old(self)@.endorsed(signature@),
    {
        self.release_signatures.push(signature);
        proof {
            assert(final(self)@.signatures =~= old(self)@.signatures.push(signature@));
        }
    }
}

} // verus!
