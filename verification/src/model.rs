//! The ledger as a mathematical value, and each operation as a function
//! from the ledger before to the outcome and the ledger after. The
//! executable ledger is proved against these functions, and what holds of
//! every run of the ledger is proved of them.

use crate::authentication::{AuthenticationEvent, AuthenticationView};
use crate::catalog::{
    carriers_distinct, chosen_carrier, chosen_warehouse_at, order_value, total_quantity,
    warehouses_distinct, CarrierView, OrderView, RequirementsView, WarehouseView,
};
use crate::escrow::{EscrowView, Transfer};
use crate::identity::{IdentityView, Role};
use crate::pqc::dilithium_signature;
use crate::seal::seals_order;
use crate::shipment::{ShipmentView, TrackingEvent};
use crate::types::{
    AccountId, Address, Balance, CarrierId, Context, Error, EscrowStatus, EventType, OrderId,
    ProductId, ShipmentId, ShipmentStatus, Timestamp, WarehouseId,
};
use crate::verification::{release_message, signature_valid, signed_message, VerificationView};
use vstd::prelude::*;

verus! {

/// An entry of the audit log.
#[derive(Clone, Copy, Debug, PartialEq, Eq, Structural)]
pub enum Event {
    ShipmentCreated { shipment_id: ShipmentId, order_id: OrderId, warehouse: WarehouseId, carrier: CarrierId },
    ShipmentUpdated { shipment_id: ShipmentId, status: ShipmentStatus, event_type: EventType },
    DeliveryVerified { shipment_id: ShipmentId, verifier: AccountId, timestamp: Timestamp },
    ProductAuthenticated { product_id: ProductId, authentic: bool, verifier: AccountId },
    ReleaseEndorsed { shipment_id: ShipmentId, endorser: AccountId },
}

/// What shipment creation settles before anything is written: where the
/// goods leave from, who carries them, and how much is put in escrow.
pub struct Plan {
    pub warehouse: WarehouseId,
    pub carrier: CarrierId,
    pub amount: Balance,
}

/// One call of an operation of the ledger, with everything that the call
/// is given. A creation carries the seal that was made for it and a
/// verification the signature, so that a call determines what it does.
pub enum Operation {
    CreateShipment {
        order_id: OrderId,
        destination: Address,
        requirements: RequirementsView,
        seal: Seq<u8>,
    },
    UpdateShipmentStatus { shipment_id: ShipmentId, event: TrackingEvent },
    VerifyDelivery {
        shipment_id: ShipmentId,
        proof: Seq<u8>,
        condition_report: Seq<u8>,
        signature: Seq<u8>,
    },
    AuthenticateProduct { product_id: ProductId, data: Seq<u8> },
    EndorseRelease { shipment_id: ShipmentId, signature: Seq<u8> },
    RegisterOrder { order_id: OrderId, order: OrderView },
    RegisterWarehouse { warehouse: WarehouseView },
    RegisterCarrier { carrier: CarrierView },
    RegisterProduct { product_id: ProductId, record: AuthenticationView },
    RegisterIdentity { account: AccountId, identity: IdentityView },
    SetSealingKey { key: Seq<u8> },
}

/// The whole ledger as a mathematical value. Shipments are numbered in the
/// order of their creation: the shipment `ShipmentId(i)` stands at index
/// `i`. The maps are keyed by the number inside the identifier.
pub struct LedgerView {
    pub shipments: Seq<ShipmentView>,
    pub orders: Map<u64, OrderView>,
    pub verifications: Map<u64, VerificationView>,
    pub warehouses: Seq<WarehouseView>,
    pub carriers: Seq<CarrierView>,
    pub products: Map<u64, AuthenticationView>,
    pub identities: Map<u64, IdentityView>,
    pub escrows: Map<u64, EscrowView>,
    pub sealing_key: Seq<u8>,
    pub events: Seq<Event>,
    pub transfers: Seq<Transfer>,
}

impl LedgerView {
    /// The ledger with nothing in it.
    pub open spec fn empty() -> LedgerView {
        LedgerView {
            shipments: Seq::empty(),
            orders: Map::empty(),
            verifications: Map::empty(),
            warehouses: Seq::empty(),
            carriers: Seq::empty(),
            products: Map::empty(),
            identities: Map::empty(),
            escrows: Map::empty(),
            sealing_key: Seq::empty(),
            events: Seq::empty(),
            transfers: Seq::empty(),
        }
    }

    /// Whether the ledger holds a shipment under `id`.
    pub open spec fn has_shipment(self, id: ShipmentId) -> bool {
        id.0 < self.shipments.len()
    }

    /// The shipment held under `id`.
    pub open spec fn shipment(self, id: ShipmentId) -> ShipmentView {
        self.shipments[id.0 as int]
    }

    /// Whether `account` is registered in the role `role`.
    pub open spec fn acts_as(self, account: AccountId, role: Role) -> bool {
        self.identities.contains_key(account.0) && self.identities[account.0].role == role
    }

    /// Whether the directory lists `carrier` as active.
    pub open spec fn carrier_active(self, carrier: CarrierId) -> bool {
        exists|i: int|
            0 <= i < self.carriers.len() && (#[trigger] self.carriers[i]).id == carrier
                && self.carriers[i].active
    }

    /// Whether `account` may act for `carrier`: `UnauthorizedAccess` unless
    /// the account is the carrier's registered operator, then
    /// `InvalidCarrier` unless the directory lists the carrier as active.
    pub open spec fn carrier_authorization(
        self,
        account: AccountId,
        carrier: CarrierId,
    ) -> Result<(), Error> {
        if !self.acts_as(account, Role::Carrier(carrier)) {
            Err(Error::UnauthorizedAccess)
        } else if !self.carrier_active(carrier) {
            Err(Error::InvalidCarrier)
        } else {
            Ok(())
        }
    }

    /// What creating a shipment settles, or why it cannot be created: the
    /// order must exist (`OrderNotFound`), a warehouse must fit
    /// (`InvalidWarehouse`), a carrier must fit the way from the warehouse
    /// to the destination (`InvalidCarrier`), and the order's value must be
    /// an amount (`PaymentError`).
    pub open spec fn plan(
        self,
        order_id: OrderId,
        destination: Address,
        requirements: RequirementsView,
    ) -> Result<Plan, Error> {
        if !self.orders.contains_key(order_id.0) {
            Err(Error::OrderNotFound)
        } else {
            let order = self.orders[order_id.0];
            match chosen_warehouse_at(
                self.warehouses,
                total_quantity(order.products),
                requirements,
            ) {
                None => Err(Error::InvalidWarehouse),
                Some(at) => {
                    let warehouse = self.warehouses[at];
                    match chosen_carrier(
                        self.carriers,
                        warehouse.location.region,
                        destination.region,
                        requirements,
                    ) {
                        Err(e) => Err(e),
                        Ok(carrier) => if order_value(order.products) > Balance::MAX {
                            Err(Error::PaymentError)
                        } else {
                            Ok(
                                Plan {
                                    warehouse: warehouse.id,
                                    carrier,
                                    amount: order_value(order.products) as Balance,
                                },
                            )
                        },
                    }
                },
            }
        }
    }

    /// Outcome of creating a shipment with the seal `seal`: the plan's
    /// error where there is no plan, `SealFailed` where `seal` is no seal of
    /// the order, else the identifier of the new shipment.
    pub open spec fn creation_outcome(
        self,
        order_id: OrderId,
        destination: Address,
        requirements: RequirementsView,
        seal: Seq<u8>,
    ) -> Result<ShipmentId, Error> {
        match self.plan(order_id, destination, requirements) {
            Err(e) => Err(e),
            Ok(_) => if !seals_order(seal, order_id) {
                Err(Error::SealFailed)
            } else {
                Ok(ShipmentId(self.shipments.len() as u64))
            },
        }
    }

    /// The ledger after a shipment has been created: one more shipment,
    /// with status `Created`; its escrow, `Pending`; one more log entry.
    pub open spec fn created(
        self,
        order_id: OrderId,
        destination: Address,
        requirements: RequirementsView,
        seal: Seq<u8>,
    ) -> LedgerView {
        let plan = self.plan(order_id, destination, requirements)->Ok_0;
        let id = ShipmentId(self.shipments.len() as u64);
        LedgerView {
            shipments: self.shipments.push(
                ShipmentView::created(order_id, plan.warehouse, destination, plan.carrier, seal),
            ),
            escrows: self.escrows.insert(id.0, EscrowView::pending(plan.amount, requirements)),
            events: self.events.push(
                Event::ShipmentCreated {
                    shipment_id: id,
                    order_id,
                    warehouse: plan.warehouse,
                    carrier: plan.carrier,
                },
            ),
            ..self
        }
    }

    /// Outcome of recording a tracking event: `ShipmentNotFound` where the
    /// shipment is unknown, else what [`Self::carrier_authorization`] says
    /// of the caller and the shipment's carrier.
    pub open spec fn update_outcome(self, ctx: Context, id: ShipmentId) -> Result<(), Error> {
        if !self.has_shipment(id) {
            Err(Error::ShipmentNotFound)
        } else {
            self.carrier_authorization(ctx.caller, self.shipment(id).carrier)
        }
    }

    /// The ledger after a tracking event has been recorded: the event is on
    /// the shipment's trail, the status has moved as the event asks, the
    /// shipment's escrow, if there is one, has been re-evaluated against
    /// the new state, and the log has one more entry.
    pub open spec fn updated(self, id: ShipmentId, event: TrackingEvent) -> LedgerView {
        let shipment = self.shipment(id).record(event);
        LedgerView {
            shipments: self.shipments.update(id.0 as int, shipment),
            escrows: if self.escrows.contains_key(id.0) {
                self.escrows.insert(id.0, self.escrows[id.0].after_event(shipment, event))
            } else {
                self.escrows
            },
            events: self.events.push(
                Event::ShipmentUpdated {
                    shipment_id: id,
                    status: shipment.status,
                    event_type: event.event_type,
                },
            ),
            ..self
        }
    }

    /// What stands against a verification before any signature is looked
    /// at: `ShipmentNotFound`; `NotDelivered` while the status is `Created`
    /// or `InTransit`; `AlreadyVerified` once it is `Verified` or a
    /// verification is on record; `UnauthorizedAccess` unless the caller is
    /// a registered verifier.
    pub open spec fn verification_admitted(self, ctx: Context, id: ShipmentId) -> Result<(), Error> {
        if !self.has_shipment(id) {
            Err(Error::ShipmentNotFound)
        } else if self.shipment(id).status.rank() < ShipmentStatus::Delivered.rank() {
            Err(Error::NotDelivered)
        } else if self.shipment(id).status != ShipmentStatus::Delivered
            || self.verifications.contains_key(id.0) {
            Err(Error::AlreadyVerified)
        } else if !self.acts_as(ctx.caller, Role::Verifier) {
            Err(Error::UnauthorizedAccess)
        } else {
            Ok(())
        }
    }

    /// The record that a verification leaves.
    pub open spec fn verification_record(
        ctx: Context,
        proof: Seq<u8>,
        condition_report: Seq<u8>,
        signature: Seq<u8>,
    ) -> VerificationView {
        VerificationView { proof, signature, completion_time: ctx.now, condition_report }
    }

    /// Outcome of verifying a delivery with the signature `signature`: what
    /// [`Self::verification_admitted`] objects; `VerificationFailed` unless
    /// the signature is valid over the signed message under the caller's
    /// registered key; `PaymentError` where the shipment has an escrow that
    /// the verification does not release.
    pub open spec fn verification_outcome(
        self,
        ctx: Context,
        id: ShipmentId,
        proof: Seq<u8>,
        condition_report: Seq<u8>,
        signature: Seq<u8>,
    ) -> Result<(), Error> {
        match self.verification_admitted(ctx, id) {
            Err(e) => Err(e),
            Ok(_) => if !signature_valid(
                signature,
                signed_message(id, proof, condition_report),
                self.identities[ctx.caller.0].verification_key,
            ) {
                Err(Error::VerificationFailed)
            } else if self.escrows.contains_key(id.0) && !self.escrows[id.0].releasable(
                Self::verification_record(ctx, proof, condition_report, signature),
            ) {
                Err(Error::PaymentError)
            } else {
                Ok(())
            },
        }
    }

    /// The signature that the ledger makes when the caller has a delivery
    /// verified without bringing a signature: the Dilithium signature of
    /// the signed message with the signing key registered for the caller.
    pub open spec fn ledger_signature(
        self,
        ctx: Context,
        id: ShipmentId,
        proof: Seq<u8>,
        condition_report: Seq<u8>,
    ) -> Seq<u8> {
        dilithium_signature(
            self.identities[ctx.caller.0].signing_key->0,
            signed_message(id, proof, condition_report),
        )
    }

    /// Outcome of verifying a delivery with a signature that the ledger
    /// makes: what [`Self::verification_admitted`] objects;
    /// `UnauthorizedAccess` where no signing key is registered for the
    /// caller; else the outcome of the verification with
    /// [`Self::ledger_signature`].
    pub open spec fn signing_outcome(
        self,
        ctx: Context,
        id: ShipmentId,
        proof: Seq<u8>,
        condition_report: Seq<u8>,
    ) -> Result<(), Error> {
        match self.verification_admitted(ctx, id) {
            Err(e) => Err(e),
            Ok(_) => if self.identities[ctx.caller.0].signing_key is None {
                Err(Error::UnauthorizedAccess)
            } else {
                self.verification_outcome(
                    ctx,
                    id,
                    proof,
                    condition_report,
                    self.ledger_signature(ctx, id, proof, condition_report),
                )
            },
        }
    }

    /// The ledger after a delivery has been verified: the verification is
    /// on record, the shipment is `Verified`, its escrow, if there is one,
    /// is `Released` with a transfer instructed for its amount, and the
    /// log has one more entry.
    pub open spec fn verified(
        self,
        ctx: Context,
        id: ShipmentId,
        proof: Seq<u8>,
        condition_report: Seq<u8>,
        signature: Seq<u8>,
    ) -> LedgerView {
        let record = Self::verification_record(ctx, proof, condition_report, signature);
        LedgerView {
            shipments: self.shipments.update(id.0 as int, self.shipment(id).verified()),
            verifications: self.verifications.insert(id.0, record),
            escrows: if self.escrows.contains_key(id.0) {
                self.escrows.insert(id.0, self.escrows[id.0].released(record))
            } else {
                self.escrows
            },
            transfers: if self.escrows.contains_key(id.0) {
                self.transfers.push(
                    Transfer { shipment_id: id, amount: self.escrows[id.0].amount },
                )
            } else {
                self.transfers
            },
            events: self.events.push(
                Event::DeliveryVerified {
                    shipment_id: id,
                    verifier: ctx.caller,
                    timestamp: ctx.now,
                },
            ),
            ..self
        }
    }

    /// Outcome of endorsing the release of an escrow with the signature
    /// `signature`: `ShipmentNotFound`; `PaymentError` unless the shipment
    /// has an escrow that is `ConditionsMet`; `UnauthorizedAccess` unless
    /// the caller is a registered verifier; `VerificationFailed` unless the
    /// signature is valid over the release message under the caller's
    /// registered key; `PaymentError` where the holder of that key has
    /// endorsed the release before.
    pub open spec fn endorsement_outcome(
        self,
        ctx: Context,
        id: ShipmentId,
        signature: Seq<u8>,
    ) -> Result<(), Error> {
        if !self.has_shipment(id) {
            Err(Error::ShipmentNotFound)
        } else if !self.escrows.contains_key(id.0) || self.escrows[id.0].status
            != EscrowStatus::ConditionsMet {
            Err(Error::PaymentError)
        } else if !self.acts_as(ctx.caller, Role::Verifier) {
            Err(Error::UnauthorizedAccess)
        } else {
            let message = release_message(id, self.escrows[id.0].amount);
            let key = self.identities[ctx.caller.0].verification_key;
            if !signature_valid(signature, message, key) {
                Err(Error::VerificationFailed)
            } else if self.escrows[id.0].endorsed_under(message, key) {
                Err(Error::PaymentError)
            } else {
                Ok(())
            }
        }
    }

    /// The ledger after a release has been endorsed: the signature is with
    /// the release signatures of the escrow, and the log has one more
    /// entry. The status of the escrow stays `ConditionsMet`.
    pub open spec fn endorsed(self, ctx: Context, id: ShipmentId, signature: Seq<u8>) -> LedgerView {
        LedgerView {
            escrows: self.escrows.insert(id.0, self.escrows[id.0].endorsed(signature)),
            events: self.events.push(
                Event::ReleaseEndorsed { shipment_id: id, endorser: ctx.caller },
            ),
            ..self
        }
    }

    /// Outcome of authenticating a product: `ProductNotFound` where nothing
    /// is registered for it, `UnauthorizedAccess` unless the caller is a
    /// registered verifier, else whether the claim is authentic.
    pub open spec fn authentication_outcome(
        self,
        ctx: Context,
        product: ProductId,
        data: Seq<u8>,
    ) -> Result<bool, Error> {
        if !self.products.contains_key(product.0) {
            Err(Error::ProductNotFound)
        } else if !self.acts_as(ctx.caller, Role::Verifier) {
            Err(Error::UnauthorizedAccess)
        } else {
            Ok(self.products[product.0].confirms(data))
        }
    }

    /// The ledger after a product has been checked: the check is on the
    /// product's trail with how it came out, and the log has one more
    /// entry.
    pub open spec fn authenticated(self, ctx: Context, product: ProductId, data: Seq<u8>) -> LedgerView {
        let authentic = self.products[product.0].confirms(data);
        let check = AuthenticationEvent {
            timestamp: ctx.now,
            location: self.identities[ctx.caller.0].location,
            verifier: ctx.caller,
            authentic,
        };
        LedgerView {
            products: self.products.insert(product.0, self.products[product.0].logged(check)),
            events: self.events.push(
                Event::ProductAuthenticated { product_id: product, authentic, verifier: ctx.caller },
            ),
            ..self
        }
    }

    /// Whether the directory lists a warehouse under `id`.
    pub open spec fn lists_warehouse(self, id: WarehouseId) -> bool {
        exists|i: int| 0 <= i < self.warehouses.len() && (#[trigger] self.warehouses[i]).id == id
    }

    /// Whether the directory lists a carrier under `id`.
    pub open spec fn lists_carrier(self, id: CarrierId) -> bool {
        exists|i: int| 0 <= i < self.carriers.len() && (#[trigger] self.carriers[i]).id == id
    }

    /// The ledger with an order added to the catalog; unchanged where the
    /// catalog has an order under that identifier.
    pub open spec fn with_order(self, id: OrderId, order: OrderView) -> LedgerView {
        if self.orders.contains_key(id.0) {
            self
        } else {
            LedgerView { orders: self.orders.insert(id.0, order), ..self }
        }
    }

    /// The ledger with a warehouse added at the end of the directory;
    /// unchanged where the directory lists its identifier.
    pub open spec fn with_warehouse(self, warehouse: WarehouseView) -> LedgerView {
        if self.lists_warehouse(warehouse.id) {
            self
        } else {
            LedgerView { warehouses: self.warehouses.push(warehouse), ..self }
        }
    }

    /// The ledger with a carrier added at the end of the directory;
    /// unchanged where the directory lists its identifier.
    pub open spec fn with_carrier(self, carrier: CarrierView) -> LedgerView {
        if self.lists_carrier(carrier.id) {
            self
        } else {
            LedgerView { carriers: self.carriers.push(carrier), ..self }
        }
    }

    /// The ledger with a product registered; unchanged where the product is
    /// registered already.
    pub open spec fn with_product(self, id: ProductId, data: AuthenticationView) -> LedgerView {
        if self.products.contains_key(id.0) {
            self
        } else {
            LedgerView { products: self.products.insert(id.0, data), ..self }
        }
    }

    /// The ledger with `identity` registered for `account`, in place of
    /// what was registered for it before.
    pub open spec fn with_identity(self, account: AccountId, identity: IdentityView) -> LedgerView {
        LedgerView { identities: self.identities.insert(account.0, identity), ..self }
    }

    /// The ledger with another sealing key.
    pub open spec fn with_sealing_key(self, key: Seq<u8>) -> LedgerView {
        LedgerView { sealing_key: key, ..self }
    }

    /// The ledger after one call: what the operation makes of it where the
    /// call succeeds, the ledger unchanged where the call is rejected.
    pub open spec fn step(self, ctx: Context, operation: Operation) -> LedgerView {
        match operation {
            Operation::CreateShipment { order_id, destination, requirements, seal } => {
                if self.creation_outcome(order_id, destination, requirements, seal) is Ok {
                    self.created(order_id, destination, requirements, seal)
                } else {
                    self
                }
            },
            Operation::UpdateShipmentStatus { shipment_id, event } => {
                if self.update_outcome(ctx, shipment_id) is Ok {
                    self.updated(shipment_id, event)
                } else {
                    self
                }
            },
            Operation::VerifyDelivery { shipment_id, proof, condition_report, signature } => {
                if self.verification_outcome(ctx, shipment_id, proof, condition_report, signature)
                    is Ok {
                    self.verified(ctx, shipment_id, proof, condition_report, signature)
                } else {
                    self
                }
            },
            Operation::AuthenticateProduct { product_id, data } => {
                if self.authentication_outcome(ctx, product_id, data) is Ok {
                    self.authenticated(ctx, product_id, data)
                } else {
                    self
                }
            },
            Operation::EndorseRelease { shipment_id, signature } => {
                if self.endorsement_outcome(ctx, shipment_id, signature) is Ok {
                    self.endorsed(ctx, shipment_id, signature)
                } else {
                    self
                }
            },
            Operation::RegisterOrder { order_id, order } => self.with_order(order_id, order),
            Operation::RegisterWarehouse { warehouse } => self.with_warehouse(warehouse),
            Operation::RegisterCarrier { carrier } => self.with_carrier(carrier),
            Operation::RegisterProduct { product_id, record } => self.with_product(product_id, record),
            Operation::RegisterIdentity { account, identity } => self.with_identity(
                account,
                identity,
            ),
            Operation::SetSealingKey { key } => self.with_sealing_key(key),
        }
    }

    /// The ledger after a sequence of calls, made one after the other.
    pub open spec fn run(self, calls: Seq<(Context, Operation)>) -> LedgerView
        decreases calls.len(),
    {
        if calls.len() == 0 {
            self
        } else {
            self.run(calls.drop_last()).step(calls.last().0, calls.last().1)
        }
    }

    /// Whether the escrow under `k` agrees with its shipment: there is such
    /// a shipment; it stands at `Delivered` if the escrow is
    /// `ConditionsMet`, at `Verified` if the escrow is `Released`, and
    /// short of `Verified` if the escrow is `Pending`.
    pub open spec fn escrow_agrees(self, k: u64) -> bool {
        &&& k < self.shipments.len()
        &&& self.escrows[k].status == EscrowStatus::ConditionsMet ==> self.shipments[k as int].status
            == ShipmentStatus::Delivered
        &&& self.escrows[k].status == EscrowStatus::Released ==> self.shipments[k as int].status
            == ShipmentStatus::Verified
        &&& self.escrows[k].status == EscrowStatus::Pending ==> self.shipments[k as int].status
            != ShipmentStatus::Verified
    }

    /// Whether a transfer is backed by an escrow: the shipment has an
    /// escrow, it is `Released`, and its amount is the transfer's.
    pub open spec fn transfer_backed(self, transfer: Transfer) -> bool {
        &&& self.escrows.contains_key(transfer.shipment_id.0)
        &&& self.escrows[transfer.shipment_id.0].status == EscrowStatus::Released
        &&& self.escrows[transfer.shipment_id.0].amount == transfer.amount
    }

    /// What holds of every ledger that the operations can reach: shipment
    /// identifiers can be counted; no warehouse and no carrier is listed
    /// twice; every shipment is well-formed; the shipments with a
    /// verification on record are those that stand at `Verified`; every
    /// escrow agrees with its shipment; every transfer is backed by an
    /// escrow, and no shipment has two transfers.
    pub open spec fn wf(self) -> bool {
        &&& self.shipments.len() <= u64::MAX
        &&& warehouses_distinct(self.warehouses)
        &&& carriers_distinct(self.carriers)
        &&& forall|i: int| 0 <= i < self.shipments.len() ==> (#[trigger] self.shipments[i]).wf()
        &&& forall|k: u64| #[trigger]
            self.verifications.contains_key(k) ==> k < self.shipments.len()
                && self.shipments[k as int].status == ShipmentStatus::Verified
        &&& forall|i: int|
            0 <= i < self.shipments.len() && (#[trigger] self.shipments[i]).status
                == ShipmentStatus::Verified ==> self.verifications.contains_key(i as u64)
        &&& forall|k: u64| #[trigger] self.escrows.contains_key(k) ==> self.escrow_agrees(k)
        &&& forall|i: int|
            0 <= i < self.transfers.len() ==> self.transfer_backed(#[trigger] self.transfers[i])
        &&& forall|i: int, j: int|
            0 <= i < j < self.transfers.len() ==> (#[trigger] self.transfers[i]).shipment_id
                != (#[trigger] self.transfers[j]).shipment_id
    }
}

} // verus!
