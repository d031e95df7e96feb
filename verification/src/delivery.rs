//! The ledger: the stores of every component and the operations on them.
//!
//! Every operation takes what the execution environment knows of the call
//! (the caller and the block time) as a [`Context`]. An operation either
//! succeeds and does all of what it does, or it is rejected and changes
//! nothing: every check comes before the first write. What an operation
//! returns and what it makes of the ledger is stated over the ledger's
//! view, a [`LedgerView`], by the functions of [`crate::model`].

use crate::authentication::{verify_product_authenticity, AuthenticationData, AuthenticationEvent};
use crate::catalog::{
    carriers_view, find_warehouse, select_carrier, warehouses_view, CarrierEntry, CarrierInfo,
    FulfillmentOrder, FulfillmentRequirements, WarehouseEntry, WarehouseInfo,
};
use crate::escrow::{
    can_release, check_payment_conditions, has_endorsement, process_payment_release,
    setup_payment_escrow, EscrowView, PaymentEscrow, Transfer,
};
use crate::identity::{Identity, Role};
use crate::laws::lemma_step_keeps_well_formed;
use crate::model::{Event, LedgerView, Operation, Plan};
use crate::pqc::{
    dilithium_accepts, dilithium_public, dilithium_signature, SEAL_KEY_BYTES, SIGNATURE_BYTES,
};
use crate::seal::{check_seal, seal_order, seals_order};
use crate::shipment::{Shipment, TrackingEvent};
use crate::types::{
    AccountId, Address, CarrierId, Context, Error, EscrowStatus, OrderId, ProductId, ShipmentId,
    ShipmentStatus, WarehouseId,
};
use crate::verification::{
    check_signature, message_to_endorse, message_to_sign, signed_message, DeliveryVerification,
};
use std::collections::HashMap;
use vstd::prelude::*;

verus! {

broadcast use vstd::std_specs::hash::group_hash_axioms;

/// The ledger of physical asset delivery. Shipments are kept in the order
/// of their creation and never removed; the shipment `ShipmentId(i)` is the
/// `i`-th created. Orders, products, identities, escrows and verifications
/// are kept under their identifiers; the directories of warehouses and
/// carriers keep the order of registration, which decides between equals.
pub struct PhysicalAssetDelivery {
    shipments: Vec<Shipment>,
    fulfillment_orders: HashMap<u64, FulfillmentOrder>,
    delivery_verifications: HashMap<u64, DeliveryVerification>,
    warehouses: Vec<WarehouseEntry>,
    carriers: Vec<CarrierEntry>,
    product_authentications: HashMap<u64, AuthenticationData>,
    identities: HashMap<u64, Identity>,
    conditional_payments: HashMap<u64, PaymentEscrow>,
    sealing_key: Vec<u8>,
    events: Vec<Event>,
    transfers: Vec<Transfer>,
}

impl View for PhysicalAssetDelivery {
    type V = LedgerView;

    closed spec fn view(&self) -> LedgerView {
        LedgerView {
            shipments: self.shipments@.map_values(|shipment: Shipment| shipment@),
            orders: self.fulfillment_orders@.map_values(|order: FulfillmentOrder| order@),
            verifications: self.delivery_verifications@.map_values(
                |verification: DeliveryVerification| verification@,
            ),
            warehouses: warehouses_view(self.warehouses@),
            carriers: carriers_view(self.carriers@),
            products: self.product_authentications@.map_values(
                |data: AuthenticationData| data@,
            ),
            identities: self.identities@.map_values(|identity: Identity| identity@),
            escrows: self.conditional_payments@.map_values(|escrow: PaymentEscrow| escrow@),
            sealing_key: self.sealing_key@,
            events: self.events@,
            transfers: self.transfers@,
        }
    }
}

impl PhysicalAssetDelivery {
    /// Whether the ledger is one that the operations can reach from the
    /// empty ledger; see [`LedgerView::wf`]. `new` makes such a ledger and
    /// every operation keeps it one.
    pub open spec fn wf(&self) -> bool {
        self@.wf()
    }

    /// A ledger with nothing in it.
    pub fn new() -> (ledger: PhysicalAssetDelivery)
        ensures
            ledger@ == LedgerView::empty(),
            ledger.wf(),
    {
        let ledger = PhysicalAssetDelivery {
            shipments: Vec::new(),
            fulfillment_orders: HashMap::new(),
            delivery_verifications: HashMap::new(),
            warehouses: Vec::new(),
            carriers: Vec::new(),
            product_authentications: HashMap::new(),
            identities: HashMap::new(),
            conditional_payments: HashMap::new(),
            sealing_key: Vec::new(),
            events: Vec::new(),
            transfers: Vec::new(),
        };
        proof {
            assert(ledger@.shipments =~= Seq::empty());
            assert(ledger@.orders =~= Map::empty());
            assert(ledger@.verifications =~= Map::empty());
            assert(ledger@.warehouses =~= Seq::empty());
            assert(ledger@.carriers =~= Seq::empty());
            assert(ledger@.products =~= Map::empty());
            assert(ledger@.identities =~= Map::empty());
            assert(ledger@.escrows =~= Map::empty());
        }
        ledger
    }

    /// Tells whether `account` may act for the carrier `carrier_id`:
    /// `UnauthorizedAccess` unless the account is registered as the
    /// carrier's operator, then `InvalidCarrier` unless the directory lists
    /// the carrier as active.
    pub fn verify_carrier_auth(&self, account: AccountId, carrier_id: CarrierId) -> (r: Result<
        (),
        Error,
    >)
        ensures
            r == self@.carrier_authorization(account, carrier_id),
    {
        let registered = match self.identities.get(&account.0) {
            Some(identity) => identity.role() == Role::Carrier(carrier_id),
            None => false,
        };
        if !registered {
            return Err(Error::UnauthorizedAccess);
        }
        let mut i: usize = 0;
        while i < self.carriers.len()
            invariant
                i <= self.carriers.len(),
                self@.acts_as(account, Role::Carrier(carrier_id)),
                forall|j: int|
                    0 <= j < i ==> !((#[trigger] self@.carriers[j]).id == carrier_id
                        && self@.carriers[j].active),
            decreases self.carriers.len() - i,
        {
            if self.carriers[i].id == carrier_id && self.carriers[i].info.active {
                assert(self@.carriers[i as int].id == carrier_id && self@.carriers[i as int].active);
                return Ok(());
            }
            i += 1;
        }
        Err(Error::InvalidCarrier)
    }

    /// Records a tracking event for a shipment. The shipment must exist
    /// (`ShipmentNotFound`) and the caller must be authorized for its
    /// carrier (see [`Self::verify_carrier_auth`]); both are checked before
    /// anything is written. The event is then appended to the shipment's
    /// trail; a pickup moves the status to `InTransit` and a delivery to
    /// `Delivered`, unless the shipment is there or further already; every
    /// other event leaves the status. The shipment's escrow, if it has one,
    /// is re-evaluated against the new state, and the update is logged.
    pub fn update_shipment_status(
        &mut self,
        ctx: Context,
        shipment_id: ShipmentId,
        event: TrackingEvent,
    ) -> (r: Result<(), Error>)
        ensures
            r == old(self)@.update_outcome(ctx, shipment_id),
            final(self)@ == if r is Ok {
                old(self)@.updated(shipment_id, event)
            } else {
                old(self)@
            },
            old(self).wf() ==> final(self).wf(),
    {
        if shipment_id.0 >= self.shipments.len() as u64 {
            return Err(Error::ShipmentNotFound);
        }
        let index = shipment_id.0 as usize;
        let carrier = self.shipments[index].carrier;
        match self.verify_carrier_auth(ctx.caller, carrier) {
            Err(e) => {
                return Err(e);
            },
            Ok(_) => {},
        }
        self.shipments[index].record_event(event);
        let status = self.shipments[index].status;
        match self.conditional_payments.remove(&shipment_id.0) {
            Some(escrow) => {
                let mut escrow = escrow;
                check_payment_conditions(&mut escrow, &self.shipments[index], &event);
                self.conditional_payments.insert(shipment_id.0, escrow);
            },
            None => {},
        }
        self.events.push(
            Event::ShipmentUpdated { shipment_id, status, event_type: event.event_type },
        );
        proof {
            let before = old(self)@;
            let after = before.updated(shipment_id, event);
            assert(final(self)@.shipments =~= after.shipments);
            assert(final(self)@.escrows =~= after.escrows);
            if before.wf() {
                lemma_step_keeps_well_formed(
                    before,
                    ctx,
                    Operation::UpdateShipmentStatus { shipment_id, event },
                );
            }
        }
        Ok(())
    }

    /// Adds an order to the catalog. Returns `false`, and changes nothing,
    /// where the catalog has an order under that identifier.
    pub fn register_order(&mut self, id: OrderId, order: FulfillmentOrder) -> (added: bool)
        ensures
            added == !old(self)@.orders.contains_key(id.0),
            final(self)@ == old(self)@.with_order(id, order@),
            old(self).wf() ==> final(self).wf(),
    {
        if self.fulfillment_orders.contains_key(&id.0) {
            return false;
        }
        self.fulfillment_orders.insert(id.0, order);
        proof {
            assert(final(self)@.orders =~= old(self)@.orders.insert(id.0, order@));
            if old(self)@.wf() {
                lemma_step_keeps_well_formed(
                    old(self)@,
                    Context { caller: AccountId(0), now: 0 },
                    Operation::RegisterOrder { order_id: id, order: order@ },
                );
            }
        }
        true
    }

    /// Adds a warehouse at the end of the directory. Returns `false`, and
    /// changes nothing, where the directory lists the identifier already.
    pub fn register_warehouse(&mut self, id: WarehouseId, info: WarehouseInfo) -> (added: bool)
        ensures
            added == !old(self)@.lists_warehouse(id),
            final(self)@ == old(self)@.with_warehouse((WarehouseEntry { id, info })@),
            old(self).wf() ==> final(self).wf(),
    {
        let mut i: usize = 0;
        while i < self.warehouses.len()
            invariant
                i <= self.warehouses.len(),
                *self == *old(self),
                forall|j: int| 0 <= j < i ==> (#[trigger] self@.warehouses[j]).id != id,
            decreases self.warehouses.len() - i,
        {
            if self.warehouses[i].id == id {
                assert(self@.warehouses[i as int].id == id);
                return false;
            }
            i += 1;
        }
        let entry = WarehouseEntry { id, info };
        self.warehouses.push(entry);
        proof {
            assert(final(self)@.warehouses =~= old(self)@.warehouses.push(entry@));
            if old(self)@.wf() {
                lemma_step_keeps_well_formed(
                    old(self)@,
                    Context { caller: AccountId(0), now: 0 },
                    Operation::RegisterWarehouse { warehouse: entry@ },
                );
            }
        }
        true
    }

    /// Adds a carrier at the end of the directory. Returns `false`, and
    /// changes nothing, where the directory lists the identifier already.
    pub fn register_carrier(&mut self, id: CarrierId, info: CarrierInfo) -> (added: bool)
        ensures
            added == !old(self)@.lists_carrier(id),
            final(self)@ == old(self)@.with_carrier((CarrierEntry { id, info })@),
            old(self).wf() ==> final(self).wf(),
    {
        let mut i: usize = 0;
        while i < self.carriers.len()
            invariant
                i <= self.carriers.len(),
                *self == *old(self),
                forall|j: int| 0 <= j < i ==> (#[trigger] self@.carriers[j]).id != id,
            decreases self.carriers.len() - i,
        {
            if self.carriers[i].id == id {
                assert(self@.carriers[i as int].id == id);
                return false;
            }
            i += 1;
        }
        let entry = CarrierEntry { id, info };
        self.carriers.push(entry);
        proof {
            assert(final(self)@.carriers =~= old(self)@.carriers.push(entry@));
            if old(self)@.wf() {
                lemma_step_keeps_well_formed(
                    old(self)@,
                    Context { caller: AccountId(0), now: 0 },
                    Operation::RegisterCarrier { carrier: entry@ },
                );
            }
        }
        true
    }

    /// Registers a product with what its manufacturer declared. Returns
    /// `false`, and changes nothing, where the product is registered
    /// already: a product's audit trail is never replaced.
    pub fn register_product(&mut self, id: ProductId, data: AuthenticationData) -> (added: bool)
        ensures
            added == !old(self)@.products.contains_key(id.0),
            final(self)@ == old(self)@.with_product(id, data@),
            old(self).wf() ==> final(self).wf(),
    {
        if self.product_authentications.contains_key(&id.0) {
            return false;
        }
        self.product_authentications.insert(id.0, data);
        proof {
            assert(final(self)@.products =~= old(self)@.products.insert(id.0, data@));
            if old(self)@.wf() {
                lemma_step_keeps_well_formed(
                    old(self)@,
                    Context { caller: AccountId(0), now: 0 },
                    Operation::RegisterProduct { product_id: id, record: data@ },
                );
            }
        }
        true
    }

    /// Registers an identity for an account, in place of any earlier one.
    pub fn register_identity(&mut self, account: AccountId, identity: Identity)
        ensures
            final(self)@ == old(self)@.with_identity(account, identity@),
            old(self).wf() ==> final(self).wf(),
    {
        self.identities.insert(account.0, identity);
        proof {
            assert(final(self)@.identities =~= old(self)@.identities.insert(
                account.0,
                identity@,
            ));
            if old(self)@.wf() {
                lemma_step_keeps_well_formed(
                    old(self)@,
                    Context { caller: AccountId(0), now: 0 },
                    Operation::RegisterIdentity { account, identity: identity@ },
                );
            }
        }
    }

    /// Sets the Kyber public key under which provenance seals are made.
    pub fn set_sealing_key(&mut self, key: Vec<u8>)
        ensures
            final(self)@ == old(self)@.with_sealing_key(key@),
            old(self).wf() ==> final(self).wf(),
    {
        self.sealing_key = key;
        proof {
            if old(self)@.wf() {
                lemma_step_keeps_well_formed(
                    old(self)@,
                    Context { caller: AccountId(0), now: 0 },
                    Operation::SetSealingKey { key: final(self)@.sealing_key },
                );
            }
        }
    }

    /// The identifier that the next shipment will get: the number of
    /// shipments created so far. No shipment holds it yet.
    pub fn generate_shipment_id(&self) -> (id: ShipmentId)
        ensures
            id == ShipmentId(self@.shipments.len() as u64),
            !self@.has_shipment(id),
    {
        ShipmentId(self.shipments.len() as u64)
    }

    /// Makes a provenance seal for an order under the ledger's sealing key.
    /// Two seals of one order differ; each has the form of a seal of that
    /// order. Fails with `SealFailed` where the sealing key is no Kyber
    /// public key or no randomness can be had.
    pub fn generate_quantum_seal(&self, order_id: OrderId) -> (r: Result<Vec<u8>, Error>)
        ensures
            match r {
                Ok(seal) => seals_order(seal@, order_id) && self@.sealing_key.len()
                    == SEAL_KEY_BYTES,
                Err(e) => e == Error::SealFailed,
            },
    {
        seal_order(&self.sealing_key, order_id)
    }

    /// Settles where a shipment for an order would leave from, who would
    /// carry it and what its escrow would be, without writing anything.
    pub fn plan_shipment(
        &self,
        order_id: OrderId,
        destination: Address,
        requirements: &FulfillmentRequirements,
    ) -> (r: Result<(WarehouseId, CarrierId, PaymentEscrow), Error>)
        ensures
            match r {
                Ok((warehouse, carrier, escrow)) => {
                    &&& self@.plan(order_id, destination, requirements@) == Ok::<Plan, Error>(
                        Plan { warehouse, carrier, amount: escrow.amount },
                    )
                    &&& escrow@ == EscrowView::pending(escrow.amount, requirements@)
                },
                Err(e) => self@.plan(order_id, destination, requirements@) == Err::<Plan, Error>(e),
            },
    {
        let order = match self.fulfillment_orders.get(&order_id.0) {
            Some(order) => order,
            None => {
                return Err(Error::OrderNotFound);
            },
        };
        let at = match find_warehouse(&self.warehouses, order, requirements) {
            Some(at) => at,
            None => {
                return Err(Error::InvalidWarehouse);
            },
        };
        let warehouse = self.warehouses[at].id;
        let origin = self.warehouses[at].info.location.region;
        let carrier = match select_carrier(
            &self.carriers,
            origin,
            destination.region,
            requirements,
        ) {
            Ok(carrier) => carrier,
            Err(e) => {
                return Err(e);
            },
        };
        match setup_payment_escrow(order, requirements) {
            Ok(escrow) => Ok((warehouse, carrier, escrow)),
            Err(e) => Err(e),
        }
    }

    /// Creates a shipment for an order, with a provenance seal made
    /// elsewhere. The order must exist (`OrderNotFound`), a warehouse and a
    /// carrier must fit (`InvalidWarehouse`, `InvalidCarrier`), the order's
    /// value must be an amount (`PaymentError`), and the seal must have the
    /// form of a seal of the order (`SealFailed`). The new shipment gets
    /// the next identifier, status `Created` and a `Pending` escrow over
    /// the order's value, and its creation is logged. Any caller may create
    /// a shipment; the context plays no part.
    pub fn create_shipment_sealed(
        &mut self,
        _ctx: Context,
        order_id: OrderId,
        destination: Address,
        requirements: FulfillmentRequirements,
        seal: Vec<u8>,
    ) -> (r: Result<ShipmentId, Error>)
        ensures
            r == old(self)@.creation_outcome(order_id, destination, requirements@, seal@),
            final(self)@ == if r is Ok {
                old(self)@.created(order_id, destination, requirements@, seal@)
            } else {
                old(self)@
            },
            old(self).wf() ==> final(self).wf(),
    {
        let (warehouse, carrier, escrow) = match self.plan_shipment(
            order_id,
            destination,
            &requirements,
        ) {
            Ok(plan) => plan,
            Err(e) => {
                return Err(e);
            },
        };
        if !check_seal(&seal, order_id) {
            return Err(Error::SealFailed);
        }
        let ghost sealed = seal@;
        let id = self.commit_shipment(order_id, destination, warehouse, carrier, escrow, seal);
        proof {
            if old(self)@.wf() {
                lemma_step_keeps_well_formed(
                    old(self)@,
                    _ctx,
                    Operation::CreateShipment {
                        order_id,
                        destination,
                        requirements: requirements@,
                        seal: sealed,
                    },
                );
            }
        }
        Ok(id)
    }

    /// Creates a shipment for an order: chooses warehouse and carrier, seals
    /// the order under the ledger's sealing key, and opens the escrow. The
    /// outcome is that of [`Self::create_shipment_sealed`] for the seal that
    /// was made; where no seal could be made, it is `SealFailed`.
    pub fn create_shipment(
        &mut self,
        _ctx: Context,
        order_id: OrderId,
        destination: Address,
        requirements: FulfillmentRequirements,
    ) -> (r: Result<ShipmentId, Error>)
        ensures
            exists|seal: Seq<u8>|
                {
                    &&& r == #[trigger] old(self)@.creation_outcome(
                        order_id,
                        destination,
                        requirements@,
                        seal,
                    )
                    &&& final(self)@ == if r is Ok {
                        old(self)@.created(order_id, destination, requirements@, seal)
                    } else {
                        old(self)@
                    }
                },
            r is Ok ==> old(self)@.sealing_key.len() == SEAL_KEY_BYTES,
            old(self)@.plan(order_id, destination, requirements@) matches Err(e) ==> r == Err::<
                ShipmentId,
                Error,
            >(e),
            old(self).wf() ==> final(self).wf(),
    {
        let ghost before = self@;
        let (warehouse, carrier, escrow) = match self.plan_shipment(
            order_id,
            destination,
            &requirements,
        ) {
            Ok(plan) => plan,
            Err(e) => {
                proof {
                    let any = Seq::<u8>::empty();
                    assert(before.creation_outcome(order_id, destination, requirements@, any)
                        == Err::<ShipmentId, Error>(e));
                }
                return Err(e);
            },
        };
        let seal = match self.generate_quantum_seal(order_id) {
            Ok(seal) => seal,
            Err(e) => {
                proof {
                    let none = Seq::<u8>::empty();
                    assert(!seals_order(none, order_id));
                    assert(before.creation_outcome(order_id, destination, requirements@, none)
                        == Err::<ShipmentId, Error>(Error::SealFailed));
                }
                return Err(e);
            },
        };
        let ghost made = seal@;
        let id = self.commit_shipment(order_id, destination, warehouse, carrier, escrow, seal);
        proof {
            assert(Ok::<ShipmentId, Error>(id) == before.creation_outcome(
                order_id,
                destination,
                requirements@,
                made,
            ));
            if before.wf() {
                lemma_step_keeps_well_formed(
                    before,
                    _ctx,
                    Operation::CreateShipment {
                        order_id,
                        destination,
                        requirements: requirements@,
                        seal: made,
                    },
                );
            }
        }
        Ok(id)
    }

    /// Writes a planned shipment: the record, its escrow and the log entry.
    fn commit_shipment(
        &mut self,
        order_id: OrderId,
        destination: Address,
        warehouse: WarehouseId,
        carrier: CarrierId,
        escrow: PaymentEscrow,
        seal: Vec<u8>,
    ) -> (id: ShipmentId)
        ensures
            id == ShipmentId(old(self)@.shipments.len() as u64),
            old(self)@.shipments.len() < u64::MAX,
            final(self)@ == (LedgerView {
                shipments: old(self)@.shipments.push(
                    crate::shipment::ShipmentView::created(
                        order_id,
                        warehouse,
                        destination,
                        carrier,
                        seal@,
                    ),
                ),
                escrows: old(self)@.escrows.insert(id.0, escrow@),
                events: old(self)@.events.push(
                    Event::ShipmentCreated { shipment_id: id, order_id, warehouse, carrier },
                ),
                ..old(self)@
            }),
    {
        let id = self.generate_shipment_id();
        let shipment = Shipment::new(order_id, warehouse, destination, carrier, seal);
        self.shipments.push(shipment);
        assert(self.shipments.len() == old(self).shipments.len() + 1);
        self.conditional_payments.insert(id.0, escrow);
        self.events.push(Event::ShipmentCreated { shipment_id: id, order_id, warehouse, carrier });
        proof {
            let after = final(self)@;
            assert(after.shipments =~= old(self)@.shipments.push(shipment@));
            assert(after.escrows =~= old(self)@.escrows.insert(id.0, escrow@));
        }
        id
    }

    /// Where a verifier operates; `UnauthorizedAccess` unless `account` is
    /// a registered verifier.
    pub fn get_verifier_location(&self, account: AccountId) -> (r: Result<Address, Error>)
        ensures
            r == if self@.acts_as(account, Role::Verifier) {
                Ok::<Address, Error>(self@.identities[account.0].location)
            } else {
                Err(Error::UnauthorizedAccess)
            },
    {
        match self.identities.get(&account.0) {
            Some(identity) => if identity.role() == Role::Verifier {
                Ok(identity.location())
            } else {
                Err(Error::UnauthorizedAccess)
            },
            None => Err(Error::UnauthorizedAccess),
        }
    }

    /// Signs a delivery with the signing key registered for `account`;
    /// `None` where the registry holds no signing key for it. The signature
    /// is the one that Dilithium makes of the signed message with that
    /// key; Dilithium verification accepts it under the public half of the
    /// key.
    pub fn sign_delivery_verification(
        &self,
        account: AccountId,
        shipment_id: ShipmentId,
        proof: &Vec<u8>,
        condition_report: &Vec<u8>,
    ) -> (signature: Option<Vec<u8>>)
        ensures
            match signature {
                Some(bytes) => {
                    &&& self@.identities.contains_key(account.0)
                    &&& self@.identities[account.0].signing_key matches Some(keypair)
                    &&& bytes@ == dilithium_signature(
                        keypair,
                        signed_message(shipment_id, proof@, condition_report@),
                    )
                    &&& bytes@.len() == SIGNATURE_BYTES
                    &&& dilithium_accepts(
                        bytes@,
                        signed_message(shipment_id, proof@, condition_report@),
                        dilithium_public(keypair),
                    )
                },
                None => !self@.identities.contains_key(account.0)
                    || self@.identities[account.0].signing_key is None,
            },
    {
        match self.identities.get(&account.0) {
            Some(identity) => {
                let message = message_to_sign(shipment_id, proof, condition_report);
                identity.sign(&message)
            },
            None => None,
        }
    }

    /// Tells what stands against a verification before any signature is
    /// looked at.
    pub fn admit_verification(&self, ctx: Context, shipment_id: ShipmentId) -> (r: Result<(), Error>)
        ensures
            r == self@.verification_admitted(ctx, shipment_id),
    {
        if shipment_id.0 >= self.shipments.len() as u64 {
            return Err(Error::ShipmentNotFound);
        }
        let status = self.shipments[shipment_id.0 as usize].status;
        if status.position() < 2 {
            return Err(Error::NotDelivered);
        }
        if status != ShipmentStatus::Delivered || self.delivery_verifications.contains_key(
            &shipment_id.0,
        ) {
            return Err(Error::AlreadyVerified);
        }
        match self.get_verifier_location(ctx.caller) {
            Ok(_) => Ok(()),
            Err(e) => Err(e),
        }
    }

    /// Verifies a delivery with a signature that the verifier made
    /// elsewhere over [`crate::verification::signed_message`]. On success
    /// the verification is on record for good, the shipment is `Verified`
    /// and its escrow, if it has one, is released.
    pub fn verify_delivery_signed(
        &mut self,
        ctx: Context,
        shipment_id: ShipmentId,
        proof: Vec<u8>,
        condition_report: Vec<u8>,
        signature: Vec<u8>,
    ) -> (r: Result<(), Error>)
        ensures
            r == old(self)@.verification_outcome(
                ctx,
                shipment_id,
                proof@,
                condition_report@,
                signature@,
            ),
            final(self)@ == if r is Ok {
                old(self)@.verified(ctx, shipment_id, proof@, condition_report@, signature@)
            } else {
                old(self)@
            },
            old(self).wf() ==> final(self).wf(),
    {
        match self.admit_verification(ctx, shipment_id) {
            Err(e) => {
                return Err(e);
            },
            Ok(_) => {},
        }
        assert(shipment_id.0 < self.shipments.len());
        let index = shipment_id.0 as usize;
        let message = message_to_sign(shipment_id, &proof, &condition_report);
        let valid = match self.identities.get(&ctx.caller.0) {
            Some(identity) => check_signature(&signature, &message, identity.verification_key()),
            None => false,
        };
        if !valid {
            return Err(Error::VerificationFailed);
        }
        let verification = DeliveryVerification {
            proof_of_delivery: proof,
            verifier_signature: signature,
            completion_time: ctx.now,
            condition_report,
        };
        let releasable = match self.conditional_payments.get(&shipment_id.0) {
            Some(escrow) => can_release(escrow, &verification),
            None => true,
        };
        if !releasable {
            return Err(Error::PaymentError);
        }
        match self.conditional_payments.remove(&shipment_id.0) {
            Some(escrow) => {
                let mut escrow = escrow;
                let _ = process_payment_release(&mut escrow, &verification);
                self.transfers.push(Transfer { shipment_id, amount: escrow.amount });
                self.conditional_payments.insert(shipment_id.0, escrow);
            },
            None => {},
        }
        self.shipments[index].mark_verified();
        self.delivery_verifications.insert(shipment_id.0, verification);
        self.events.push(
            Event::DeliveryVerified { shipment_id, verifier: ctx.caller, timestamp: ctx.now },
        );
        proof {
            let after = old(self)@.verified(
                ctx,
                shipment_id,
                verification@.proof,
                verification@.condition_report,
                verification@.signature,
            );
            assert(final(self)@.shipments =~= after.shipments);
            assert(final(self)@.escrows =~= after.escrows);
            assert(final(self)@.verifications =~= after.verifications);
            if old(self)@.wf() {
                lemma_step_keeps_well_formed(
                    old(self)@,
                    ctx,
                    Operation::VerifyDelivery {
                        shipment_id,
                        proof: verification@.proof,
                        condition_report: verification@.condition_report,
                        signature: verification@.signature,
                    },
                );
            }
        }
        Ok(())
    }

    /// Verifies a delivery: signs the proof and the condition report with
    /// the caller's registered signing key and goes on as
    /// [`Self::verify_delivery_signed`] does with that signature. Fails
    /// with `UnauthorizedAccess` where the registry holds no signing key
    /// for the caller. Where the caller's registered public key is the
    /// public half of that signing key, the signature is valid, so that the
    /// verification succeeds unless the shipment has an escrow that it does
    /// not release.
    pub fn verify_delivery(
        &mut self,
        ctx: Context,
        shipment_id: ShipmentId,
        proof: Vec<u8>,
        condition_report: Vec<u8>,
    ) -> (r: Result<(), Error>)
        ensures
            r == old(self)@.signing_outcome(ctx, shipment_id, proof@, condition_report@),
            final(self)@ == if r is Ok {
                old(self)@.verified(
                    ctx,
                    shipment_id,
                    proof@,
                    condition_report@,
                    old(self)@.ledger_signature(ctx, shipment_id, proof@, condition_report@),
                )
            } else {
                old(self)@
            },
            old(self)@.verification_admitted(ctx, shipment_id) is Ok && old(
                self,
            )@.identities[ctx.caller.0].keys_match() ==> r == if old(self)@.escrows.contains_key(
                shipment_id.0,
            ) && !old(self)@.escrows[shipment_id.0].releasable(
                LedgerView::verification_record(
                    ctx,
                    proof@,
                    condition_report@,
                    old(self)@.ledger_signature(ctx, shipment_id, proof@, condition_report@),
                ),
            ) {
                Err::<(), Error>(Error::PaymentError)
            } else {
                Ok::<(), Error>(())
            },
            old(self).wf() ==> final(self).wf(),
    {
        match self.admit_verification(ctx, shipment_id) {
            Err(e) => {
                return Err(e);
            },
            Ok(_) => {},
        }
        let signature = match self.sign_delivery_verification(
            ctx.caller,
            shipment_id,
            &proof,
            &condition_report,
        ) {
            Some(signature) => signature,
            None => {
                return Err(Error::UnauthorizedAccess);
            },
        };
        self.verify_delivery_signed(ctx, shipment_id, proof, condition_report, signature)
    }

    /// Endorses the release of the escrow of a shipment: a registered
    /// verifier brings a signature over
    /// [`crate::verification::release_message`], and the signature is put
    /// with the release signatures of the escrow, which count towards the
    /// number that the escrow asks for. The escrow must be `ConditionsMet`
    /// (`PaymentError`), the signature must be valid under the caller's
    /// registered key (`VerificationFailed`), and the holder of that key
    /// must not have endorsed before (`PaymentError`). No funds are
    /// released here.
    pub fn endorse_release(
        &mut self,
        ctx: Context,
        shipment_id: ShipmentId,
        signature: Vec<u8>,
    ) -> (r: Result<(), Error>)
        ensures
            r == old(self)@.endorsement_outcome(ctx, shipment_id, signature@),
            final(self)@ == if r is Ok {
                old(self)@.endorsed(ctx, shipment_id, signature@)
            } else {
                old(self)@
            },
            old(self).wf() ==> final(self).wf(),
    {
        if shipment_id.0 >= self.shipments.len() as u64 {
            return Err(Error::ShipmentNotFound);
        }
        let escrow = match self.conditional_payments.get(&shipment_id.0) {
            Some(escrow) => escrow,
            None => {
                return Err(Error::PaymentError);
            },
        };
        if escrow.status != EscrowStatus::ConditionsMet {
            return Err(Error::PaymentError);
        }
        let identity = match self.identities.get(&ctx.caller.0) {
            Some(identity) => identity,
            None => {
                return Err(Error::UnauthorizedAccess);
            },
        };
        if identity.role() != Role::Verifier {
            return Err(Error::UnauthorizedAccess);
        }
        let message = message_to_endorse(shipment_id, escrow.amount);
        if !check_signature(&signature, &message, identity.verification_key()) {
            return Err(Error::VerificationFailed);
        }
        if has_endorsement(escrow, &message, identity.verification_key()) {
            return Err(Error::PaymentError);
        }
        let ghost brought = signature@;
        match self.conditional_payments.remove(&shipment_id.0) {
            Some(escrow) => {
                let mut escrow = escrow;
                escrow.add_signature(signature);
                self.conditional_payments.insert(shipment_id.0, escrow);
            },
            None => {},
        }
        self.events.push(Event::ReleaseEndorsed { shipment_id, endorser: ctx.caller });
        proof {
            let after = old(self)@.endorsed(ctx, shipment_id, brought);
            assert(final(self)@.escrows =~= after.escrows);
            if old(self)@.wf() {
                lemma_step_keeps_well_formed(
                    old(self)@,
                    ctx,
                    Operation::EndorseRelease { shipment_id, signature: brought },
                );
            }
        }
        Ok(())
    }

    /// Checks a claim of authenticity for a product and logs the check, with
    /// how it came out, in the product's audit trail. Only registered
    /// verifiers may check.
    pub fn authenticate_product(
        &mut self,
        ctx: Context,
        product_id: ProductId,
        authentication_data: Vec<u8>,
    ) -> (r: Result<bool, Error>)
        ensures
            r == old(self)@.authentication_outcome(ctx, product_id, authentication_data@),
            final(self)@ == if r is Ok {
                old(self)@.authenticated(ctx, product_id, authentication_data@)
            } else {
                old(self)@
            },
            old(self).wf() ==> final(self).wf(),
    {
        if !self.product_authentications.contains_key(&product_id.0) {
            return Err(Error::ProductNotFound);
        }
        let location = match self.get_verifier_location(ctx.caller) {
            Ok(location) => location,
            Err(e) => {
                return Err(e);
            },
        };
        let mut authentic = false;
        match self.product_authentications.remove(&product_id.0) {
            Some(data) => {
                let mut data = data;
                authentic = verify_product_authenticity(&data, authentication_data.as_slice());
                data.log(
                    AuthenticationEvent {
                        timestamp: ctx.now,
                        location,
                        verifier: ctx.caller,
                        authentic,
                    },
                );
                self.product_authentications.insert(product_id.0, data);
            },
            None => {},
        }
        self.events.push(
            Event::ProductAuthenticated { product_id, authentic, verifier: ctx.caller },
        );
        proof {
            let after = old(self)@.authenticated(ctx, product_id, authentication_data@);
            assert(final(self)@.products =~= after.products);
            if old(self)@.wf() {
                lemma_step_keeps_well_formed(
                    old(self)@,
                    ctx,
                    Operation::AuthenticateProduct {
                        product_id,
                        data: authentication_data@,
                    },
                );
            }
        }
        Ok(authentic)
    }

    /// The shipment held under `id`, if there is one.
    pub fn shipment(&self, id: ShipmentId) -> (r: Option<&Shipment>)
        ensures
            match r {
                Some(shipment) => self@.has_shipment(id) && shipment@ == self@.shipment(id),
                None => !self@.has_shipment(id),
            },
    {
        if id.0 < self.shipments.len() as u64 {
            Some(&self.shipments[id.0 as usize])
        } else {
            None
        }
    }

    /// The escrow of the shipment `id`, if it has one.
    pub fn escrow(&self, id: ShipmentId) -> (r: Option<&PaymentEscrow>)
        ensures
            match r {
                Some(escrow) => self@.escrows.contains_key(id.0) && escrow@ == self@.escrows[id.0],
                None => !self@.escrows.contains_key(id.0),
            },
    {
        self.conditional_payments.get(&id.0)
    }

    /// The verification of the shipment `id`, if it has been verified.
    pub fn verification(&self, id: ShipmentId) -> (r: Option<&DeliveryVerification>)
        ensures
            match r {
                Some(verification) => self@.verifications.contains_key(id.0) && verification@
                    == self@.verifications[id.0],
                None => !self@.verifications.contains_key(id.0),
            },
    {
        self.delivery_verifications.get(&id.0)
    }

    /// What is registered for the product `id`, if anything.
    pub fn authentication(&self, id: ProductId) -> (r: Option<&AuthenticationData>)
        ensures
            match r {
                Some(data) => self@.products.contains_key(id.0) && data@ == self@.products[id.0],
                None => !self@.products.contains_key(id.0),
            },
    {
        self.product_authentications.get(&id.0)
    }

    /// The audit log, oldest entry first.
    pub fn events(&self) -> (log: &Vec<Event>)
        ensures
            log@ == self@.events,
    {
        &self.events
    }

    /// The transfers instructed so far, oldest first.
    pub fn transfers(&self) -> (instructed: &Vec<Transfer>)
        ensures
            instructed@ == self@.transfers,
    {
        &self.transfers
    }
}

} // verus!
