//! Shipment records and the lifecycle that tracking events drive.

use crate::types::{
    Address, CarrierId, EventType, OrderId, ShipmentStatus, Timestamp, WarehouseId,
};
use vstd::prelude::*;

verus! {

/// A timestamped lifecycle signal reported by a carrier.
#[derive(Clone, Copy, Debug, PartialEq, Eq, Structural)]
pub struct TrackingEvent {
    pub event_type: EventType,
    pub timestamp: Timestamp,
    pub location: Address,
}

/// The tracked unit of physical movement from a warehouse to a destination.
#[derive(Debug)]
pub struct Shipment {
    pub order_id: OrderId,
    pub status: ShipmentStatus,
    pub origin: WarehouseId,
    pub destination: Address,
    pub carrier: CarrierId,
    /// Every tracking event accepted for the shipment, oldest first.
    pub tracking_data: Vec<TrackingEvent>,
    /// The provenance seal; opaque to the lifecycle.
    pub quantum_seal: Vec<u8>,
}

/// A shipment as a mathematical value.
pub struct ShipmentView {
    pub order_id: OrderId,
    pub status: ShipmentStatus,
    pub origin: WarehouseId,
    pub destination: Address,
    pub carrier: CarrierId,
    pub tracking: Seq<TrackingEvent>,
    pub seal: Seq<u8>,
}

impl View for Shipment {
    type V = ShipmentView;

    open spec fn view(&self) -> ShipmentView {
        ShipmentView {
            order_id: self.order_id,
            status: self.status,
            origin: self.origin,
            destination: self.destination,
            carrier: self.carrier,
            tracking: self.tracking_data@,
            seal: self.quantum_seal@,
        }
    }
}

impl ShipmentView {
    /// A shipment as it is created: no event yet, status `Created`.
    pub open spec fn created(
        order_id: OrderId,
        origin: WarehouseId,
        destination: Address,
        carrier: CarrierId,
        seal: Seq<u8>,
    ) -> ShipmentView {
        ShipmentView {
            order_id,
            status: ShipmentStatus::Created,
            origin,
            destination,
            carrier,
            tracking: Seq::empty(),
            seal,
        }
    }

    /// The shipment after a tracking event: the event is appended to the
    /// trail, and the status follows the transition table.
    pub open spec fn record(self, event: TrackingEvent) -> ShipmentView {
        ShipmentView {
            status: self.status.after(event.event_type),
            tracking: self.tracking.push(event),
            ..self
        }
    }

    /// The shipment with its delivery verified.
    pub open spec fn verified(self) -> ShipmentView {
        ShipmentView { status: ShipmentStatus::Verified, ..self }
    }

    /// Whether the trail holds an event of kind `Delivered`.
    pub open spec fn delivery_recorded(self) -> bool {
        exists|i: int|
            0 <= i < self.tracking.len() && (#[trigger] self.tracking[i]).event_type
                == EventType::Delivered
    }

    /// A status of `Delivered` or later is backed by a `Delivered` event in
    /// the trail.
    pub open spec fn wf(self) -> bool {
        self.status.rank() >= ShipmentStatus::Delivered.rank() ==> self.delivery_recorded()
    }
}

impl Shipment {
    /// Makes the record of a new shipment.
    pub fn new(
        order_id: OrderId,
        origin: WarehouseId,
        destination: Address,
        carrier: CarrierId,
        seal: Vec<u8>,
    ) -> (shipment: Shipment)
        ensures
            shipment@ == ShipmentView::created(order_id, origin, destination, carrier, seal@),
            shipment@.wf(),
    {
        Shipment {
            order_id,
            status: ShipmentStatus::Created,
            origin,
            destination,
            carrier,
            tracking_data: Vec::new(),
            quantum_seal: seal,
        }
    }

    /// Appends a tracking event and moves the status as the event asks,
    /// never backward.
    pub fn record_event(&mut self, event: TrackingEvent)
        ensures
            final(self)@ == old(self)@.record(event),
            old(self)@.wf() ==> final(self)@.wf(),
    {
        self.tracking_data.push(event);
        self.status = self.status.advance(event.event_type);
        proof {
            lemma_record_keeps_wf(old(self)@, event);
        }
    }

    /// Marks the delivery as verified.
    pub fn mark_verified(&mut self)
        ensures
            final(self)@ == old(self)@.verified(),
    {
        self.status = ShipmentStatus::Verified;
    }
}

/// Recording an event keeps a well-formed shipment well-formed, and never
/// lowers the status.
pub proof fn lemma_record_keeps_wf(shipment: ShipmentView, event: TrackingEvent)
    ensures
        shipment.record(event).status.rank() >= shipment.status.rank(),
        shipment.wf() ==> shipment.record(event).wf(),
{
    let after = shipment.record(event);
    if shipment.wf() && after.status.rank() >= 2 {
        if shipment.status.rank() >= 2 {
            let i = choose|i: int|
                0 <= i < shipment.tracking.len() && (#[trigger] shipment.tracking[i]).event_type
                    == EventType::Delivered;
            assert(after.tracking[i].event_type == EventType::Delivered);
        } else {
            assert(after.tracking[shipment.tracking.len() as int] == event);
        }
    }
}

} // verus!
