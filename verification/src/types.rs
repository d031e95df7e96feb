//! Identifiers, enumerations and small value types shared by every component.

use vstd::prelude::*;

verus! {

/// Identifier of a shipment; handed out by the ledger, never reused.
#[derive(Clone, Copy, Debug, PartialEq, Eq, Structural)]
pub struct ShipmentId(pub u64);

/// Identifier of a fulfillment order in the order catalog.
#[derive(Clone, Copy, Debug, PartialEq, Eq, Structural)]
pub struct OrderId(pub u64);

/// Identifier of a product whose provenance is tracked.
#[derive(Clone, Copy, Debug, PartialEq, Eq, Structural)]
pub struct ProductId(pub u64);

/// Identifier of a warehouse in the warehouse directory.
#[derive(Clone, Copy, Debug, PartialEq, Eq, Structural)]
pub struct WarehouseId(pub u64);

/// Identifier of a carrier in the carrier directory.
#[derive(Clone, Copy, Debug, PartialEq, Eq, Structural)]
pub struct CarrierId(pub u64);

/// Identifier of an account that submits transactions.
#[derive(Clone, Copy, Debug, PartialEq, Eq, Structural)]
pub struct AccountId(pub u64);

/// A delivery region; carriers cover regions, addresses lie in one.
#[derive(Clone, Copy, Debug, PartialEq, Eq, Structural)]
pub struct Region(pub u32);

/// A certification that a warehouse may hold and an order may demand.
#[derive(Clone, Copy, Debug, PartialEq, Eq, Structural)]
pub struct Certification(pub u32);

/// Logical time as the ledger reports it (block time).
pub type Timestamp = u64;

/// An amount of the ledger's native token.
pub type Balance = u128;

/// A physical location: the region it lies in and a locator inside it.
#[derive(Clone, Copy, Debug, PartialEq, Eq, Structural)]
pub struct Address {
    pub region: Region,
    pub locator: u64,
}

/// What the execution environment tells an operation: who calls and when.
#[derive(Clone, Copy, Debug, PartialEq, Eq, Structural)]
pub struct Context {
    pub caller: AccountId,
    pub now: Timestamp,
}

/// Lifecycle state of a shipment. The order of the variants is the order of
/// the lifecycle; see [`ShipmentStatus::rank`].
#[derive(Clone, Copy, Debug, PartialEq, Eq, Structural)]
pub enum ShipmentStatus {
    Created,
    InTransit,
    Delivered,
    Verified,
}

/// Kind of a tracking event reported by a carrier.
#[derive(Clone, Copy, Debug, PartialEq, Eq, Structural)]
pub enum EventType {
    PickedUp,
    InTransit,
    Delivered,
    Exception,
}

/// State of an escrowed payment. `Released` and `Refunded` are terminal.
#[derive(Clone, Copy, Debug, PartialEq, Eq, Structural)]
pub enum EscrowStatus {
    Pending,
    ConditionsMet,
    Released,
    Refunded,
}

/// Why an operation was rejected. A rejected operation changes nothing.
#[derive(Clone, Copy, Debug, PartialEq, Eq, Structural)]
pub enum Error {
    ShipmentNotFound,
    OrderNotFound,
    ProductNotFound,
    /// Delivery has not been recorded yet, so it cannot be verified.
    NotDelivered,
    /// The carrier is unknown or inactive, or no carrier fits the requirements.
    InvalidCarrier,
    /// The caller does not hold the role that the operation asks for.
    UnauthorizedAccess,
    /// A release condition is unmet, the amount cannot be represented, or
    /// an endorsement of a release cannot be taken.
    PaymentError,
    /// The shipment already has its one delivery verification.
    AlreadyVerified,
    /// The verifier's signature does not verify under the registered key.
    VerificationFailed,
    /// No active warehouse fits the requirements.
    InvalidWarehouse,
    /// The provenance seal could not be produced.
    SealFailed,
}

impl ShipmentStatus {
    /// Position of the status in the lifecycle, from 0 (`Created`) to 3
    /// (`Verified`).
    pub open spec fn rank(self) -> nat {
        match self {
            ShipmentStatus::Created => 0,
            ShipmentStatus::InTransit => 1,
            ShipmentStatus::Delivered => 2,
            ShipmentStatus::Verified => 3,
        }
    }

    /// The status that a tracking event of kind `event` asks for, if any:
    /// a pickup asks for `InTransit`, a delivery for `Delivered`; every
    /// other kind asks for nothing.
    pub open spec fn target(event: EventType) -> Option<ShipmentStatus> {
        match event {
            EventType::PickedUp => Some(ShipmentStatus::InTransit),
            EventType::Delivered => Some(ShipmentStatus::Delivered),
            _ => None,
        }
    }

    /// The status after a tracking event of kind `event`: the event's target
    /// where that lies ahead in the lifecycle, else the status unchanged.
    pub open spec fn after(self, event: EventType) -> ShipmentStatus {
        match Self::target(event) {
            Some(t) => if t.rank() > self.rank() { t } else { self },
            None => self,
        }
    }

    /// Computes [`ShipmentStatus::rank`].
    pub fn position(self) -> (r: u8)
        ensures
            r == self.rank(),
    {
        match self {
            ShipmentStatus::Created => 0,
            ShipmentStatus::InTransit => 1,
            ShipmentStatus::Delivered => 2,
            ShipmentStatus::Verified => 3,
        }
    }

    /// Applies the transition table to a status: never moves backward.
    pub fn advance(self, event: EventType) -> (r: ShipmentStatus)
        ensures
            r == self.after(event),
            r.rank() >= self.rank(),
    {
        match event {
            EventType::PickedUp => if self.position() < 1 {
                ShipmentStatus::InTransit
            } else {
                self
            },
            EventType::Delivered => if self.position() < 2 {
                ShipmentStatus::Delivered
            } else {
                self
            },
            _ => self,
        }
    }
}

} // verus!
