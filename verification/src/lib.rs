//! Ledger-resident tracking of physical shipments: lifecycle state machine,
//! carrier authorization, post-quantum signed proof of delivery, product
//! authentication and conditional release of escrowed payment.
//!
//! The ledger itself is [`delivery::PhysicalAssetDelivery`]. What it holds
//! and what each operation does is stated over a mathematical model of it
//! in [`model`]; what holds of every run of the ledger is proved in
//! [`laws`]. The components have a module each: [`shipment`], [`catalog`],
//! [`identity`], [`escrow`], [`verification`], [`authentication`] and
//! [`seal`]. [`pqc`] holds the calls into the Dilithium and Kyber crates,
//! which are trusted and not proved. [`registry`] holds the records and
//! rules of the kombucha fermentation registry.

pub mod authentication;
pub mod bytes;
pub mod catalog;
pub mod delivery;
pub mod escrow;
pub mod identity;
pub mod laws;
pub mod model;
pub mod pqc;
pub mod registry;
pub mod seal;
pub mod shipment;
pub mod types;
pub mod verification;
