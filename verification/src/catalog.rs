//! Reference data that shipment creation reads: fulfillment orders, the
//! warehouse directory and the carrier directory, and the rules by which a
//! warehouse and a carrier are chosen for an order.

use crate::types::{
    Address, Balance, CarrierId, Certification, Error, ProductId, Region, Timestamp, WarehouseId,
};
use vstd::prelude::*;

verus! {

/// Grade of a carrier's service, from slowest to fastest.
#[derive(Clone, Copy, Debug, PartialEq, Eq, Structural)]
pub enum ServiceLevel {
    Economy,
    Standard,
    Express,
}

/// Operating state of a warehouse.
#[derive(Clone, Copy, Debug, PartialEq, Eq, Structural)]
pub enum WarehouseStatus {
    Active,
    Suspended,
    Closed,
}

/// State of a fulfillment order in the catalog.
#[derive(Clone, Copy, Debug, PartialEq, Eq, Structural)]
pub enum OrderStatus {
    Open,
    Fulfilled,
    Cancelled,
}

/// What to minimise when several carriers fit.
#[derive(Clone, Copy, Debug, PartialEq, Eq, Structural)]
pub enum Priority {
    LowestCost,
    LowestLatency,
}

/// Storage of a warehouse in units: how much it has and how much is taken.
#[derive(Clone, Copy, Debug, PartialEq, Eq, Structural)]
pub struct StorageCapacity {
    pub total: u64,
    pub used: u64,
}

/// What a carrier charges for a shipment and how long it takes.
#[derive(Clone, Copy, Debug, PartialEq, Eq, Structural)]
pub struct PerformanceMetrics {
    pub cost: u64,
    pub latency: u64,
}

/// One line of an order: a product, how many units, and the price of one.
#[derive(Clone, Copy, Debug, PartialEq, Eq, Structural)]
pub struct ProductQuantity {
    pub product: ProductId,
    pub quantity: u32,
    pub unit_price: Balance,
}

/// What an order demands of its fulfillment and of the release of payment.
#[derive(Debug)]
pub struct FulfillmentRequirements {
    /// Certifications that the warehouse must hold, all of them.
    pub certifications: Vec<Certification>,
    /// The lowest grade of service that the carrier may offer.
    pub min_service_level: ServiceLevel,
    /// What decides between carriers that fit.
    pub priority: Priority,
    /// Latest time of delivery for payment to fall due, if any.
    pub delivery_deadline: Option<Timestamp>,
    /// Lowest score of the condition report for payment to be released.
    pub min_condition_score: u8,
    /// Number of release signatures that payment needs.
    pub release_signatures: u32,
}

/// An order to be fulfilled; made upstream, read here.
#[derive(Debug)]
pub struct FulfillmentOrder {
    pub products: Vec<ProductQuantity>,
    pub warehouse: WarehouseId,
    pub requirements: FulfillmentRequirements,
    pub status: OrderStatus,
    pub created_at: Timestamp,
}

/// A warehouse of the directory.
#[derive(Debug)]
pub struct WarehouseInfo {
    pub location: Address,
    pub capacity: StorageCapacity,
    pub certifications: Vec<Certification>,
    pub status: WarehouseStatus,
}

/// A carrier of the directory.
#[derive(Debug)]
pub struct CarrierInfo {
    pub service_level: ServiceLevel,
    pub coverage_area: Vec<Region>,
    pub performance_metrics: PerformanceMetrics,
    pub active: bool,
}

/// A warehouse with the identifier under which the directory lists it.
#[derive(Debug)]
pub struct WarehouseEntry {
    pub id: WarehouseId,
    pub info: WarehouseInfo,
}

/// A carrier with the identifier under which the directory lists it.
#[derive(Debug)]
pub struct CarrierEntry {
    pub id: CarrierId,
    pub info: CarrierInfo,
}

/// [`FulfillmentRequirements`] as a mathematical value.
pub struct RequirementsView {
    pub certifications: Seq<Certification>,
    pub min_service_level: ServiceLevel,
    pub priority: Priority,
    pub delivery_deadline: Option<Timestamp>,
    pub min_condition_score: u8,
    pub release_signatures: u32,
}

/// [`FulfillmentOrder`] as a mathematical value.
pub struct OrderView {
    pub products: Seq<ProductQuantity>,
    pub warehouse: WarehouseId,
    pub requirements: RequirementsView,
    pub status: OrderStatus,
    pub created_at: Timestamp,
}

/// [`WarehouseEntry`] as a mathematical value.
pub struct WarehouseView {
    pub id: WarehouseId,
    pub location: Address,
    pub capacity: StorageCapacity,
    pub certifications: Seq<Certification>,
    pub status: WarehouseStatus,
}

/// [`CarrierEntry`] as a mathematical value.
pub struct CarrierView {
    pub id: CarrierId,
    pub service_level: ServiceLevel,
    pub coverage: Seq<Region>,
    pub metrics: PerformanceMetrics,
    pub active: bool,
}

impl View for FulfillmentRequirements {
    type V = RequirementsView;

    open spec fn view(&self) -> RequirementsView {
        RequirementsView {
            certifications: self.certifications@,
            min_service_level: self.min_service_level,
            priority: self.priority,
            delivery_deadline: self.delivery_deadline,
            min_condition_score: self.min_condition_score,
            release_signatures: self.release_signatures,
        }
    }
}

impl View for FulfillmentOrder {
    type V = OrderView;

    open spec fn view(&self) -> OrderView {
        OrderView {
            products: self.products@,
            warehouse: self.warehouse,
            requirements: self.requirements@,
            status: self.status,
            created_at: self.created_at,
        }
    }
}

impl View for WarehouseEntry {
    type V = WarehouseView;

    open spec fn view(&self) -> WarehouseView {
        WarehouseView {
            id: self.id,
            location: self.info.location,
            capacity: self.info.capacity,
            certifications: self.info.certifications@,
            status: self.info.status,
        }
    }
}

impl View for CarrierEntry {
    type V = CarrierView;

    open spec fn view(&self) -> CarrierView {
        CarrierView {
            id: self.id,
            service_level: self.info.service_level,
            coverage: self.info.coverage_area@,
            metrics: self.info.performance_metrics,
            active: self.info.active,
        }
    }
}

impl ServiceLevel {
    /// Position of the grade, from 0 (`Economy`) to 2 (`Express`).
    pub open spec fn rank(self) -> nat {
        match self {
            ServiceLevel::Economy => 0,
            ServiceLevel::Standard => 1,
            ServiceLevel::Express => 2,
        }
    }

    /// Computes [`ServiceLevel::rank`].
    pub fn position(self) -> (r: u8)
        ensures
            r == self.rank(),
    {
        match self {
            ServiceLevel::Economy => 0,
            ServiceLevel::Standard => 1,
            ServiceLevel::Express => 2,
        }
    }
}

/// The directory of warehouses as a sequence of values, in its own order.
pub open spec fn warehouses_view(directory: Seq<WarehouseEntry>) -> Seq<WarehouseView> {
    directory.map_values(|entry: WarehouseEntry| entry@)
}

/// The directory of carriers as a sequence of values, in its own order.
pub open spec fn carriers_view(directory: Seq<CarrierEntry>) -> Seq<CarrierView> {
    directory.map_values(|entry: CarrierEntry| entry@)
}

/// Number of units that an order ships: the sum of its quantities.
pub open spec fn total_quantity(products: Seq<ProductQuantity>) -> nat
    decreases products.len(),
{
    if products.len() == 0 {
        0
    } else {
        total_quantity(products.drop_last()) + products.last().quantity as nat
    }
}

/// Value of an order: the sum over its lines of quantity times unit price.
pub open spec fn order_value(products: Seq<ProductQuantity>) -> nat
    decreases products.len(),
{
    if products.len() == 0 {
        0
    } else {
        order_value(products.drop_last()) + (products.last().quantity as nat)
            * (products.last().unit_price as nat)
    }
}

/// Whether `held` has every certification of `required`.
pub open spec fn holds_all(held: Seq<Certification>, required: Seq<Certification>) -> bool {
    forall|i: int| 0 <= i < required.len() ==> held.contains(#[trigger] required[i])
}

/// Whether a warehouse can take an order of `units` units under
/// `requirements`: it is active, has that much storage free, and holds
/// every certification asked for.
pub open spec fn warehouse_fits(
    warehouse: WarehouseView,
    units: nat,
    requirements: RequirementsView,
) -> bool {
    &&& warehouse.status == WarehouseStatus::Active
    &&& warehouse.capacity.used + units <= warehouse.capacity.total
    &&& holds_all(warehouse.certifications, requirements.certifications)
}

/// Whether the warehouse at `index` is the one to choose: it fits, and no
/// warehouse before it in the directory does.
pub open spec fn is_chosen_warehouse(
    directory: Seq<WarehouseView>,
    units: nat,
    requirements: RequirementsView,
    index: int,
) -> bool {
    &&& 0 <= index < directory.len()
    &&& warehouse_fits(directory[index], units, requirements)
    &&& forall|j: int| 0 <= j < index ==> !warehouse_fits(#[trigger] directory[j], units, requirements)
}

/// Position in the directory of the warehouse to choose for `units` units,
/// if any warehouse fits.
pub open spec fn chosen_warehouse_at(
    directory: Seq<WarehouseView>,
    units: nat,
    requirements: RequirementsView,
) -> Option<int> {
    if exists|i: int| is_chosen_warehouse(directory, units, requirements, i) {
        Some(choose|i: int| is_chosen_warehouse(directory, units, requirements, i))
    } else {
        None
    }
}

/// The warehouse chosen for an order: the first of the directory that fits;
/// `InvalidWarehouse` where none does.
pub open spec fn chosen_warehouse(
    directory: Seq<WarehouseView>,
    order: OrderView,
    requirements: RequirementsView,
) -> Result<WarehouseId, Error> {
    match chosen_warehouse_at(directory, total_quantity(order.products), requirements) {
        Some(i) => Ok(directory[i].id),
        None => Err(Error::InvalidWarehouse),
    }
}

/// Whether a carrier can take a shipment from `origin` to `destination`
/// under `requirements`: it is active, covers both regions, and its grade of
/// service is at least the one asked for.
pub open spec fn carrier_fits(
    carrier: CarrierView,
    origin: Region,
    destination: Region,
    requirements: RequirementsView,
) -> bool {
    &&& carrier.active
    &&& carrier.coverage.contains(origin)
    &&& carrier.coverage.contains(destination)
    &&& carrier.service_level.rank() >= requirements.min_service_level.rank()
}

/// What the priority minimises: the carrier's cost or its latency.
pub open spec fn carrier_score(carrier: CarrierView, priority: Priority) -> int {
    match priority {
        Priority::LowestCost => carrier.metrics.cost as int,
        Priority::LowestLatency => carrier.metrics.latency as int,
    }
}

/// Whether the carrier at `index` is the one to choose: it fits, no carrier
/// that fits has a lower score, and of those with the same score it comes
/// first in the directory.
pub open spec fn is_chosen_carrier(
    directory: Seq<CarrierView>,
    origin: Region,
    destination: Region,
    requirements: RequirementsView,
    index: int,
) -> bool {
    &&& 0 <= index < directory.len()
    &&& carrier_fits(directory[index], origin, destination, requirements)
    &&& forall|j: int|
        0 <= j < directory.len() && carrier_fits(
            #[trigger] directory[j],
            origin,
            destination,
            requirements,
        ) ==> {
            let mine = carrier_score(directory[index], requirements.priority);
            let other = carrier_score(directory[j], requirements.priority);
            mine < other || (mine == other && index <= j)
        }
}

/// The carrier chosen for a shipment between two regions: the one that fits
/// with the lowest score, the first such in the directory; `InvalidCarrier`
/// where none fits.
pub open spec fn chosen_carrier(
    directory: Seq<CarrierView>,
    origin: Region,
    destination: Region,
    requirements: RequirementsView,
) -> Result<CarrierId, Error> {
    if exists|i: int| is_chosen_carrier(directory, origin, destination, requirements, i) {
        Ok(
            directory[choose|i: int|
                is_chosen_carrier(directory, origin, destination, requirements, i)].id,
        )
    } else {
        Err(Error::InvalidCarrier)
    }
}

/// No identifier is listed twice.
pub open spec fn warehouses_distinct(directory: Seq<WarehouseView>) -> bool {
    forall|i: int, j: int|
        0 <= i < j < directory.len() ==> (#[trigger] directory[i]).id != (#[trigger] directory[j]).id
}

/// No identifier is listed twice.
pub open spec fn carriers_distinct(directory: Seq<CarrierView>) -> bool {
    forall|i: int, j: int|
        0 <= i < j < directory.len() ==> (#[trigger] directory[i]).id != (#[trigger] directory[j]).id
}

/// The value of a prefix of an order is at most the value of the order.
pub proof fn lemma_order_value_prefix(products: Seq<ProductQuantity>, n: int)
    requires
        0 <= n <= products.len(),
    ensures
        order_value(products.take(n)) <= order_value(products),
    decreases products.len(),
{
    if n == products.len() {
        assert(products.take(n) == products);
    } else {
        lemma_order_value_prefix(products.drop_last(), n);
        assert(products.drop_last().take(n) == products.take(n));
    }
}

/// At most one warehouse of a directory is the chosen one.
pub proof fn lemma_chosen_warehouse_unique(
    directory: Seq<WarehouseView>,
    units: nat,
    requirements: RequirementsView,
    i: int,
    j: int,
)
    requires
        is_chosen_warehouse(directory, units, requirements, i),
        is_chosen_warehouse(directory, units, requirements, j),
    ensures
        i == j,
{
}

/// At most one carrier of a directory is the chosen one.
pub proof fn lemma_chosen_carrier_unique(
    directory: Seq<CarrierView>,
    origin: Region,
    destination: Region,
    requirements: RequirementsView,
    i: int,
    j: int,
)
    requires
        is_chosen_carrier(directory, origin, destination, requirements, i),
        is_chosen_carrier(directory, origin, destination, requirements, j),
    ensures
        i == j,
{
}

/// Adds up the quantities of an order.
pub fn units_of(products: &Vec<ProductQuantity>) -> (units: u128)
    ensures
        units == total_quantity(products@),
{
    let mut units: u128 = 0;
    let mut i: usize = 0;
    while i < products.len()
        invariant
            i <= products.len(),
            units == total_quantity(products@.take(i as int)),
            units <= i * 0xffff_ffff,
        decreases products.len() - i,
    {
        proof {
            assert(products@.take(i + 1).drop_last() == products@.take(i as int));
        }
        units = units + products[i].quantity as u128;
        i += 1;
    }
    proof {
        assert(products@.take(i as int) == products@);
    }
    units
}

/// Adds up the value of an order; `None` where the value does not fit in a
/// [`Balance`].
pub fn value_of(products: &Vec<ProductQuantity>) -> (value: Option<Balance>)
    ensures
        match value {
            Some(v) => v == order_value(products@),
            None => order_value(products@) > Balance::MAX,
        },
{
    let mut total: Balance = 0;
    let mut i: usize = 0;
    while i < products.len()
        invariant
            i <= products.len(),
            total == order_value(products@.take(i as int)),
        decreases products.len() - i,
    {
        let line = products[i];
        proof {
            assert(products@.take(i + 1).drop_last() == products@.take(i as int));
            lemma_order_value_prefix(products@, i + 1);
        }
        let amount = match (line.quantity as u128).checked_mul(line.unit_price) {
            Some(amount) => amount,
            None => {
                return None;
            },
        };
        total = match total.checked_add(amount) {
            Some(sum) => sum,
            None => {
                return None;
            },
        };
        i += 1;
    }
    proof {
        assert(products@.take(i as int) == products@);
    }
    Some(total)
}

/// Tells whether a list of certifications holds a given one.
pub fn has_certification(held: &Vec<Certification>, wanted: Certification) -> (found: bool)
    ensures
        found == held@.contains(wanted),
{
    let mut i: usize = 0;
    while i < held.len()
        invariant
            i <= held.len(),
            forall|j: int| 0 <= j < i ==> held@[j] != wanted,
        decreases held.len() - i,
    {
        if held[i] == wanted {
            return true;
        }
        i += 1;
    }
    false
}

/// Tells whether a list of certifications holds every one of another list.
pub fn has_certifications(held: &Vec<Certification>, required: &Vec<Certification>) -> (all: bool)
    ensures
        all == holds_all(held@, required@),
{
    let mut i: usize = 0;
    while i < required.len()
        invariant
            i <= required.len(),
            forall|j: int| 0 <= j < i ==> held@.contains(#[trigger] required@[j]),
        decreases required.len() - i,
    {
        if !has_certification(held, required[i]) {
            return false;
        }
        i += 1;
    }
    true
}

/// Tells whether a coverage area holds a region.
pub fn covers(coverage: &Vec<Region>, region: Region) -> (found: bool)
    ensures
        found == coverage@.contains(region),
{
    let mut i: usize = 0;
    while i < coverage.len()
        invariant
            i <= coverage.len(),
            forall|j: int| 0 <= j < i ==> coverage@[j] != region,
        decreases coverage.len() - i,
    {
        if coverage[i] == region {
            return true;
        }
        i += 1;
    }
    false
}

impl WarehouseEntry {
    /// Tells whether the warehouse can take an order of `units` units.
    pub fn fits(&self, units: u128, requirements: &FulfillmentRequirements) -> (fit: bool)
        ensures
            fit == warehouse_fits(self@, units as nat, requirements@),
    {
        self.info.status == WarehouseStatus::Active && units <= self.info.capacity.total as u128
            && self.info.capacity.used as u128 <= self.info.capacity.total as u128 - units
            && has_certifications(&self.info.certifications, &requirements.certifications)
    }
}

impl CarrierEntry {
    /// Tells whether the carrier can take a shipment between two regions.
    pub fn fits(
        &self,
        origin: Region,
        destination: Region,
        requirements: &FulfillmentRequirements,
    ) -> (fit: bool)
        ensures
            fit == carrier_fits(self@, origin, destination, requirements@),
    {
        self.info.active && covers(&self.info.coverage_area, origin) && covers(
            &self.info.coverage_area,
            destination,
        ) && self.info.service_level.position() >= requirements.min_service_level.position()
    }

    /// The figure that `priority` minimises.
    pub fn score(&self, priority: Priority) -> (score: u64)
        ensures
            score == carrier_score(self@, priority),
    {
        match priority {
            Priority::LowestCost => self.info.performance_metrics.cost,
            Priority::LowestLatency => self.info.performance_metrics.latency,
        }
    }
}

/// Finds the warehouse for an order: the position of the first of the
/// directory that is active, has room for the order's units and holds the
/// certifications that `requirements` names.
pub fn find_warehouse(
    directory: &Vec<WarehouseEntry>,
    order: &FulfillmentOrder,
    requirements: &FulfillmentRequirements,
) -> (r: Option<usize>)
    ensures
        match r {
            Some(i) => chosen_warehouse_at(
                warehouses_view(directory@),
                total_quantity(order@.products),
                requirements@,
            ) == Some(i as int) && i < directory.len(),
            None => chosen_warehouse_at(
                warehouses_view(directory@),
                total_quantity(order@.products),
                requirements@,
            ) is None,
        },
{
    let units = units_of(&order.products);
    let ghost listed = warehouses_view(directory@);
    let mut i: usize = 0;
    while i < directory.len()
        invariant
            i <= directory.len(),
            listed == warehouses_view(directory@),
            units == total_quantity(order@.products),
            forall|j: int|
                0 <= j < i ==> !warehouse_fits(#[trigger] listed[j], units as nat, requirements@),
        decreases directory.len() - i,
    {
        if directory[i].fits(units, requirements) {
            proof {
                let chosen = choose|k: int|
                    is_chosen_warehouse(listed, units as nat, requirements@, k);
                lemma_chosen_warehouse_unique(
                    listed,
                    units as nat,
                    requirements@,
                    i as int,
                    chosen,
                );
            }
            return Some(i);
        }
        i += 1;
    }
    None
}

/// Chooses the warehouse for an order: the first of the directory that
/// fits, or `InvalidWarehouse`.
pub fn select_warehouse(
    directory: &Vec<WarehouseEntry>,
    order: &FulfillmentOrder,
    requirements: &FulfillmentRequirements,
) -> (r: Result<WarehouseId, Error>)
    ensures
        r == chosen_warehouse(warehouses_view(directory@), order@, requirements@),
{
    match find_warehouse(directory, order, requirements) {
        Some(i) => Ok(directory[i].id),
        None => Err(Error::InvalidWarehouse),
    }
}

/// Chooses the carrier for a shipment between two regions: of the carriers
/// that are active, cover both regions and offer the grade of service asked
/// for, the one with the lowest score; the first in the directory where
/// several share it.
pub fn select_carrier(
    directory: &Vec<CarrierEntry>,
    origin: Region,
    destination: Region,
    requirements: &FulfillmentRequirements,
) -> (r: Result<CarrierId, Error>)
    ensures
        r == chosen_carrier(carriers_view(directory@), origin, destination, requirements@),
{
    let ghost listed = carriers_view(directory@);
    let priority = requirements.priority;
    let mut best: Option<usize> = None;
    let mut i: usize = 0;
    while i < directory.len()
        invariant
            i <= directory.len(),
            listed == carriers_view(directory@),
            priority == requirements@.priority,
            match best {
                Some(b) => {
                    &&& b < i
                    &&& carrier_fits(listed[b as int], origin, destination, requirements@)
                    &&& forall|j: int|
                        0 <= j < i && carrier_fits(
                            #[trigger] listed[j],
                            origin,
                            destination,
                            requirements@,
                        ) ==> {
                            let mine = carrier_score(listed[b as int], priority);
                            let other = carrier_score(listed[j], priority);
                            mine < other || (mine == other && b <= j)
                        }
                },
                None => forall|j: int|
                    0 <= j < i ==> !carrier_fits(
                        #[trigger] listed[j],
                        origin,
                        destination,
                        requirements@,
                    ),
            },
        decreases directory.len() - i,
    {
        if directory[i].fits(origin, destination, requirements) {
            best = match best {
                Some(b) => if directory[i].score(priority) < directory[b].score(priority) {
                    Some(i)
                } else {
                    Some(b)
                },
                None => Some(i),
            };
        }
        i += 1;
    }
    match best {
        Some(b) => {
            proof {
                let chosen = choose|k: int|
                    is_chosen_carrier(listed, origin, destination, requirements@, k);
                lemma_chosen_carrier_unique(
                    listed,
                    origin,
                    destination,
                    requirements@,
                    b as int,
                    chosen,
                );
            }
            Ok(directory[b].id)
        },
        None => {
            Err(Error::InvalidCarrier)
        },
    }
}

} // verus!
