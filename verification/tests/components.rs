use physical_asset_delivery::authentication::{
    verify_product_authenticity, AuthenticationData, HASH_BYTES,
};
use physical_asset_delivery::bytes::{constant_time_eq, copy_of};
use physical_asset_delivery::catalog::{
    covers, find_warehouse, has_certification, has_certifications, select_carrier,
    select_warehouse, units_of, value_of, CarrierEntry, CarrierInfo, FulfillmentOrder,
    FulfillmentRequirements, OrderStatus, PerformanceMetrics, Priority, ProductQuantity,
    ServiceLevel, StorageCapacity, WarehouseEntry, WarehouseInfo, WarehouseStatus,
};
use physical_asset_delivery::escrow::{
    can_release, check_payment_conditions, has_endorsement, process_payment_release,
    setup_payment_escrow, PaymentCondition, PaymentEscrow,
};
use physical_asset_delivery::identity::{Identity, Role};
use physical_asset_delivery::pqc::{
    CIPHERTEXT_BYTES, PUBLIC_KEY_BYTES, SEAL_KEY_BYTES, SIGNATURE_BYTES,
};
use physical_asset_delivery::seal::{bind_seal, check_seal, seal_order, SEAL_BYTES};
use physical_asset_delivery::shipment::{Shipment, TrackingEvent};
use physical_asset_delivery::types::{
    Address, CarrierId, Certification, Error, EscrowStatus, EventType, OrderId, ProductId, Region,
    ShipmentId, ShipmentStatus, WarehouseId,
};
use physical_asset_delivery::verification::{
    check_signature, message_to_endorse, message_to_sign, score_of, DeliveryVerification,
};

fn place(region: u32) -> Address {
    Address { region: Region(region), locator: 0 }
}

fn plain_requirements() -> FulfillmentRequirements {
    FulfillmentRequirements {
        certifications: vec![],
        min_service_level: ServiceLevel::Economy,
        priority: Priority::LowestCost,
        delivery_deadline: None,
        min_condition_score: 0,
        release_signatures: 0,
    }
}

fn order_of(products: Vec<ProductQuantity>) -> FulfillmentOrder {
    FulfillmentOrder {
        products,
        warehouse: WarehouseId(0),
        requirements: plain_requirements(),
        status: OrderStatus::Open,
        created_at: 0,
    }
}

fn line(quantity: u32, unit_price: u128) -> ProductQuantity {
    ProductQuantity { product: ProductId(1), quantity, unit_price }
}

fn listed_warehouse(id: u64, total: u64, used: u64, certifications: Vec<u32>) -> WarehouseEntry {
    WarehouseEntry {
        id: WarehouseId(id),
        info: WarehouseInfo {
            location: place(1),
            capacity: StorageCapacity { total, used },
            certifications: certifications.into_iter().map(Certification).collect(),
            status: WarehouseStatus::Active,
        },
    }
}

fn listed_carrier(id: u64, level: ServiceLevel, regions: Vec<u32>, cost: u64, latency: u64) -> CarrierEntry {
    CarrierEntry {
        id: CarrierId(id),
        info: CarrierInfo {
            service_level: level,
            coverage_area: regions.into_iter().map(Region).collect(),
            performance_metrics: PerformanceMetrics { cost, latency },
            active: true,
        },
    }
}

fn shipment(status: ShipmentStatus) -> Shipment {
    let mut shipment = Shipment::new(OrderId(1), WarehouseId(1), place(2), CarrierId(1), vec![]);
    shipment.status = status;
    shipment
}

fn escrow(status: EscrowStatus, conditions: Vec<PaymentCondition>) -> PaymentEscrow {
    PaymentEscrow { amount: 10, conditions, release_signatures: vec![], status }
}

fn happened(event_type: EventType, timestamp: u64) -> TrackingEvent {
    TrackingEvent { event_type, timestamp, location: place(2) }
}

fn verification(report: Vec<u8>) -> DeliveryVerification {
    DeliveryVerification {
        proof_of_delivery: vec![1],
        verifier_signature: vec![7, 7],
        completion_time: 9,
        condition_report: report,
    }
}

#[test]
fn lengths_are_those_of_the_schemes() {
    assert_eq!(SIGNATURE_BYTES, pqc_dilithium::SIGNBYTES);
    assert_eq!(PUBLIC_KEY_BYTES, pqc_dilithium::PUBLICKEYBYTES);
    assert_eq!(SEAL_KEY_BYTES, pqc_kyber::KYBER_PUBLICKEYBYTES);
    assert_eq!(CIPHERTEXT_BYTES, pqc_kyber::KYBER_CIPHERTEXTBYTES);
    assert_eq!(SEAL_BYTES, 8 + pqc_kyber::KYBER_CIPHERTEXTBYTES);
    assert_eq!(HASH_BYTES, 32);
}

#[test]
fn status_advances_by_the_transition_table() {
    let table = [
        (ShipmentStatus::Created, EventType::PickedUp, ShipmentStatus::InTransit),
        (ShipmentStatus::Created, EventType::InTransit, ShipmentStatus::Created),
        (ShipmentStatus::Created, EventType::Delivered, ShipmentStatus::Delivered),
        (ShipmentStatus::Created, EventType::Exception, ShipmentStatus::Created),
        (ShipmentStatus::InTransit, EventType::PickedUp, ShipmentStatus::InTransit),
        (ShipmentStatus::InTransit, EventType::Delivered, ShipmentStatus::Delivered),
        (ShipmentStatus::InTransit, EventType::Exception, ShipmentStatus::InTransit),
        (ShipmentStatus::Delivered, EventType::PickedUp, ShipmentStatus::Delivered),
        (ShipmentStatus::Delivered, EventType::Delivered, ShipmentStatus::Delivered),
        (ShipmentStatus::Verified, EventType::PickedUp, ShipmentStatus::Verified),
        (ShipmentStatus::Verified, EventType::Delivered, ShipmentStatus::Verified),
        (ShipmentStatus::Verified, EventType::Exception, ShipmentStatus::Verified),
    ];
    for (from, event, to) in table {
        assert_eq!(from.advance(event), to);
        assert!(from.advance(event).position() >= from.position());
    }
    assert_eq!(ShipmentStatus::Created.position(), 0);
    assert_eq!(ShipmentStatus::InTransit.position(), 1);
    assert_eq!(ShipmentStatus::Delivered.position(), 2);
    assert_eq!(ShipmentStatus::Verified.position(), 3);
}

#[test]
fn service_levels_are_ranked() {
    assert_eq!(ServiceLevel::Economy.position(), 0);
    assert_eq!(ServiceLevel::Standard.position(), 1);
    assert_eq!(ServiceLevel::Express.position(), 2);
}

#[test]
fn shipment_records_events_in_order() {
    let mut shipment = shipment(ShipmentStatus::Created);
    shipment.record_event(happened(EventType::PickedUp, 1));
    shipment.record_event(happened(EventType::Exception, 2));
    assert_eq!(shipment.status, ShipmentStatus::InTransit);
    assert_eq!(
        shipment.tracking_data,
        vec![happened(EventType::PickedUp, 1), happened(EventType::Exception, 2)]
    );
    shipment.mark_verified();
    assert_eq!(shipment.status, ShipmentStatus::Verified);
}

#[test]
fn units_are_the_sum_of_quantities() {
    assert_eq!(units_of(&vec![]), 0);
    assert_eq!(units_of(&vec![line(3, 1), line(4, 9), line(0, 2)]), 7);
    assert_eq!(units_of(&vec![line(u32::MAX, 1), line(u32::MAX, 1)]), 2 * (u32::MAX as u128));
}

#[test]
fn value_is_the_sum_of_quantity_times_price() {
    assert_eq!(value_of(&vec![]), Some(0));
    assert_eq!(value_of(&vec![line(3, 250), line(2, 125)]), Some(1000));
    assert_eq!(value_of(&vec![line(1, u128::MAX)]), Some(u128::MAX));
    assert_eq!(value_of(&vec![line(2, u128::MAX)]), None);
    assert_eq!(value_of(&vec![line(1, u128::MAX), line(1, 1)]), None);
    assert_eq!(value_of(&vec![line(1, u128::MAX), line(0, 1)]), Some(u128::MAX));
}

#[test]
fn membership_tests_find_what_is_there() {
    let held = vec![Certification(1), Certification(5)];
    assert!(has_certification(&held, Certification(5)));
    assert!(!has_certification(&held, Certification(2)));
    assert!(has_certifications(&held, &vec![]));
    assert!(has_certifications(&held, &vec![Certification(5), Certification(1), Certification(5)]));
    assert!(!has_certifications(&held, &vec![Certification(1), Certification(2)]));
    assert!(covers(&vec![Region(1), Region(2)], Region(2)));
    assert!(!covers(&vec![Region(1), Region(2)], Region(3)));
    assert!(!covers(&vec![], Region(1)));
}

#[test]
fn warehouse_fits_by_status_room_and_certifications() {
    let mut needs = plain_requirements();
    needs.certifications = vec![Certification(1)];
    assert!(listed_warehouse(1, 10, 4, vec![1]).fits(6, &needs));
    assert!(!listed_warehouse(1, 10, 4, vec![1]).fits(7, &needs));
    assert!(!listed_warehouse(1, 10, 4, vec![2]).fits(1, &needs));
    assert!(!listed_warehouse(1, 4, 10, vec![1]).fits(0, &needs));
    assert!(!listed_warehouse(1, u64::MAX, 0, vec![1]).fits(u64::MAX as u128 + 1, &needs));
    assert!(listed_warehouse(1, u64::MAX, 0, vec![1]).fits(u64::MAX as u128, &needs));
    let mut closed = listed_warehouse(1, 10, 0, vec![1]);
    closed.info.status = WarehouseStatus::Suspended;
    assert!(!closed.fits(1, &needs));
}

#[test]
fn first_fitting_warehouse_is_selected() {
    let directory = vec![
        listed_warehouse(5, 10, 9, vec![1]),
        listed_warehouse(6, 10, 0, vec![]),
        listed_warehouse(7, 10, 0, vec![1]),
        listed_warehouse(8, 100, 0, vec![1]),
    ];
    let mut needs = plain_requirements();
    needs.certifications = vec![Certification(1)];
    let wanted = order_of(vec![line(2, 1), line(3, 1)]);
    assert_eq!(find_warehouse(&directory, &wanted, &needs), Some(2));
    assert_eq!(select_warehouse(&directory, &wanted, &needs), Ok(WarehouseId(7)));
    let small = order_of(vec![line(1, 1)]);
    assert_eq!(select_warehouse(&directory, &small, &needs), Ok(WarehouseId(5)));
    let large = order_of(vec![line(101, 1)]);
    assert_eq!(find_warehouse(&directory, &large, &needs), None);
    assert_eq!(select_warehouse(&directory, &large, &needs), Err(Error::InvalidWarehouse));
    assert_eq!(select_warehouse(&vec![], &small, &needs), Err(Error::InvalidWarehouse));
}

#[test]
fn carrier_fits_by_activity_coverage_and_service() {
    let mut needs = plain_requirements();
    needs.min_service_level = ServiceLevel::Standard;
    let good = listed_carrier(1, ServiceLevel::Standard, vec![1, 2], 5, 5);
    assert!(good.fits(Region(1), Region(2), &needs));
    assert!(good.fits(Region(2), Region(2), &needs));
    assert!(!good.fits(Region(1), Region(3), &needs));
    assert!(!good.fits(Region(3), Region(1), &needs));
    assert!(!listed_carrier(1, ServiceLevel::Economy, vec![1, 2], 5, 5).fits(Region(1), Region(2), &needs));
    let mut idle = listed_carrier(1, ServiceLevel::Express, vec![1, 2], 5, 5);
    idle.info.active = false;
    assert!(!idle.fits(Region(1), Region(2), &needs));
    assert_eq!(good.score(Priority::LowestCost), 5);
    assert_eq!(listed_carrier(1, ServiceLevel::Express, vec![], 3, 8).score(Priority::LowestLatency), 8);
}

#[test]
fn cheapest_fitting_carrier_is_selected_first_on_ties() {
    let directory = vec![
        listed_carrier(1, ServiceLevel::Express, vec![1, 2], 50, 1),
        listed_carrier(2, ServiceLevel::Standard, vec![1, 2], 30, 4),
        listed_carrier(3, ServiceLevel::Standard, vec![1], 10, 4),
        listed_carrier(4, ServiceLevel::Express, vec![1, 2], 30, 2),
        listed_carrier(5, ServiceLevel::Economy, vec![1, 2], 5, 1),
    ];
    let mut needs = plain_requirements();
    needs.min_service_level = ServiceLevel::Standard;
    assert_eq!(select_carrier(&directory, Region(1), Region(2), &needs), Ok(CarrierId(2)));
    needs.priority = Priority::LowestLatency;
    assert_eq!(select_carrier(&directory, Region(1), Region(2), &needs), Ok(CarrierId(1)));
    needs.min_service_level = ServiceLevel::Economy;
    assert_eq!(select_carrier(&directory, Region(1), Region(2), &needs), Ok(CarrierId(1)));
    needs.priority = Priority::LowestCost;
    assert_eq!(select_carrier(&directory, Region(1), Region(2), &needs), Ok(CarrierId(5)));
    assert_eq!(select_carrier(&directory, Region(1), Region(1), &needs), Ok(CarrierId(5)));
    assert_eq!(
        select_carrier(&directory, Region(1), Region(9), &needs),
        Err(Error::InvalidCarrier)
    );
    assert_eq!(select_carrier(&vec![], Region(1), Region(1), &needs), Err(Error::InvalidCarrier));
}

#[test]
fn escrow_is_set_up_from_order_and_requirements() {
    let mut needs = plain_requirements();
    needs.delivery_deadline = Some(77);
    needs.min_condition_score = 9;
    needs.release_signatures = 3;
    let escrow = setup_payment_escrow(&order_of(vec![line(4, 25)]), &needs).unwrap();
    assert_eq!(escrow.amount, 100);
    assert_eq!(escrow.status, EscrowStatus::Pending);
    assert!(escrow.release_signatures.is_empty());
    assert_eq!(
        escrow.conditions,
        vec![
            PaymentCondition::Delivered,
            PaymentCondition::DeliveredBy(77),
            PaymentCondition::ConditionScore(9),
            PaymentCondition::Signatures(3),
        ]
    );
    assert_eq!(
        setup_payment_escrow(&order_of(vec![line(2, u128::MAX)]), &needs).err(),
        Some(Error::PaymentError)
    );
}

#[test]
fn conditions_on_the_lifecycle_are_met_by_events() {
    let delivered = shipment(ShipmentStatus::Delivered);
    let moving = shipment(ShipmentStatus::InTransit);
    let arrival = happened(EventType::Delivered, 10);
    assert!(PaymentCondition::Delivered.holds_after_event(&delivered, &arrival));
    assert!(!PaymentCondition::Delivered.holds_after_event(&moving, &arrival));
    assert!(PaymentCondition::DeliveredBy(10).holds_after_event(&delivered, &arrival));
    assert!(!PaymentCondition::DeliveredBy(9).holds_after_event(&delivered, &arrival));
    assert!(!PaymentCondition::DeliveredBy(99)
        .holds_after_event(&delivered, &happened(EventType::Exception, 10)));
    assert!(PaymentCondition::ConditionScore(200).holds_after_event(&moving, &arrival));
    assert!(PaymentCondition::Signatures(5).holds_after_event(&moving, &arrival));
}

#[test]
fn conditions_on_the_verification_are_met_by_reports_and_signatures() {
    let fine = verification(vec![150, 0]);
    assert!(PaymentCondition::ConditionScore(150).holds_of_verification(0, &fine));
    assert!(!PaymentCondition::ConditionScore(151).holds_of_verification(0, &fine));
    assert!(!PaymentCondition::ConditionScore(1).holds_of_verification(0, &verification(vec![])));
    assert!(PaymentCondition::ConditionScore(0).holds_of_verification(0, &verification(vec![])));
    assert!(PaymentCondition::Signatures(0).holds_of_verification(0, &fine));
    assert!(PaymentCondition::Signatures(1).holds_of_verification(0, &fine));
    assert!(!PaymentCondition::Signatures(2).holds_of_verification(0, &fine));
    assert!(PaymentCondition::Signatures(2).holds_of_verification(1, &fine));
    assert!(!PaymentCondition::Signatures(u32::MAX).holds_of_verification(5, &fine));
    assert!(PaymentCondition::Delivered.holds_of_verification(0, &fine));
    assert!(PaymentCondition::DeliveredBy(0).holds_of_verification(0, &fine));
}

#[test]
fn escrow_falls_due_only_when_pending_and_delivered() {
    let arrival = happened(EventType::Delivered, 10);
    let conditions = vec![PaymentCondition::Delivered, PaymentCondition::DeliveredBy(10)];
    let mut due = escrow(EscrowStatus::Pending, conditions.clone());
    check_payment_conditions(&mut due, &shipment(ShipmentStatus::Delivered), &arrival);
    assert_eq!(due.status, EscrowStatus::ConditionsMet);
    assert_eq!(due.conditions, conditions);
    assert_eq!(due.amount, 10);

    let mut early = escrow(EscrowStatus::Pending, conditions.clone());
    check_payment_conditions(&mut early, &shipment(ShipmentStatus::InTransit), &arrival);
    assert_eq!(early.status, EscrowStatus::Pending);

    let mut late = escrow(EscrowStatus::Pending, conditions.clone());
    check_payment_conditions(
        &mut late,
        &shipment(ShipmentStatus::Delivered),
        &happened(EventType::Delivered, 11),
    );
    assert_eq!(late.status, EscrowStatus::Pending);

    let mut bare = escrow(EscrowStatus::Pending, vec![]);
    check_payment_conditions(&mut bare, &shipment(ShipmentStatus::Created), &arrival);
    assert_eq!(bare.status, EscrowStatus::Pending);

    for settled in [EscrowStatus::ConditionsMet, EscrowStatus::Released, EscrowStatus::Refunded] {
        let mut escrow = escrow(settled, conditions.clone());
        check_payment_conditions(&mut escrow, &shipment(ShipmentStatus::Delivered), &arrival);
        assert_eq!(escrow.status, settled);
    }
}

#[test]
fn escrow_is_released_only_from_conditions_met() {
    let conditions = vec![PaymentCondition::ConditionScore(100), PaymentCondition::Signatures(1)];
    let good = verification(vec![100]);
    for status in [EscrowStatus::Pending, EscrowStatus::Released, EscrowStatus::Refunded] {
        let mut escrow = escrow(status, conditions.clone());
        assert!(!can_release(&escrow, &good));
        assert_eq!(process_payment_release(&mut escrow, &good), Err(Error::PaymentError));
        assert_eq!(escrow.status, status);
        assert!(escrow.release_signatures.is_empty());
    }
    let mut due = escrow(EscrowStatus::ConditionsMet, conditions.clone());
    assert_eq!(process_payment_release(&mut due, &verification(vec![99])), Err(Error::PaymentError));
    assert_eq!(due.status, EscrowStatus::ConditionsMet);
    assert!(due.release_signatures.is_empty());
    assert!(can_release(&due, &good));
    assert_eq!(process_payment_release(&mut due, &good), Ok(()));
    assert_eq!(due.status, EscrowStatus::Released);
    assert_eq!(due.release_signatures, vec![vec![7, 7]]);
    assert_eq!(due.amount, 10);
}

#[test]
fn second_signature_completes_a_joint_release() {
    let mut joint = escrow(EscrowStatus::ConditionsMet, vec![PaymentCondition::Signatures(2)]);
    assert_eq!(
        process_payment_release(&mut joint, &verification(vec![1])),
        Err(Error::PaymentError)
    );
    joint.release_signatures.push(vec![3, 3]);
    assert_eq!(process_payment_release(&mut joint, &verification(vec![1])), Ok(()));
    assert_eq!(joint.release_signatures, vec![vec![3, 3], vec![7, 7]]);
}

#[test]
fn signed_message_frames_shipment_proof_and_report() {
    let message = message_to_sign(ShipmentId(0x0102), &vec![0xaa, 0xbb, 0xcc], &vec![0xdd]);
    assert_eq!(
        message,
        vec![2, 1, 0, 0, 0, 0, 0, 0, 3, 0, 0, 0, 0, 0, 0, 0, 0xaa, 0xbb, 0xcc, 0xdd]
    );
    assert_eq!(message_to_sign(ShipmentId(0), &vec![], &vec![]), vec![0; 16]);
    assert_ne!(
        message_to_sign(ShipmentId(1), &vec![5], &vec![]),
        message_to_sign(ShipmentId(1), &vec![], &vec![5])
    );
}

#[test]
fn condition_score_is_the_first_byte() {
    assert_eq!(score_of(&vec![]), 0);
    assert_eq!(score_of(&vec![42]), 42);
    assert_eq!(score_of(&vec![255, 0, 1]), 255);
}

#[test]
fn signatures_are_checked_with_dilithium() {
    let keys = pqc_dilithium::Keypair::generate();
    let message = vec![1, 2, 3];
    let signature = keys.sign(&message).to_vec();
    let public = keys.public.to_vec();
    assert!(check_signature(&signature, &message, &public));
    assert!(!check_signature(&signature, &vec![1, 2, 4], &public));
    let mut bent = signature.clone();
    bent[10] ^= 0x40;
    assert!(!check_signature(&bent, &message, &public));
    assert!(!check_signature(&signature[1..].to_vec(), &message, &public));
    assert!(!check_signature(&signature, &message, &public[1..].to_vec()));
    assert!(!check_signature(&signature, &message, &vec![]));
    let other = pqc_dilithium::Keypair::generate();
    assert!(!check_signature(&signature, &message, &other.public.to_vec()));
}

#[test]
fn identities_carry_role_location_and_keys() {
    let plain = Identity::new(Role::Warehouse(WarehouseId(3)), place(4));
    assert_eq!(plain.role(), Role::Warehouse(WarehouseId(3)));
    assert_eq!(plain.location(), place(4));
    assert!(plain.verification_key().is_empty());
    assert!(plain.sign(&vec![1]).is_none());

    let keys = pqc_dilithium::Keypair::generate();
    let known = Identity::of_verifier(place(5), keys.public.to_vec());
    assert_eq!(known.role(), Role::Verifier);
    assert_eq!(known.verification_key(), &keys.public.to_vec());
    assert!(known.sign(&vec![1]).is_none());

    let signer = Identity::of_signer(place(6), keys);
    assert_eq!(signer.role(), Role::Verifier);
    assert_eq!(signer.location(), place(6));
    assert_eq!(signer.verification_key(), &keys.public.to_vec());
    let signature = signer.sign(&vec![1, 2]).unwrap();
    assert_eq!(signature.len(), SIGNATURE_BYTES);
    assert!(check_signature(&signature, &vec![1, 2], signer.verification_key()));
    assert_ne!(signature, vec![1, 2]);
}

#[test]
fn seals_bind_the_order() {
    let seal = bind_seal(OrderId(0x0a0b), vec![9; CIPHERTEXT_BYTES]);
    assert_eq!(seal.len(), SEAL_BYTES);
    assert_eq!(&seal[..8], &[0x0b, 0x0a, 0, 0, 0, 0, 0, 0]);
    assert_eq!(&seal[8..], &[9u8; 1088][..]);
    assert!(check_seal(&seal, OrderId(0x0a0b)));
    assert!(!check_seal(&seal, OrderId(0x0a0c)));
    assert!(!check_seal(&seal[..SEAL_BYTES - 1].to_vec(), OrderId(0x0a0b)));
    assert!(!check_seal(&vec![], OrderId(0)));
    assert_eq!(bind_seal(OrderId(1), vec![]), vec![1, 0, 0, 0, 0, 0, 0, 0]);
}

#[test]
fn orders_are_sealed_under_a_kyber_key() {
    let keys = pqc_kyber::keypair(&mut rand::thread_rng()).unwrap();
    let seal = seal_order(&keys.public.to_vec(), OrderId(3)).unwrap();
    assert!(check_seal(&seal, OrderId(3)));
    assert_ne!(seal[8..].to_vec(), keys.public.to_vec());
    assert!(pqc_kyber::decapsulate(&seal[8..], &keys.secret).is_ok());
    assert_eq!(seal_order(&vec![], OrderId(3)), Err(Error::SealFailed));
    assert_eq!(seal_order(&keys.public[1..].to_vec(), OrderId(3)), Err(Error::SealFailed));
}

#[test]
fn byte_strings_are_copied_and_compared() {
    assert_eq!(copy_of(&vec![]), Vec::<u8>::new());
    assert_eq!(copy_of(&vec![1, 2, 3]), vec![1, 2, 3]);
    assert!(constant_time_eq(&[], &[]));
    assert!(constant_time_eq(&[1, 2, 3], &[1, 2, 3]));
    assert!(!constant_time_eq(&[1, 2, 3], &[1, 2, 4]));
    assert!(!constant_time_eq(&[0, 2, 3], &[1, 2, 3]));
    assert!(!constant_time_eq(&[1, 2, 3], &[1, 2]));
    assert!(!constant_time_eq(&[], &[0]));
    assert!(!constant_time_eq(&[0x80], &[0x00]));
}

#[test]
fn claims_are_checked_against_hash_and_proof() {
    let mut data = AuthenticationData::new([3; 32], vec![8, 9]);
    let mut claim = vec![3u8; 32];
    claim.extend_from_slice(&[8, 9]);
    assert!(verify_product_authenticity(&data, &claim));
    claim[0] = 4;
    assert!(!verify_product_authenticity(&data, &claim));
    claim[0] = 3;
    claim[33] = 0;
    assert!(!verify_product_authenticity(&data, &claim));
    assert!(!verify_product_authenticity(&data, &[3; 32]));
    assert!(!verify_product_authenticity(&data, &[3; 31]));
    data.manufacturer_proof = vec![];
    assert!(verify_product_authenticity(&data, &[3; 32]));
    assert!(data.authentication_history.is_empty());
}

#[test]
fn release_message_frames_shipment_and_amount() {
    let message = message_to_endorse(ShipmentId(0x0102), 0x0a0b0c);
    let mut expected = vec![2, 1, 0, 0, 0, 0, 0, 0];
    expected.extend_from_slice(&[0xff; 8]);
    expected.extend_from_slice(&[0x0c, 0x0b, 0x0a, 0, 0, 0, 0, 0, 0, 0, 0, 0, 0, 0, 0, 0]);
    assert_eq!(message, expected);
    assert_eq!(message_to_endorse(ShipmentId(u64::MAX), u128::MAX), vec![0xff; 32]);
    assert_ne!(message, message_to_sign(ShipmentId(0x0102), &vec![], &vec![0; 16]));
}

#[test]
fn endorsements_are_found_by_key() {
    let first = pqc_dilithium::Keypair::generate();
    let second = pqc_dilithium::Keypair::generate();
    let message = message_to_endorse(ShipmentId(1), 10);
    let mut escrow = escrow(EscrowStatus::ConditionsMet, vec![PaymentCondition::Signatures(2)]);
    assert!(!has_endorsement(&escrow, &message, &first.public.to_vec()));
    escrow.add_signature(vec![1, 2, 3]);
    escrow.add_signature(first.sign(&message).to_vec());
    assert_eq!(escrow.release_signatures.len(), 2);
    assert_eq!(escrow.release_signatures[0], vec![1, 2, 3]);
    assert_eq!(escrow.status, EscrowStatus::ConditionsMet);
    assert!(has_endorsement(&escrow, &message, &first.public.to_vec()));
    assert!(!has_endorsement(&escrow, &message, &second.public.to_vec()));
    assert!(!has_endorsement(&escrow, &message_to_endorse(ShipmentId(2), 10), &first.public.to_vec()));
}

#[test]
fn signing_is_a_function_of_key_pair_and_message() {
    let keys = pqc_dilithium::Keypair::generate();
    let signer = Identity::of_signer(place(1), keys);
    let first = signer.sign(&vec![1, 2, 3]).unwrap();
    assert_eq!(signer.sign(&vec![1, 2, 3]).unwrap(), first);
    assert_eq!(keys.sign(&[1, 2, 3]).to_vec(), first);
    assert_ne!(signer.sign(&vec![1, 2, 4]).unwrap(), first);
}
