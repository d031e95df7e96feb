use physical_asset_delivery::registry::{FermentationBatch, FermentationConditions, Module};

fn conditions(temperature: u32, ph_level: u32, scoby_generation: u32) -> FermentationConditions {
    FermentationConditions {
        temperature,
        ph_level,
        scoby_generation,
        tea_hash: [1; 32],
        sugar_source: vec![2],
        ingredients_hash: [3; 32],
    }
}

#[test]
fn conditions_within_all_ranges_are_accepted() {
    assert!(Module::verify_conditions(&conditions(2500, 300, 5)));
    assert!(Module::verify_conditions(&conditions(2000, 250, 1)));
    assert!(Module::verify_conditions(&conditions(3000, 350, 20)));
}

#[test]
fn conditions_outside_a_range_are_refused() {
    assert!(!Module::verify_conditions(&conditions(1999, 300, 5)));
    assert!(!Module::verify_conditions(&conditions(3001, 300, 5)));
    assert!(!Module::verify_conditions(&conditions(2500, 249, 5)));
    assert!(!Module::verify_conditions(&conditions(2500, 351, 5)));
    assert!(!Module::verify_conditions(&conditions(2500, 300, 0)));
    assert!(!Module::verify_conditions(&conditions(2500, 300, 21)));
    assert!(!Module::verify_conditions(&conditions(0, 0, 0)));
    assert!(!Module::verify_conditions(&conditions(u32::MAX, u32::MAX, u32::MAX)));
}

#[test]
fn batch_identifier_is_account_block_and_seed() {
    assert_eq!(Module::generate_batch_id(&[1, 2], &[3], &[4, 5, 6]), vec![1, 2, 3, 4, 5, 6]);
    assert_eq!(Module::generate_batch_id(&[], &[], &[]), Vec::<u8>::new());
    assert_eq!(Module::generate_batch_id(&[], &[7], &[]), vec![7]);
    assert_ne!(Module::generate_batch_id(&[1], &[2], &[3]), Module::generate_batch_id(&[1], &[2], &[4]));
}

#[test]
fn batch_record_holds_what_it_is_given() {
    let batch: FermentationBatch<u64, u32> = FermentationBatch {
        brewer: 9,
        batch_id: Module::generate_batch_id(&[9], &[0, 1], &[7]),
        start_block: 1,
        expected_completion: 100,
        conditions_hash: [0; 32],
        certified: false,
        quantum_proof: None,
    };
    let copy = batch.clone();
    assert_eq!(copy.brewer, 9);
    assert_eq!(copy.batch_id, vec![9, 0, 1, 7]);
    assert_eq!(copy.expected_completion, 100);
    assert!(!copy.certified);
    assert!(copy.quantum_proof.is_none());
}

#[test]
fn records_compare_and_default() {
    let empty = FermentationConditions::default();
    assert_eq!(empty.temperature, 0);
    assert!(empty.sugar_source.is_empty());
    assert!(!Module::verify_conditions(&empty));
    assert_eq!(conditions(2500, 300, 5), conditions(2500, 300, 5));
    assert_ne!(conditions(2500, 300, 5), conditions(2500, 300, 6));
    let batch = FermentationBatch::<u64, u32>::default();
    assert_eq!(batch, FermentationBatch::<u64, u32>::default());
    assert!(!batch.certified);
    assert!(batch.batch_id.is_empty());
}
