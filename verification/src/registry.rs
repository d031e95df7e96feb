//! The kombucha registry: records of fermentation batches, the conditions
//! under which a batch ferments, and the ranges in which those conditions
//! are acceptable.

use vstd::prelude::*;

verus! {

/// A fermentation batch as the registry records it.
#[derive(Clone, Default, Debug, PartialEq, Eq)]
pub struct FermentationBatch<AccountId, BlockNumber> {
    /// Who brews the batch.
    pub brewer: AccountId,
    /// Unique identifier of the batch.
    pub batch_id: Vec<u8>,
    /// Block at which fermentation started.
    pub start_block: BlockNumber,
    /// Block at which fermentation is expected to be complete.
    pub expected_completion: BlockNumber,
    /// Hash of the fermentation conditions.
    pub conditions_hash: [u8; 32],
    /// Whether the batch has been certified.
    pub certified: bool,
    /// Proof presented at certification, if any.
    pub quantum_proof: Option<Vec<u8>>,
}

/// The conditions under which a batch ferments.
#[derive(Clone, Default, Debug, PartialEq, Eq)]
pub struct FermentationConditions {
    /// Temperature in hundredths of a degree Celsius.
    pub temperature: u32,
    /// Acidity in hundredths of a pH unit.
    pub ph_level: u32,
    /// Generation of the culture.
    pub scoby_generation: u32,
    /// Hash of the tea type.
    pub tea_hash: [u8; 32],
    /// Identifier of the sugar source.
    pub sugar_source: Vec<u8>,
    /// Hash of the additional ingredients.
    pub ingredients_hash: [u8; 32],
}

/// The registry's helper functions.
pub struct Module;

/// Whether conditions are acceptable: a temperature from 20.00 to 30.00
/// degrees Celsius, a pH from 2.50 to 3.50, and a culture of generation 1
/// to 20, all bounds included.
pub open spec fn acceptable(temperature: u32, ph_level: u32, scoby_generation: u32) -> bool {
    &&& 2000 <= temperature <= 3000
    &&& 250 <= ph_level <= 350
    &&& 1 <= scoby_generation <= 20
}

impl Module {
    /// Makes the identifier of a batch out of the encoded account of the
    /// brewer, the encoded number of the current block and an encoded
    /// random seed: the three, one after the other.
    pub fn generate_batch_id(sender: &[u8], current_block: &[u8], random_seed: &[u8]) -> (id: Vec<u8>)
        ensures
            id@ == sender@ + current_block@ + random_seed@,
    {
        let mut combined: Vec<u8> = Vec::new();
        combined.extend_from_slice(sender);
        combined.extend_from_slice(current_block);
        combined.extend_from_slice(random_seed);
        combined
    }

    /// Tells whether fermentation conditions are within acceptable ranges.
    pub fn verify_conditions(conditions: &FermentationConditions) -> (ok: bool)
        ensures
            ok == acceptable(
                conditions.temperature,
                conditions.ph_level,
                conditions.scoby_generation,
            ),
    {
        if conditions.temperature < 2000 || conditions.temperature > 3000 {
            return false;
        }
        if conditions.ph_level < 250 || conditions.ph_level > 350 {
            return false;
        }
        if conditions.scoby_generation < 1 || conditions.scoby_generation > 20 {
            return false;
        }
        true
    }
}

} // verus!
