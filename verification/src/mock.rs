use vstd::prelude::*;

use crate::pallet::{KittiesModel, Module};
use crate::system::{System, SystemModel};

verus! {

/// The runtime the pallet is tested in: its system storage beside the pallet's storage.
pub struct TestKitty {
    pub system: System,
    pub kitties: Module,
}

/// A fresh test runtime at genesis.
pub fn new_test_ext() -> (ext: TestKitty)
    ensures
        ext.system@ == SystemModel::genesis(),
        ext.kitties@ == KittiesModel::genesis(),
{
    TestKitty { system: System::new(), kitties: Module::new() }
}

/// Advances the chain one block at a time until block `n` is reached. Neither the
/// system's nor the pallet's block hooks do anything, so only the block number moves;
/// a chain already at or past `n` is left as it is.
pub fn run_to_block(system: &mut System, n: u64)
    ensures
        final(system)@ == (SystemModel {
            block_number: if old(system)@.block_number < n {
                n
            } else {
                old(system)@.block_number
            },
            ..old(system)@
        }),
{
    while system.block_number() < n
        invariant
            system@.extrinsic_index == old(system)@.extrinsic_index,
            system@.execution_phase == old(system)@.execution_phase,
            system@.events == old(system)@.events,
            old(system)@.block_number < n ==> system@.block_number <= n,
            old(system)@.block_number >= n ==> system@ == old(system)@,
            old(system)@.block_number <= system@.block_number,
        decreases n - system@.block_number,
    {
        let current = system.block_number();
        system.set_block_number(current + 1);
    }
}

} // verus!
