//! EVM (Ethereum Virtual Machine) interface.
//!
//! The virtual machine is a placeholder: execution returns a fixed
//! success value and leaves the storage untouched, and gas analysis
//! returns a flat cost.

use vstd::prelude::*;
use crate::errors::ContractError;

verus! {

/// The flat gas cost the placeholder analysis assigns to any bytecode.
pub const EVM_FLAT_GAS: u64 = 100_000;

/// Executes EVM bytecode: a placeholder that returns a single success
/// byte and leaves the storage unchanged.
pub fn execute(bytecode: &[u8], input: &[u8], state: &mut Vec<(Vec<u8>, Vec<u8>)>) -> (r: Result<
    Vec<u8>,
    ContractError,
>)
    ensures
        r is Ok,
        r->Ok_0@ == seq![1u8],
        *final(state) == *old(state),
{
    let result: Vec<u8> = vec![0x01];
    proof {
        assert(result@ =~= seq![1u8]);
    }
    Ok(result)
}

/// Calculates the gas cost for EVM operations: a placeholder that
/// returns the flat cost for any bytecode.
pub fn calculate_gas(bytecode: &[u8]) -> (r: Result<u64, ContractError>)
    ensures
        r is Ok,
        r->Ok_0 == EVM_FLAT_GAS,
{
    Ok(EVM_FLAT_GAS)
}

} // verus!
