//! Solidity compiler interface.
//!
//! The compiler is a placeholder: every source compiles to the stub
//! bytecode and the single-function transfer ABI.

use vstd::prelude::*;
use crate::errors::ContractError;
use crate::contracts::{FunctionABI, ABIParameter};
use vstd::string::StringExecFns;

verus! {

/// Compiles a Solidity source file: a placeholder that always returns
/// the stub bytecode and the single-function transfer ABI.
pub fn compile(source: &str) -> (r: Result<(Vec<u8>, Vec<FunctionABI>), ContractError>)
    ensures
        r is Ok,
        r->Ok_0.0@ == seq![0x60u8, 0x80u8, 0x60u8, 0x40u8, 0x52u8],
        r->Ok_0.1@.len() == 1,
        r->Ok_0.1@[0].name@ == "transfer"@,
        r->Ok_0.1@[0].signature@ == seq![0xa9u8, 0x05u8, 0x9cu8, 0xbbu8],
        !r->Ok_0.1@[0].constant,
        r->Ok_0.1@[0].inputs@.len() == 2,
        r->Ok_0.1@[0].inputs@[0].name@ == "to"@,
        r->Ok_0.1@[0].inputs@[0].param_type@ == "address"@,
        r->Ok_0.1@[0].inputs@[1].name@ == "amount"@,
        r->Ok_0.1@[0].inputs@[1].param_type@ == "uint256"@,
        r->Ok_0.1@[0].outputs@.len() == 1,
        r->Ok_0.1@[0].outputs@[0].name@ == ""@,
        r->Ok_0.1@[0].outputs@[0].param_type@ == "bool"@,
{
    let bytecode: Vec<u8> = vec![0x60, 0x80, 0x60, 0x40, 0x52];
    let mut inputs: Vec<ABIParameter> = Vec::new();
    inputs.push(
        ABIParameter { name: String::from_str("to"), param_type: String::from_str("address") },
    );
    inputs.push(
        ABIParameter { name: String::from_str("amount"), param_type: String::from_str("uint256") },
    );
    let mut outputs: Vec<ABIParameter> = Vec::new();
    outputs.push(ABIParameter { name: String::from_str(""), param_type: String::from_str("bool") });
    let function = FunctionABI {
        name: String::from_str("transfer"),
        inputs,
        outputs,
        constant: false,
        signature: [0xa9, 0x05, 0x9c, 0xbb],
    };
    let mut abi: Vec<FunctionABI> = Vec::new();
    abi.push(function);
    proof {
        assert(bytecode@ =~= seq![0x60u8, 0x80u8, 0x60u8, 0x40u8, 0x52u8]);
        assert(abi@[0].signature@ =~= seq![0xa9u8, 0x05u8, 0x9cu8, 0xbbu8]);
    }
    Ok((bytecode, abi))
}

} // verus!
