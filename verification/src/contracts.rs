//! The smart-contract engine: compilation, deployment, execution and gas
//! estimation over the shared ledger types.
//!
//! The compiler and virtual machine are placeholders that produce fixed
//! bytecode and results; the engine's bookkeeping — contract registry,
//! per-contract storage, gas arithmetic — is the logic specified here.

use vstd::prelude::*;
use crate::errors::ContractError;
use crate::kv::KvStore;
use crate::transaction::Transaction;
use crate::state::State;
use crate::strutil::{str_eq, str_starts_with, starts_with};
use crate::hashing::{u64_to_hex, hex_u64};
use vstd::string::StringExecFns;

verus! {

/// Represents a compiled smart contract.
pub struct Contract {
    /// Contract address.
    pub address: String,
    /// Contract bytecode.
    pub bytecode: Vec<u8>,
    /// Contract ABI (Application Binary Interface).
    pub abi: Vec<FunctionABI>,
    /// Contract creator's address.
    pub creator: String,
    /// Block height when the contract was deployed.
    pub deployed_at: u64,
}

/// Represents a function in a contract's ABI.
pub struct FunctionABI {
    /// Function name.
    pub name: String,
    /// Function inputs.
    pub inputs: Vec<ABIParameter>,
    /// Function outputs.
    pub outputs: Vec<ABIParameter>,
    /// Whether the function is constant (read-only).
    pub constant: bool,
    /// Function signature hash.
    pub signature: [u8; 4],
}

/// Represents a parameter in a function's ABI.
pub struct ABIParameter {
    /// Parameter name.
    pub name: String,
    /// Parameter type.
    pub param_type: String,
}

/// Gas cost configuration.
#[derive(Clone, Copy)]
pub struct GasConfig {
    /// Base cost for any transaction.
    pub base_cost: u64,
    /// Cost per byte of transaction data.
    pub data_cost: u64,
    /// Cost per computational step.
    pub step_cost: u64,
    /// Cost for contract deployment.
    pub deployment_cost: u64,
    /// Cost for storage operations.
    pub storage_cost: u64,
}

impl Default for GasConfig {
    /// The default gas costs.
    fn default() -> (r: Self)
        ensures
            r.base_cost == 21_000,
            r.data_cost == 68,
            r.step_cost == 1,
            r.deployment_cost == 32_000,
            r.storage_cost == 20_000,
    {
        GasConfig {
            base_cost: 21_000,
            data_cost: 68,
            step_cost: 1,
            deployment_cost: 32_000,
            storage_cost: 20_000,
        }
    }
}

/// The prefix of every contract address.
pub open spec fn contract_address_prefix() -> Seq<char> {
    "GENX_CONTRACT_"@
}

/// The flat gas estimate for a call into an already deployed contract.
pub const FUNCTION_CALL_COST: u64 = 100_000;

/// The gas a transaction is estimated to cost: the base cost, and for a
/// payload its per-byte cost plus either the deployment cost (when the
/// recipient is a contract address) or the flat call cost.
pub open spec fn spec_gas(tx: Transaction, cfg: GasConfig) -> int {
    cfg.base_cost + match tx.data {
        None => 0,
        Some(d) => d@.len() * cfg.data_cost + if starts_with(
            tx.recipient@,
            contract_address_prefix(),
        ) {
            cfg.deployment_cost as int
        } else {
            FUNCTION_CALL_COST as int
        },
    }
}

/// The index of the first ABI function with the given signature, if any.
pub open spec fn find_abi(s: Seq<FunctionABI>, sig: Seq<u8>) -> Option<int>
    decreases s.len(),
{
    if s.len() == 0 {
        None
    } else if s.first().signature@ == sig {
        Some(0)
    } else {
        match find_abi(s.drop_first(), sig) {
            Some(k) => Some(k + 1),
            None => None,
        }
    }
}

/// If no entry before `j` carries the signature and entry `j` does, the
/// find function names `j`.
proof fn lemma_find_abi_at(s: Seq<FunctionABI>, sig: Seq<u8>, j: int)
    requires
        0 <= j < s.len(),
        s[j].signature@ == sig,
        forall|k: int| 0 <= k < j ==> (#[trigger] s[k]).signature@ != sig,
    ensures
        find_abi(s, sig) == Some(j),
    decreases j,
{
    if j > 0 {
        lemma_find_abi_at(s.drop_first(), sig, j - 1);
    }
}

/// If no entry carries the signature, the find function names none.
proof fn lemma_find_abi_none(s: Seq<FunctionABI>, sig: Seq<u8>)
    requires
        forall|k: int| 0 <= k < s.len() ==> (#[trigger] s[k]).signature@ != sig,
    ensures
        find_abi(s, sig) is None,
    decreases s.len(),
{
    if s.len() > 0 {
        lemma_find_abi_none(s.drop_first(), sig);
    }
}

/// The index of the first contract at the given address, if any.
pub open spec fn find_contract(s: Seq<Contract>, addr: Seq<char>) -> Option<int> {
    if exists|i: int| 0 <= i < s.len() && (#[trigger] s[i]).address@ == addr {
        Some(choose|i: int| 0 <= i < s.len() && (#[trigger] s[i]).address@ == addr)
    } else {
        None
    }
}

/// No two contracts share an address.
pub open spec fn contracts_unique(s: Seq<Contract>) -> bool {
    forall|i: int, j: int|
        0 <= i < j < s.len() ==> (#[trigger] s[i]).address@ != (#[trigger] s[j]).address@
}

/// Relies on rand::random: a fresh random value. Nothing is promised of
/// it.
#[verifier::external_body]
fn random_u64() -> u64 {
    rand::random::<u64>()
}

/// Builds the fixed placeholder compilation output: the stub bytecode and
/// an ABI holding the single `transfer(address,uint256)` function.
fn placeholder_compilation() -> (r: (Vec<u8>, Vec<FunctionABI>))
    ensures
        r.0@ == seq![0x60u8, 0x80u8, 0x60u8, 0x40u8, 0x52u8],
        r.1@.len() == 1,
        r.1@[0].name@ == "transfer"@,
        !r.1@[0].constant,
        r.1@[0].signature@ == seq![0xa9u8, 0x05u8, 0x9cu8, 0xbbu8],
        r.1@[0].inputs@.len() == 2,
        r.1@[0].inputs@[0].name@ == "to"@,
        r.1@[0].inputs@[0].param_type@ == "address"@,
        r.1@[0].inputs@[1].name@ == "amount"@,
        r.1@[0].inputs@[1].param_type@ == "uint256"@,
        r.1@[0].outputs@.len() == 1,
        r.1@[0].outputs@[0].name@ == ""@,
        r.1@[0].outputs@[0].param_type@ == "bool"@,
{
    let bytecode: Vec<u8> = vec![0x60, 0x80, 0x60, 0x40, 0x52];
    let mut inputs: Vec<ABIParameter> = Vec::new();
    inputs.push(
        ABIParameter { name: String::from_str("to"), param_type: String::from_str("address") },
    );
    inputs.push(
        ABIParameter { name: String::from_str("amount"), param_type: String::from_str("uint256") },
    );
    let mut outputs: Vec<ABIParameter> = Vec::new();
    outputs.push(
        ABIParameter { name: String::from_str(""), param_type: String::from_str("bool") },
    );
    let function = FunctionABI {
        name: String::from_str("transfer"),
        inputs,
        outputs,
        constant: false,
        signature: [0xa9, 0x05, 0x9c, 0xbb],
    };
    let mut abi: Vec<FunctionABI> = Vec::new();
    abi.push(function);
    proof {
        assert(bytecode@ =~= seq![0x60u8, 0x80u8, 0x60u8, 0x40u8, 0x52u8]);
        assert(abi@[0].signature@ =~= seq![0xa9u8, 0x05u8, 0x9cu8, 0xbbu8]);
    }
    (bytecode, abi)
}

/// Manages smart contract compilation, deployment, and execution.
pub struct ContractEngine {
    /// Gas configuration.
    gas_config: GasConfig,
    /// Deployed contracts, at most one per address.
    contracts: Vec<Contract>,
    /// Contract state (address -> storage entries).
    contract_state: KvStore<Vec<(Vec<u8>, Vec<u8>)>>,
}

impl ContractEngine {
    /// The configured gas costs.
    pub closed spec fn spec_gas_config(&self) -> GasConfig {
        self.gas_config
    }

    /// The deployed contracts, in deployment order.
    pub closed spec fn spec_contracts(&self) -> Seq<Contract> {
        self.contracts@
    }

    /// The per-contract storage map.
    pub closed spec fn spec_contract_state(&self) -> Map<Seq<char>, Vec<(Vec<u8>, Vec<u8>)>> {
        self.contract_state@
    }

    /// Deployed addresses are pairwise distinct and the storage store is
    /// well formed.
    pub closed spec fn wf(&self) -> bool {
        &&& contracts_unique(self.contracts@)
        &&& self.contract_state.wf()
    }

    /// Creates a new contract engine with the given gas configuration.
    pub fn new(gas_config: GasConfig) -> (r: Self)
        ensures
            r.wf(),
            r.spec_gas_config() == gas_config,
            r.spec_contracts() == Seq::<Contract>::empty(),
            r.spec_contract_state() =~= Map::<Seq<char>, Vec<(Vec<u8>, Vec<u8>)>>::empty(),
    {
        ContractEngine { gas_config, contracts: Vec::new(), contract_state: KvStore::new() }
    }

    /// Compiles a Solidity contract: a placeholder that always returns
    /// the stub bytecode and the single-function transfer ABI.
    pub fn compile_contract(&self, source_code: &str) -> (r: Result<
        (Vec<u8>, Vec<FunctionABI>),
        ContractError,
    >)
        ensures
            r is Ok,
            r->Ok_0.0@ == seq![0x60u8, 0x80u8, 0x60u8, 0x40u8, 0x52u8],
            r->Ok_0.1@.len() == 1,
            r->Ok_0.1@[0].name@ == "transfer"@,
            r->Ok_0.1@[0].signature@ == seq![0xa9u8, 0x05u8, 0x9cu8, 0xbbu8],
            !r->Ok_0.1@[0].constant,
            r->Ok_0.1@[0].inputs@.len() == 2,
            r->Ok_0.1@[0].inputs@[0].name@ == "to"@,
            r->Ok_0.1@[0].inputs@[0].param_type@ == "address"@,
            r->Ok_0.1@[0].inputs@[1].name@ == "amount"@,
            r->Ok_0.1@[0].inputs@[1].param_type@ == "uint256"@,
            r->Ok_0.1@[0].outputs@.len() == 1,
            r->Ok_0.1@[0].outputs@[0].name@ == ""@,
            r->Ok_0.1@[0].outputs@[0].param_type@ == "bool"@,
    {
        Ok(placeholder_compilation())
    }

    /// Deploys a contract under a fresh random address with the contract
    /// address prefix, registering its code and empty storage.
    pub fn deploy_contract(
        &mut self,
        bytecode: Vec<u8>,
        abi: Vec<FunctionABI>,
        creator: String,
        block_height: u64,
    ) -> (r: Result<String, ContractError>)
        requires
            old(self).wf(),
        ensures
            final(self).wf(),
            final(self).spec_gas_config() == old(self).spec_gas_config(),
            r is Ok,
            starts_with(r->Ok_0@, contract_address_prefix()),
            find_contract(final(self).spec_contracts(), r->Ok_0@) matches Some(i) && {
                let c = final(self).spec_contracts()[i];
                &&& c.address@ == r->Ok_0@
                &&& c.bytecode == bytecode
                &&& c.abi == abi
                &&& c.creator == creator
                &&& c.deployed_at == block_height
            },
            final(self).spec_contract_state().dom().contains(r->Ok_0@),
            (final(self).spec_contract_state()[r->Ok_0@]@ =~= Seq::<(Vec<u8>, Vec<u8>)>::empty()),
    {
        let suffix = u64_to_hex(random_u64());
        let mut address = String::from_str("GENX_CONTRACT_");
        address.append(suffix.as_str());
        proof {
            assert(address@.subrange(0, contract_address_prefix().len() as int)
                =~= contract_address_prefix());
        }
        let contract = Contract {
            address: address.clone(),
            bytecode,
            abi,
            creator,
            deployed_at: block_height,
        };
        let n = self.contracts.len();
        let mut at: usize = n;
        let mut found = false;
        for i in 0..n
            invariant
                n == self.contracts@.len(),
                !found ==> (forall|j: int|
                    0 <= j < i ==> (#[trigger] self.contracts@[j]).address@ != address@),
                found ==> (at < i && self.contracts@[at as int].address@ == address@ && (forall|
                    j: int,
                |
                    0 <= j < at ==> (#[trigger] self.contracts@[j]).address@ != address@)),
                at <= n,
        {
            if !found && str_eq(self.contracts[i].address.as_str(), address.as_str()) {
                at = i;
                found = true;
            }
        }
        if found {
            self.contracts.remove(at);
            self.contracts.insert(at, contract);
        } else {
            self.contracts.push(contract);
        }
        self.contract_state.set(address.as_str(), Vec::new());
        proof {
            let cps = final(self).spec_contracts();
            let i = if found {
                at as int
            } else {
                n as int
            };
            assert(cps[i].address@ == address@);
            assert(contracts_unique(cps));
            lemma_find_contract_at(cps, address@, i);
        }
        Ok(address)
    }

    /// Executes a contract function: the placeholder virtual machine
    /// returns one for the transfer function and zero for any other. The
    /// ledger state is not touched.
    #[verifier::rlimit(100)]
    pub fn execute_function(
        &mut self,
        contract_address: &str,
        function_signature: &[u8; 4],
        arguments: &[u8],
        sender: &str,
        value: u64,
        state: &mut State,
    ) -> (r: Result<Vec<u8>, ContractError>)
        requires
            old(self).wf(),
        ensures
            final(self).wf(),
            *final(self) == *old(self),
            *final(state) == *old(state),
            r is Err ==> (r matches Err(ContractError::StateError(_)) <==> find_contract(
                old(self).spec_contracts(),
                contract_address@,
            ) is None),
            (match find_contract(old(self).spec_contracts(), contract_address@) {
                None => r matches Err(ContractError::StateError(_)),
                Some(i) => {
                    let c = old(self).spec_contracts()[i];
                    match find_abi(c.abi@, function_signature@) {
                        None => r matches Err(ContractError::ExecutionError(_)),
                        Some(j) => r matches Ok(v) && v@ == if c.abi@[j].name@ == "transfer"@ {
                            seq![1u8]
                        } else {
                            seq![0u8]
                        },
                    }
                },
            }),
    {
        let n = self.contracts.len();
        let mut ci: usize = n;
        let mut cfound = false;
        for i in 0..n
            invariant
                n == self.contracts@.len(),
                !cfound ==> (forall|j: int|
                    0 <= j < i ==> (#[trigger] self.contracts@[j]).address@ != contract_address@),
                cfound ==> (ci < i && self.contracts@[ci as int].address@ == contract_address@),
                ci <= n,
                *self == *old(self),
                *state == *old(state),
                old(self).wf(),
        {
            if !cfound && str_eq(self.contracts[i].address.as_str(), contract_address) {
                ci = i;
                cfound = true;
            }
        }
        if !cfound {
            proof {
                if find_contract(self.contracts@, contract_address@) is Some {
                    let k = choose|k: int|
                        0 <= k < self.contracts@.len() && (#[trigger] self.contracts@[k]).address@
                            == contract_address@;
                    assert(self.contracts@[k].address@ != contract_address@);
                }
            }
            return Err(ContractError::StateError(String::from_str("Contract not found")));
        }
        proof {
            lemma_find_contract_at(self.contracts@, contract_address@, ci as int);
        }
        let m = self.contracts[ci].abi.len();
        let ghost abi = self.contracts@[ci as int].abi@;
        for j in 0..m
            invariant
                m == abi.len(),
                abi == old(self).spec_contracts()[ci as int].abi@,
                ci < old(self).spec_contracts().len(),
                old(self).spec_contracts()[ci as int].address@ == contract_address@,
                find_contract(old(self).spec_contracts(), contract_address@) == Some(ci as int),
                forall|k: int| 0 <= k < j ==> (#[trigger] abi[k]).signature@ != function_signature@,
                *self == *old(self),
                *state == *old(state),
                old(self).wf(),
        {
            let f = &self.contracts[ci].abi[j];
            if sig_eq(&f.signature, function_signature) {
                let result: Vec<u8> = if str_eq(self.contracts[ci].abi[j].name.as_str(), "transfer")
                    {
                    vec![0x01]
                } else {
                    vec![0x00]
                };
                proof {
                    assert(result@ =~= if abi[j as int].name@ == "transfer"@ {
                        seq![1u8]
                    } else {
                        seq![0u8]
                    });
                    let c = old(self).spec_contracts()[ci as int];
                    assert(c.abi@ == abi);
                    lemma_find_abi_at(c.abi@, function_signature@, j as int);
                }
                return Ok(result);
            }
        }
        proof {
            lemma_find_abi_none(abi, function_signature@);
        }
        Err(ContractError::ExecutionError(String::from_str("Function not found")))
    }

    /// Estimates the gas cost for a transaction. The estimate must fit
    /// the machine word.
    pub fn estimate_gas(&self, tx: &Transaction) -> (r: Result<u64, ContractError>)
        requires
            spec_gas(*tx, self.spec_gas_config()) <= u64::MAX,
        ensures
            r is Ok,
            r->Ok_0 == spec_gas(*tx, self.spec_gas_config()),
    {
        let base = self.gas_config.base_cost;
        match &tx.data {
            None => Ok(base),
            Some(d) => {
                let dlen = d.len();
                proof {
                    assert(dlen as u128 * self.gas_config.data_cost as u128 <= u64::MAX as u128
                        * u64::MAX as u128) by (nonlinear_arith)
                        requires
                            dlen <= u64::MAX,
                            self.gas_config.data_cost <= u64::MAX,
                    ;
                }
                let data_gas = dlen as u128 * self.gas_config.data_cost as u128;
                let extra: u64 = if str_starts_with(tx.recipient.as_str(), "GENX_CONTRACT_") {
                    self.gas_config.deployment_cost
                } else {
                    FUNCTION_CALL_COST
                };
                let total = base as u128 + data_gas + extra as u128;
                Ok(total as u64)
            },
        }
    }

    /// Gets a contract by its address.
    pub fn get_contract(&self, address: &str) -> (r: Option<&Contract>)
        requires
            self.wf(),
        ensures
            match find_contract(self.spec_contracts(), address@) {
                Some(i) => r matches Some(c) && *c == self.spec_contracts()[i],
                None => r is None,
            },
    {
        let n = self.contracts.len();
        for i in 0..n
            invariant
                n == self.contracts@.len(),
                self.wf(),
                forall|j: int|
                    0 <= j < i ==> (#[trigger] self.contracts@[j]).address@ != address@,
        {
            if str_eq(self.contracts[i].address.as_str(), address) {
                proof {
                    assert forall|j: int|
                        0 <= j < self.contracts@.len() && j != i as int implies (
                    #[trigger] self.contracts@[j]).address@ != address@ by {
                        if j < i as int {
                            assert(self.contracts@[j].address@ != self.contracts@[i as int].address@);
                        } else {
                            assert(self.contracts@[i as int].address@ != self.contracts@[j].address@);
                        }
                    }
                    lemma_find_contract_at(self.contracts@, address@, i as int);
                }
                return Some(&self.contracts[i]);
            }
        }
        proof {
            if find_contract(self.contracts@, address@) is Some {
                let k = choose|k: int|
                    0 <= k < self.contracts@.len() && (#[trigger] self.contracts@[k]).address@
                        == address@;
                assert(self.contracts@[k].address@ != address@);
            }
        }
        None
    }

    /// Gets all deployed contracts, in deployment order.
    pub fn get_contracts(&self) -> (r: &Vec<Contract>)
        ensures
            r@ == self.spec_contracts(),
    {
        &self.contracts
    }

    /// Gets the storage of a contract, if it has been deployed.
    pub fn get_contract_state(&self, address: &str) -> (r: Option<&Vec<(Vec<u8>, Vec<u8>)>>)
        ensures
            match r {
                Some(v) => self.spec_contract_state().dom().contains(address@) && *v
                    == self.spec_contract_state()[address@],
                None => !self.spec_contract_state().dom().contains(address@),
            },
    {
        self.contract_state.get(address)
    }
}

/// When exactly one contract carries an address, the find function names
/// its index.
proof fn lemma_find_contract_at(s: Seq<Contract>, addr: Seq<char>, i: int)
    requires
        0 <= i < s.len(),
        s[i].address@ == addr,
        forall|j: int| 0 <= j < s.len() && j != i ==> (#[trigger] s[j]).address@ != addr,
    ensures
        find_contract(s, addr) == Some(i),
{
    assert(exists|k: int| 0 <= k < s.len() && (#[trigger] s[k]).address@ == addr);
    let k = choose|k: int| 0 <= k < s.len() && (#[trigger] s[k]).address@ == addr;
    assert(k == i);
}

/// Compares two four-byte function signatures.
fn sig_eq(a: &[u8; 4], b: &[u8; 4]) -> (r: bool)
    ensures
        r == (a@ == b@),
{
    let r = a[0] == b[0] && a[1] == b[1] && a[2] == b[2] && a[3] == b[3];
    proof {
        if r {
            assert(a@ =~= b@);
        }
    }
    r
}

} // verus!
