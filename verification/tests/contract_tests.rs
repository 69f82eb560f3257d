use genx_chain::contracts::{ContractEngine, GasConfig};
use genx_chain::errors::ContractError;
use genx_chain::evm;
use genx_chain::node::NodeState;
use genx_chain::network::{Message, MessageType};
use genx_chain::solidity;
use genx_chain::state::State;
use genx_chain::transaction::Transaction;

fn engine() -> ContractEngine {
    ContractEngine::new(GasConfig::default())
}

#[test]
fn compile_returns_the_stub_output() {
    let e = engine();
    let (bytecode, abi) = e.compile_contract("contract T {}").unwrap();
    assert_eq!(bytecode, vec![0x60, 0x80, 0x60, 0x40, 0x52]);
    assert_eq!(abi.len(), 1);
    assert_eq!(abi[0].name, "transfer");
    assert_eq!(abi[0].signature, [0xa9, 0x05, 0x9c, 0xbb]);
    assert_eq!(abi[0].inputs.len(), 2);
    assert!(!abi[0].constant);
}

#[test]
fn solidity_module_compiles_the_same_stub() {
    let (bytecode, abi) = solidity::compile("contract T {}").unwrap();
    assert_eq!(bytecode, vec![0x60, 0x80, 0x60, 0x40, 0x52]);
    assert_eq!(abi[0].name, "transfer");
}

#[test]
fn deploy_registers_the_contract() {
    let mut e = engine();
    let (bytecode, abi) = e.compile_contract("contract T {}").unwrap();
    let address = e.deploy_contract(bytecode.clone(), abi, "alice".to_string(), 3).unwrap();
    assert!(address.starts_with("GENX_CONTRACT_"));
    let c = e.get_contract(&address).unwrap();
    assert_eq!(c.bytecode, bytecode);
    assert_eq!(c.creator, "alice");
    assert_eq!(c.deployed_at, 3);
    assert_eq!(e.get_contracts().len(), 1);
    assert!(e.get_contract_state(&address).unwrap().is_empty());
    assert!(e.get_contract("GENX_CONTRACT_none").is_none());
}

#[test]
fn execute_transfer_returns_success_byte() {
    let mut e = engine();
    let (bytecode, abi) = e.compile_contract("contract T {}").unwrap();
    let address = e.deploy_contract(bytecode, abi, "alice".to_string(), 1).unwrap();
    let mut state = State::new();
    let out = e
        .execute_function(&address, &[0xa9, 0x05, 0x9c, 0xbb], &[], "alice", 0, &mut state)
        .unwrap();
    assert_eq!(out, vec![0x01]);

    let missing_fn = e.execute_function(&address, &[0, 0, 0, 0], &[], "alice", 0, &mut state);
    assert!(matches!(missing_fn, Err(ContractError::ExecutionError(_))));

    let missing_contract =
        e.execute_function("GENX_CONTRACT_none", &[0xa9, 0x05, 0x9c, 0xbb], &[], "a", 0, &mut state);
    assert!(matches!(missing_contract, Err(ContractError::StateError(_))));
}

#[test]
fn gas_estimates_are_exact() {
    let e = engine();
    let plain = Transaction::new("a".to_string(), "bob".to_string(), 5, 0, None).unwrap();
    assert_eq!(e.estimate_gas(&plain).unwrap(), 21_000);

    let call = Transaction::new("a".to_string(), "bob".to_string(), 5, 0, Some(vec![1, 2, 3]))
        .unwrap();
    assert_eq!(e.estimate_gas(&call).unwrap(), 21_000 + 3 * 68 + 100_000);

    let deploy = Transaction::new(
        "a".to_string(),
        "GENX_CONTRACT_7".to_string(),
        5,
        0,
        Some(vec![1, 2, 3]),
    )
    .unwrap();
    assert_eq!(e.estimate_gas(&deploy).unwrap(), 21_000 + 3 * 68 + 32_000);
}

#[test]
fn evm_placeholders() {
    let mut storage: Vec<(Vec<u8>, Vec<u8>)> = Vec::new();
    let out = evm::execute(&[0x60], &[], &mut storage).unwrap();
    assert_eq!(out, vec![0x01]);
    assert!(storage.is_empty());
    assert_eq!(evm::calculate_gas(&[0x60]).unwrap(), 100_000);
}

#[test]
fn shared_vocabulary_types() {
    let msg = Message::new(MessageType::Ping, vec![1], "node1".to_string(), 9);
    assert!(matches!(msg.message_type, MessageType::Ping));
    assert_eq!(msg.sender, "node1");
    assert_eq!(msg.timestamp, 9);
    assert_eq!(NodeState::Running, NodeState::Running);
    assert_ne!(NodeState::Running, NodeState::Syncing);
}
