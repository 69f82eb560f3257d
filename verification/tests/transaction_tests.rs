use genx_chain::errors::BlockchainError;
use genx_chain::hashing::{hash_to_hex, sha256, u64_to_hex};
use genx_chain::transaction::Transaction;

#[test]
fn new_transaction_has_matching_id() {
    let tx = Transaction::new("alice".to_string(), "bob".to_string(), 5, 1, None).unwrap();
    assert_eq!(tx.id.len(), 32);
    assert_eq!(tx.calculate_hash().unwrap(), tx.id);
    assert!(tx.validate().is_ok());
    assert!(tx.signature.is_none());
}

#[test]
fn zero_amount_transfer_is_invalid() {
    let tx = Transaction::new("alice".to_string(), "bob".to_string(), 0, 1, None).unwrap();
    assert!(matches!(tx.validate(), Err(BlockchainError::InvalidTransaction(_))));
}

#[test]
fn zero_amount_coinbase_is_valid() {
    let tx = Transaction::new_coinbase("alice".to_string(), 0).unwrap();
    assert_eq!(tx.sender, "COINBASE");
    assert_eq!(tx.fee, 0);
    assert!(tx.validate().is_ok());
}

#[test]
fn tampered_id_is_detected() {
    let mut tx = Transaction::new("alice".to_string(), "bob".to_string(), 5, 1, None).unwrap();
    tx.id[0] = tx.id[0].wrapping_add(1);
    assert!(matches!(tx.validate(), Err(BlockchainError::InvalidTransaction(_))));
}

#[test]
fn tampered_amount_is_detected() {
    let mut tx = Transaction::new("alice".to_string(), "bob".to_string(), 5, 1, None).unwrap();
    tx.amount = 6;
    assert!(matches!(tx.validate(), Err(BlockchainError::InvalidTransaction(_))));
}

#[test]
fn signature_does_not_change_the_id() {
    let mut tx = Transaction::new("alice".to_string(), "bob".to_string(), 5, 1, None).unwrap();
    let id = tx.id.clone();
    tx.sign(&[0u8; 32]).unwrap();
    assert_eq!(tx.signature, Some(vec![1, 2, 3, 4]));
    assert_eq!(tx.id, id);
    assert!(tx.validate().is_ok());
}

#[test]
fn identical_fields_give_identical_ids() {
    let t1 = Transaction::new_at(77, "a".to_string(), "b".to_string(), 5, 1, None).unwrap();
    let t2 = Transaction::new_at(77, "a".to_string(), "b".to_string(), 5, 1, None).unwrap();
    let t3 = Transaction::new_at(78, "a".to_string(), "b".to_string(), 5, 1, None).unwrap();
    assert_eq!(t1.id, t2.id);
    assert_ne!(t1.id, t3.id);
}

#[test]
fn data_payload_enters_the_id() {
    let t1 = Transaction::new_at(77, "a".to_string(), "b".to_string(), 5, 1, Some(vec![1]))
        .unwrap();
    let t2 = Transaction::new_at(77, "a".to_string(), "b".to_string(), 5, 1, Some(vec![2]))
        .unwrap();
    assert_ne!(t1.id, t2.id);
}

#[test]
fn sha256_matches_known_digest() {
    let digest = sha256(b"abc");
    assert_eq!(
        hash_to_hex(&digest),
        "ba7816bf8f01cfea414140de5dae2223b00361a396177a9cb410ff61f20015ad"
    );
}

#[test]
fn hex_rendering_matches() {
    assert_eq!(hash_to_hex(&vec![0x00, 0xff, 0x1a]), "00ff1a");
    assert_eq!(u64_to_hex(0), "0");
    assert_eq!(u64_to_hex(255), "ff");
    assert_eq!(u64_to_hex(0xdead_beef), "deadbeef");
}
