use genx_chain::errors::WalletError;
use genx_chain::wallet::{Wallet, WalletConfig};
use genx_chain::wallet_api::WalletApi;

fn unlocked_wallet() -> Wallet {
    let mut wallet = Wallet::new(WalletConfig::default());
    wallet.unlock("correct horse").unwrap();
    wallet
}

#[test]
fn default_config() {
    let config = WalletConfig::default();
    assert_eq!(config.name, "GENX Wallet");
    assert_eq!(config.version, "1.0.0");
    assert_eq!(config.encryption_algorithm, "aes-256-gcm");
    assert!(config.is_encrypted);
}

#[test]
fn locked_wallet_refuses_accounts() {
    let mut wallet = Wallet::new(WalletConfig::default());
    let r = wallet.create_account("main");
    assert!(matches!(r, Err(WalletError::AccountError(_))));
    assert!(wallet.get_accounts().is_empty());
}

#[test]
fn create_account_shapes_the_address() {
    let mut wallet = unlocked_wallet();
    let address = wallet.create_account("main").unwrap();
    assert!(address.starts_with("GENX"));
    assert_eq!(address.len(), 68);
    let account = wallet.get_account(&address).unwrap();
    assert_eq!(account.label, "main");
    assert!(account.is_default);
    assert_eq!(account.encrypted_private_key.len(), 60);
}

#[test]
fn first_account_becomes_default() {
    let mut wallet = unlocked_wallet();
    let first = wallet.create_account("one").unwrap();
    let second = wallet.create_account("two").unwrap();
    assert_eq!(wallet.get_default_account().unwrap().address, first);
    wallet.set_default_account(&second).unwrap();
    assert_eq!(wallet.get_default_account().unwrap().address, second);
    assert!(!wallet.get_account(&first).unwrap().is_default);
    assert!(wallet.get_account(&second).unwrap().is_default);
    let unknown = wallet.set_default_account("GENX_nobody");
    assert!(matches!(unknown, Err(WalletError::AccountError(_))));
}

#[test]
fn signed_transaction_validates() {
    let mut wallet = unlocked_wallet();
    let address = wallet.create_account("main").unwrap();
    let tx = wallet.create_transaction(&address, "bob", 25, 1, None).unwrap();
    assert_eq!(tx.sender, address);
    assert_eq!(tx.recipient, "bob");
    assert_eq!(tx.amount, 25);
    assert_eq!(tx.fee, 1);
    assert_eq!(tx.signature.as_ref().unwrap().len(), 64);
    assert!(tx.validate().is_ok());
}

#[test]
fn unknown_sender_is_rejected() {
    let wallet = unlocked_wallet();
    let r = wallet.create_transaction("GENX_missing", "bob", 1, 0, None);
    assert!(matches!(r, Err(WalletError::AccountError(_))));
}

#[test]
fn wrong_password_fails_decryption() {
    let mut wallet = unlocked_wallet();
    let address = wallet.create_account("main").unwrap();
    wallet.lock();
    wallet.unlock("wrong password").unwrap();
    let r = wallet.create_transaction(&address, "bob", 1, 0, None);
    assert!(matches!(r, Err(WalletError::KeyError(_))));
}

#[test]
fn api_delegates_account_management() {
    let mut api = WalletApi::new(Wallet::new(WalletConfig::default()));
    api.unlock("pw").unwrap();
    let address = api.create_account("savings").unwrap();
    let accounts = api.get_accounts().unwrap();
    assert_eq!(accounts.len(), 1);
    assert_eq!(accounts[0].address, address);
    assert_eq!(api.get_account(&address).unwrap().unwrap().label, "savings");
    assert!(api.get_account("GENX_missing").unwrap().is_none());
    assert_eq!(api.get_default_account().unwrap().unwrap().address, address);
    api.set_default_account(&address).unwrap();
    let tx = api.create_transaction(&address, "bob", 2, 0, None).unwrap();
    assert!(tx.validate().is_ok());
    assert_eq!(api.get_balance(&address).unwrap(), 1000);
    api.lock().unwrap();
    assert!(matches!(api.create_transaction(&address, "bob", 2, 0, None),
        Err(WalletError::AccountError(_))));
}
