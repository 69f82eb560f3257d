//! Wallet account management and transaction signing.
//!
//! Accounts carry ed25519 keys: the private key is held encrypted under
//! a key derived from the wallet password, and is decrypted only to sign.
//! Persistence lives outside the core: callers load and store the
//! accounts; the wallet manages them and signs.

use vstd::prelude::*;
use vstd::utf8::encode_utf8;
use crate::errors::WalletError;
use crate::transaction::{Transaction, tx_id};
use crate::strutil::str_eq;
use crate::clock::current_timestamp;
use crate::hashing::{hex_of, hash_to_hex};
use vstd::string::StringExecFns;

verus! {

/// The PBKDF2 iteration count used to derive wallet keys.
pub const KEY_DERIVATION_ROUNDS: u32 = 10_000;

/// The byte length of an encrypted private key: a 12-byte nonce, the
/// 32-byte key, and a 16-byte authentication tag.
pub const ENCRYPTED_KEY_LEN: usize = 60;

/// The 32-byte key PBKDF2-HMAC-SHA256 derives from a password, a salt
/// and an iteration count: a pure function of the three.
pub uninterp spec fn derived_key_of(password: Seq<u8>, salt: Seq<u8>, rounds: u32) -> Seq<u8>;

/// Relies on pbkdf2::pbkdf2 with HMAC-SHA256: the derived key depends
/// only on password, salt and rounds, and fills the 32-byte buffer (HMAC
/// accepts keys of any length, so derivation cannot fail).
#[verifier::external_body]
fn pbkdf2_derive(password: &[u8], salt: &[u8], rounds: u32) -> (r: Vec<u8>)
    ensures
        r@ == derived_key_of(password@, salt@, rounds),
        r@.len() == 32,
{
    let mut key = [0u8; 32];
    let _ = pbkdf2::pbkdf2::<hmac::Hmac<sha2::Sha256>>(password, salt, rounds, &mut key);
    key.to_vec()
}

/// Relies on aes_gcm::Aes256Gcm (through the Aead trait) and rand's
/// OsRng: encryption with a fresh random 12-byte nonce, which is stored
/// in front of the ciphertext; the ciphertext is the plaintext plus a
/// 16-byte tag, so the result is 28 bytes longer than the input.
#[verifier::external_body]
fn aes_gcm_encrypt(key: &[u8], plaintext: &[u8]) -> (r: Option<Vec<u8>>)
    requires
        key@.len() == 32,
    ensures
        r matches Some(v) ==> v@.len() == plaintext@.len() + 28,
{
    let cipher = match <aes_gcm::Aes256Gcm as aes_gcm::KeyInit>::new_from_slice(key) {
        Ok(c) => c,
        Err(_) => { return None },
    };
    let mut nonce_bytes = [0u8; 12];
    rand::Rng::fill(&mut rand::rngs::OsRng, &mut nonce_bytes[..]);
    let nonce = aes_gcm::Nonce::from_slice(&nonce_bytes);
    let ciphertext = match aes_gcm::aead::Aead::encrypt(&cipher, nonce, plaintext) {
        Ok(c) => c,
        Err(_) => { return None },
    };
    let mut result = Vec::with_capacity(nonce_bytes.len() + ciphertext.len());
    result.extend_from_slice(&nonce_bytes);
    result.extend_from_slice(&ciphertext);
    Some(result)
}

/// Relies on aes_gcm::Aes256Gcm (through the Aead trait): decryption of
/// a nonce-prefixed ciphertext; on success the plaintext is 28 bytes
/// shorter than the input (nonce and tag removed). A wrong key or a
/// tampered ciphertext fails authentication and yields nothing.
#[verifier::external_body]
fn aes_gcm_decrypt(key: &[u8], data: &[u8]) -> (r: Option<Vec<u8>>)
    requires
        key@.len() == 32,
        data@.len() > 12,
    ensures
        r matches Some(v) ==> v@.len() + 28 == data@.len(),
{
    let cipher = match <aes_gcm::Aes256Gcm as aes_gcm::KeyInit>::new_from_slice(key) {
        Ok(c) => c,
        Err(_) => { return None },
    };
    let nonce = aes_gcm::Nonce::from_slice(&data[0..12]);
    match aes_gcm::aead::Aead::decrypt(&cipher, nonce, &data[12..]) {
        Ok(plaintext) => Some(plaintext),
        Err(_) => None,
    }
}

/// Relies on ed25519_dalek::SigningKey::generate with rand's OsRng: a
/// fresh key pair as raw bytes; the secret key and the public key are
/// both 32 bytes.
#[verifier::external_body]
fn generate_keypair_bytes() -> (r: (Vec<u8>, Vec<u8>))
    ensures
        r.0@.len() == 32,
        r.1@.len() == 32,
{
    let signing_key = ed25519_dalek::SigningKey::generate(&mut rand::rngs::OsRng);
    (signing_key.to_bytes().to_vec(), signing_key.verifying_key().to_bytes().to_vec())
}

/// Builds a fresh key pair: the raw 32-byte secret key, and the account
/// address — the GENX prefix followed by the lowercase hex digits of the
/// 32-byte public key.
fn generate_keypair() -> (r: (Vec<u8>, String))
    ensures
        r.0@.len() == 32,
        exists|p: Seq<u8>| #[trigger] p.len() == 32 && r.1@ == "GENX"@ + hex_of(p),
{
    let (private_key, public_bytes) = generate_keypair_bytes();
    let mut address = String::from_str("GENX");
    address.append(hash_to_hex(&public_bytes).as_str());
    proof {
        assert(public_bytes@.len() == 32 && address@ == "GENX"@ + hex_of(public_bytes@));
    }
    (private_key, address)
}

/// Relies on ed25519_dalek::SigningKey::from_bytes and Signer::sign: an
/// ed25519 signature is 64 bytes.
#[verifier::external_body]
fn ed25519_sign(secret: &[u8], message: &[u8]) -> (r: Vec<u8>)
    requires
        secret@.len() == 32,
    ensures
        r@.len() == 64,
{
    let mut secret_bytes = [0u8; 32];
    secret_bytes.copy_from_slice(secret);
    let signing_key = ed25519_dalek::SigningKey::from_bytes(&secret_bytes);
    let signature = ed25519_dalek::Signer::sign(&signing_key, message);
    signature.to_bytes().to_vec()
}

/// Represents a wallet account.
pub struct Account {
    /// Account address (public key).
    pub address: String,
    /// Encrypted private key.
    pub encrypted_private_key: Vec<u8>,
    /// Account label.
    pub label: String,
    /// Whether this is the default account.
    pub is_default: bool,
    /// Account creation timestamp.
    pub created_at: u64,
}

/// Wallet configuration.
pub struct WalletConfig {
    /// Wallet name.
    pub name: String,
    /// Wallet version.
    pub version: String,
    /// Encryption algorithm used.
    pub encryption_algorithm: String,
    /// Whether the wallet is encrypted.
    pub is_encrypted: bool,
}

impl Default for WalletConfig {
    /// The default configuration of a fresh wallet.
    fn default() -> (r: Self)
        ensures
            r.name@ == "GENX Wallet"@,
            r.version@ == "1.0.0"@,
            r.encryption_algorithm@ == "aes-256-gcm"@,
            r.is_encrypted,
    {
        WalletConfig {
            name: String::from_str("GENX Wallet"),
            version: String::from_str("1.0.0"),
            encryption_algorithm: String::from_str("aes-256-gcm"),
            is_encrypted: true,
        }
    }
}

/// The index of the first account with the given address, if any.
pub open spec fn find_account(s: Seq<Account>, addr: Seq<char>) -> Option<int> {
    if exists|i: int| 0 <= i < s.len() && (#[trigger] s[i]).address@ == addr {
        Some(choose|i: int| 0 <= i < s.len() && (#[trigger] s[i]).address@ == addr)
    } else {
        None
    }
}

/// No two accounts share an address.
pub open spec fn accounts_unique(s: Seq<Account>) -> bool {
    forall|i: int, j: int|
        0 <= i < j < s.len() ==> (#[trigger] s[i]).address@ != (#[trigger] s[j]).address@
}

/// Two accounts agreeing on every field, with the encrypted key compared
/// by content.
pub open spec fn account_matches(a: Account, b: Account) -> bool {
    &&& a.address == b.address
    &&& a.encrypted_private_key@ == b.encrypted_private_key@
    &&& a.label == b.label
    &&& a.is_default == b.is_default
    &&& a.created_at == b.created_at
}

/// Manages wallet accounts and operations.
pub struct Wallet {
    /// Wallet configuration.
    config: WalletConfig,
    /// Wallet accounts, at most one per address.
    accounts: Vec<Account>,
    /// Default account address.
    default_account: Option<String>,
    /// Whether the wallet is unlocked.
    is_unlocked: bool,
    /// Decryption key (only in memory when unlocked).
    decryption_key: Option<Vec<u8>>,
}

impl Wallet {
    /// The accounts, in creation order.
    pub closed spec fn spec_accounts(&self) -> Seq<Account> {
        self.accounts@
    }

    /// The wallet configuration.
    pub closed spec fn spec_config(&self) -> WalletConfig {
        self.config
    }

    /// Whether the wallet is unlocked.
    pub closed spec fn spec_unlocked(&self) -> bool {
        self.is_unlocked
    }

    /// The default account address, if one is set.
    pub closed spec fn spec_default(&self) -> Option<String> {
        self.default_account
    }

    /// The in-memory decryption key, if the wallet is unlocked.
    pub closed spec fn spec_key(&self) -> Option<Vec<u8>> {
        self.decryption_key
    }

    /// The wallet invariant: distinct addresses, a 32-byte key whenever
    /// unlocked, and every stored encrypted key of the fixed length.
    pub open spec fn wf(&self) -> bool {
        &&& accounts_unique(self.spec_accounts())
        &&& self.spec_unlocked() ==> (self.spec_key() matches Some(k) && k@.len() == 32)
        &&& forall|i: int|
            0 <= i < self.spec_accounts().len() ==> (#[trigger] self.spec_accounts()[
            i]).encrypted_private_key@.len() == ENCRYPTED_KEY_LEN
    }

    /// Creates a new, locked, empty wallet with the given configuration.
    pub fn new(config: WalletConfig) -> (r: Self)
        ensures
            r.wf(),
            r.spec_accounts() == Seq::<Account>::empty(),
            r.spec_default() is None,
            !r.spec_unlocked(),
    {
        Wallet {
            config,
            accounts: Vec::new(),
            default_account: None,
            is_unlocked: false,
            decryption_key: None,
        }
    }

    /// Borrows the wallet configuration.
    pub fn config(&self) -> (r: &WalletConfig)
        ensures
            *r == self.spec_config(),
    {
        &self.config
    }

    /// Restores accounts into a fresh wallet, as when loading from
    /// storage: the addresses must be pairwise distinct and every
    /// encrypted key of the stored length, or nothing is restored.
    pub fn restore_accounts(&mut self, accounts: Vec<Account>, default_account: Option<String>)
        -> (r: Result<(), WalletError>)
        requires
            old(self).wf(),
        ensures
            final(self).wf(),
            r is Err ==> (*final(self) == *old(self) && r matches Err(
                WalletError::AccountError(_),
            )),
            r is Ok ==> final(self).spec_accounts() == accounts@ && final(self).spec_default()
                == default_account,
    {
        let n = accounts.len();
        for i in 0..n
            invariant
                n == accounts@.len(),
                *self == *old(self),
                old(self).wf(),
                forall|j: int|
                    0 <= j < i ==> (#[trigger] accounts@[j]).encrypted_private_key@.len()
                        == ENCRYPTED_KEY_LEN,
                forall|j: int, k: int|
                    0 <= j < k < i ==> (#[trigger] accounts@[j]).address@ != (
                    #[trigger] accounts@[k]).address@,
        {
            if accounts[i].encrypted_private_key.len() != ENCRYPTED_KEY_LEN {
                return Err(
                    WalletError::AccountError(String::from_str("Malformed stored account")),
                );
            }
            for j in 0..i
                invariant
                    i < n,
                    n == accounts@.len(),
                    *self == *old(self),
                    old(self).wf(),
                    forall|k: int|
                        0 <= k < j ==> (#[trigger] accounts@[k]).address@ != accounts@[i as int].address@,
            {
                if str_eq(accounts[j].address.as_str(), accounts[i].address.as_str()) {
                    return Err(
                        WalletError::AccountError(String::from_str("Duplicate stored account")),
                    );
                }
            }
            proof {
                assert forall|j: int, k: int| 0 <= j < k < i + 1 implies (
                #[trigger] accounts@[j]).address@ != (#[trigger] accounts@[k]).address@ by {
                    if k < i as int {
                    } else {
                        assert(accounts@[j].address@ != accounts@[i as int].address@);
                    }
                }
            }
        }
        self.accounts = accounts;
        self.default_account = default_account;
        Ok(())
    }

    /// Unlocks the wallet: derives the decryption key from the password.
    /// Unlocking an unlocked wallet changes nothing.
    pub fn unlock(&mut self, password: &str) -> (r: Result<(), WalletError>)
        requires
            old(self).wf(),
        ensures
            final(self).wf(),
            r is Ok,
            final(self).spec_unlocked(),
            final(self).spec_accounts() == old(self).spec_accounts(),
            final(self).spec_default() == old(self).spec_default(),
            old(self).spec_unlocked() ==> *final(self) == *old(self),
            !old(self).spec_unlocked() ==> (final(self).spec_key() matches Some(k) && k@
                == derived_key_of(
                encode_utf8(password@),
                encode_utf8("GENX_WALLET_SALT"@),
                KEY_DERIVATION_ROUNDS,
            )),
    {
        if self.is_unlocked {
            return Ok(());
        }
        let salt = "GENX_WALLET_SALT";
        let key = pbkdf2_derive(password.as_bytes(), salt.as_bytes(), KEY_DERIVATION_ROUNDS);
        self.decryption_key = Some(key);
        self.is_unlocked = true;
        Ok(())
    }

    /// Locks the wallet, discarding the in-memory key.
    pub fn lock(&mut self)
        ensures
            !final(self).spec_unlocked(),
            final(self).spec_key() is None,
            final(self).spec_accounts() == old(self).spec_accounts(),
            final(self).spec_default() == old(self).spec_default(),
            old(self).wf() ==> final(self).wf(),
    {
        self.decryption_key = None;
        self.is_unlocked = false;
    }

    /// Creates a new account: generates a key pair, encrypts the private
    /// key under the wallet key, and stores the account. The first
    /// account becomes the default. A locked wallet refuses.
    pub fn create_account(&mut self, label: &str) -> (r: Result<String, WalletError>)
        requires
            old(self).wf(),
        ensures
            final(self).wf(),
            !old(self).spec_unlocked() ==> (r matches Err(WalletError::AccountError(_)) && *final(self) == *old(self)),
            r is Err ==> *final(self) == *old(self) && (r matches Err(
                WalletError::AccountError(_),
            ) || r matches Err(WalletError::KeyError(_))),
            old(self).spec_unlocked() ==> (r is Ok || r matches Err(WalletError::KeyError(_))),
            r is Ok ==> {
                &&& final(self).spec_accounts().len() >= 1
                &&& final(self).spec_accounts().len() <= old(self).spec_accounts().len() + 1
                &&& (forall|j: int|
                    0 <= j < old(self).spec_accounts().len() && (#[trigger] old(
                        self,
                    ).spec_accounts()[j]).address@ != r->Ok_0@ ==> final(self).spec_accounts()[j]
                        == old(self).spec_accounts()[j])
                &&& (find_account(final(self).spec_accounts(), r->Ok_0@) matches Some(i) && {
                    let a = final(self).spec_accounts()[i];
                    &&& a.address == r->Ok_0
                    &&& a.label@ == label@
                    &&& a.encrypted_private_key@.len() == ENCRYPTED_KEY_LEN
                    &&& a.is_default == (old(self).spec_accounts().len() == 0)
                })
                &&& (old(self).spec_accounts().len() == 0 ==> (final(self).spec_default()
                    matches Some(d) && d@ == r->Ok_0@))
                &&& (old(self).spec_accounts().len() > 0 ==> final(self).spec_default() == old(self).spec_default())
            },
    {
        if !self.is_unlocked {
            return Err(WalletError::AccountError(String::from_str("Wallet is locked")));
        }
        let (private_key, public_key) = generate_keypair();
        let encrypted_private_key = match &self.decryption_key {
            Some(key) => {
                match aes_gcm_encrypt(key.as_slice(), private_key.as_slice()) {
                    Some(e) => e,
                    None => {
                        return Err(WalletError::KeyError(String::from_str("Encryption failed")));
                    },
                }
            },
            None => {
                return Err(WalletError::KeyError(String::from_str("Wallet is locked")));
            },
        };
        let was_empty = self.accounts.len() == 0;
        let account = Account {
            address: public_key.clone(),
            encrypted_private_key,
            label: label.to_owned(),
            is_default: was_empty,
            created_at: current_timestamp(),
        };
        let n = self.accounts.len();
        let mut at: usize = n;
        let mut found = false;
        for i in 0..n
            invariant
                n == self.accounts@.len(),
                *self == *old(self),
                !found ==> (forall|j: int|
                    0 <= j < i ==> (#[trigger] self.accounts@[j]).address@ != public_key@),
                found ==> (at < i && self.accounts@[at as int].address@ == public_key@),
                at <= n,
        {
            if !found && str_eq(self.accounts[i].address.as_str(), public_key.as_str()) {
                at = i;
                found = true;
            }
        }
        if found {
            self.accounts.remove(at);
            self.accounts.insert(at, account);
        } else {
            self.accounts.push(account);
        }
        if was_empty {
            self.default_account = Some(public_key.clone());
        }
        proof {
            let accs = final(self).spec_accounts();
            let i = if found {
                at as int
            } else {
                n as int
            };
            assert(accs[i].address@ == public_key@);
            assert(accounts_unique(accs));
            lemma_find_account_at(accs, public_key@, i);
            assert forall|j: int|
                0 <= j < old(self).spec_accounts().len() && (#[trigger] old(self).spec_accounts()[
            j]).address@ != public_key@ implies accs[j] == old(self).spec_accounts()[j] by {
                if found {
                    assert(j != at as int);
                }
            }
        }
        Ok(public_key)
    }

    /// Sets the default account: the named account becomes the default
    /// and every other account loses the flag. An unknown address is
    /// rejected without change.
    pub fn set_default_account(&mut self, address: &str) -> (r: Result<(), WalletError>)
        requires
            old(self).wf(),
        ensures
            final(self).wf(),
            r is Ok <==> find_account(old(self).spec_accounts(), address@) is Some,
            r is Err ==> (*final(self) == *old(self) && r matches Err(
                WalletError::AccountError(_),
            )),
            r is Ok ==> {
                &&& final(self).spec_accounts().len() == old(self).spec_accounts().len()
                &&& (forall|i: int|
                    0 <= i < old(self).spec_accounts().len() ==> {
                        let a0 = old(self).spec_accounts()[i];
                        let a1 = #[trigger] final(self).spec_accounts()[i];
                        a1 == Account { is_default: a0.address@ == address@, ..a0 }
                    })
                &&& (final(self).spec_default() matches Some(d) && d@ == address@)
            },
    {
        let mut present = false;
        let n = self.accounts.len();
        for i in 0..n
            invariant
                n == self.accounts@.len(),
                *self == *old(self),
                present <==> (exists|j: int|
                    0 <= j < i && (#[trigger] self.accounts@[j]).address@ == address@),
        {
            if str_eq(self.accounts[i].address.as_str(), address) {
                present = true;
            }
        }
        if !present {
            proof {
                if find_account(self.accounts@, address@) is Some {
                    let k = choose|k: int|
                        0 <= k < self.accounts@.len() && (#[trigger] self.accounts@[k]).address@
                            == address@;
                    assert(exists|j: int|
                        0 <= j < n && (#[trigger] self.accounts@[j]).address@ == address@);
                }
            }
            return Err(WalletError::AccountError(String::from_str("Account not found")));
        }
        proof {
            let k = choose|j: int| 0 <= j < n && (#[trigger] self.accounts@[j]).address@ == address@;
            assert(self.accounts@[k].address@ == address@);
        }
        for i in 0..n
            invariant
                n == self.accounts@.len(),
                old(self).wf(),
                self.accounts@.len() == old(self).spec_accounts().len(),
                self.config == old(self).config,
                self.is_unlocked == old(self).spec_unlocked(),
                self.decryption_key == old(self).spec_key(),
                self.default_account == old(self).spec_default(),
                forall|j: int|
                    0 <= j < i ==> #[trigger] self.accounts@[j] == (Account {
                        is_default: old(self).spec_accounts()[j].address@ == address@,
                        ..old(self).spec_accounts()[j]
                    }),
                forall|j: int|
                    i <= j < n ==> #[trigger] self.accounts@[j] == old(self).spec_accounts()[j],
        {
            let flag = str_eq(self.accounts[i].address.as_str(), address);
            let ghost prev = self.accounts@;
            let mut a = self.accounts.remove(i);
            a.is_default = flag;
            self.accounts.insert(i, a);
            proof {
                assert(self.accounts@ =~= prev.update(
                    i as int,
                    Account { is_default: flag, ..prev[i as int] },
                ));
            }
        }
        self.default_account = Some(address.to_owned());
        Ok(())
    }

    /// Gets all accounts in the wallet.
    pub fn get_accounts(&self) -> (r: Vec<&Account>)
        ensures
            r@.len() == self.spec_accounts().len(),
            forall|i: int| 0 <= i < r@.len() ==> *(#[trigger] r@[i]) == self.spec_accounts()[i],
    {
        let mut out: Vec<&Account> = Vec::new();
        let n = self.accounts.len();
        for i in 0..n
            invariant
                n == self.accounts@.len(),
                out@.len() == i,
                forall|j: int| 0 <= j < i ==> *(#[trigger] out@[j]) == self.accounts@[j],
        {
            out.push(&self.accounts[i]);
        }
        out
    }

    /// Gets an account by address.
    pub fn get_account(&self, address: &str) -> (r: Option<&Account>)
        requires
            self.wf(),
        ensures
            match find_account(self.spec_accounts(), address@) {
                Some(i) => r matches Some(a) && *a == self.spec_accounts()[i],
                None => r is None,
            },
    {
        let n = self.accounts.len();
        for i in 0..n
            invariant
                n == self.accounts@.len(),
                self.wf(),
                forall|j: int| 0 <= j < i ==> (#[trigger] self.accounts@[j]).address@ != address@,
        {
            if str_eq(self.accounts[i].address.as_str(), address) {
                proof {
                    assert forall|j: int|
                        0 <= j < self.accounts@.len() && j != i as int implies (
                    #[trigger] self.accounts@[j]).address@ != address@ by {
                        if j < i as int {
                            assert(self.accounts@[j].address@ != self.accounts@[i as int].address@);
                        } else {
                            assert(self.accounts@[i as int].address@ != self.accounts@[j].address@);
                        }
                    }
                    lemma_find_account_at(self.accounts@, address@, i as int);
                }
                return Some(&self.accounts[i]);
            }
        }
        proof {
            if find_account(self.accounts@, address@) is Some {
                let k = choose|k: int|
                    0 <= k < self.accounts@.len() && (#[trigger] self.accounts@[k]).address@
                        == address@;
                assert(self.accounts@[k].address@ != address@);
            }
        }
        None
    }

    /// Gets the default account, if one is set.
    pub fn get_default_account(&self) -> (r: Option<&Account>)
        requires
            self.wf(),
        ensures
            self.spec_default() is None ==> r is None,
            (self.spec_default() matches Some(d) && true) ==> (match find_account(
                self.spec_accounts(),
                self.spec_default()->0@,
            ) {
                Some(i) => r matches Some(a) && *a == self.spec_accounts()[i],
                None => r is None,
            }),
    {
        let address = match &self.default_account {
            Some(a) => a.clone(),
            None => { return None },
        };
        self.get_account(address.as_str())
    }

    /// Creates and signs a transaction from one of the wallet's
    /// accounts: the transaction id is computed from its contents and an
    /// ed25519 signature over that id is attached. A locked wallet or an
    /// unknown sender refuses; a failed decryption of the stored key is a
    /// key error.
    pub fn create_transaction(
        &self,
        sender: &str,
        recipient: &str,
        amount: u64,
        fee: u64,
        data: Option<Vec<u8>>,
    ) -> (r: Result<Transaction, WalletError>)
        requires
            self.wf(),
        ensures
            !self.spec_unlocked() ==> r matches Err(WalletError::AccountError(_)),
            (self.spec_unlocked() && find_account(self.spec_accounts(), sender@) is None) ==> (r
                matches Err(WalletError::AccountError(_))),
            (self.spec_unlocked() && find_account(self.spec_accounts(), sender@) is Some) ==> (r
                is Ok || r matches Err(WalletError::KeyError(_))),
            r is Ok ==> {
                let t = r->Ok_0;
                &&& t.sender@ == sender@
                &&& t.recipient@ == recipient@
                &&& t.amount == amount
                &&& t.fee == fee
                &&& t.data == data
                &&& t.id@ == tx_id(t)
                &&& (t.signature matches Some(s) && s@.len() == 64)
            },
    {
        if !self.is_unlocked {
            return Err(WalletError::AccountError(String::from_str("Wallet is locked")));
        }
        let account = match self.get_account(sender) {
            Some(a) => a,
            None => {
                return Err(WalletError::AccountError(String::from_str("Sender account not found")));
            },
        };
        let key = match &self.decryption_key {
            Some(k) => k,
            None => {
                return Err(WalletError::KeyError(String::from_str("Wallet is locked")));
            },
        };
        let private_key = match aes_gcm_decrypt(
            key.as_slice(),
            account.encrypted_private_key.as_slice(),
        ) {
            Some(p) => p,
            None => {
                return Err(WalletError::KeyError(String::from_str("Decryption failed")));
            },
        };
        let mut tx = match Transaction::new(
            sender.to_owned(),
            recipient.to_owned(),
            amount,
            fee,
            data,
        ) {
            Ok(t) => t,
            Err(e) => { return Err(WalletError::BlockchainError(e)) },
        };
        let tx_hash = match tx.calculate_hash() {
            Ok(h) => h,
            Err(e) => { return Err(WalletError::BlockchainError(e)) },
        };
        let signature = ed25519_sign(private_key.as_slice(), tx_hash.as_slice());
        proof {
            reveal(crate::transaction::tx_preimage);
        }
        tx.signature = Some(signature);
        Ok(tx)
    }
}

/// When exactly one account carries an address, the find function names
/// its index.
proof fn lemma_find_account_at(s: Seq<Account>, addr: Seq<char>, i: int)
    requires
        0 <= i < s.len(),
        s[i].address@ == addr,
        forall|j: int| 0 <= j < s.len() && j != i ==> (#[trigger] s[j]).address@ != addr,
    ensures
        find_account(s, addr) == Some(i),
{
    assert(exists|k: int| 0 <= k < s.len() && (#[trigger] s[k]).address@ == addr);
    let k = choose|k: int| 0 <= k < s.len() && (#[trigger] s[k]).address@ == addr;
    assert(k == i);
}

} // verus!
