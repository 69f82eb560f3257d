//! A high-level wallet API for the UI and other components.
//!
//! It owns a wallet and exposes its operations; loading and storing
//! wallets on disk is the caller's side of the boundary.

use vstd::prelude::*;
use crate::wallet::{Wallet, Account, find_account, account_matches};
use crate::errors::WalletError;
use crate::transaction::Transaction;
use vstd::string::StringExecFns;

verus! {

/// Builds an independent copy of an account, equal field by field with
/// the encrypted key compared by content.
fn copy_account(a: &Account) -> (r: Account)
    ensures
        account_matches(r, *a),
{
    Account {
        address: a.address.clone(),
        encrypted_private_key: vstd::slice::slice_to_vec(a.encrypted_private_key.as_slice()),
        label: a.label.clone(),
        is_default: a.is_default,
        created_at: a.created_at,
    }
}

/// Wallet API for managing wallets and accounts.
pub struct WalletApi {
    /// The underlying wallet instance.
    wallet: Wallet,
}

impl WalletApi {
    /// The underlying wallet.
    pub closed spec fn spec_wallet(&self) -> Wallet {
        self.wallet
    }

    /// The wallet invariant carries over.
    pub open spec fn wf(&self) -> bool {
        self.spec_wallet().wf()
    }

    /// Creates a new wallet API instance over a wallet.
    pub fn new(wallet: Wallet) -> (r: Self)
        ensures
            r.spec_wallet() == wallet,
    {
        WalletApi { wallet }
    }

    /// Unlocks the wallet with the given password.
    pub fn unlock(&mut self, password: &str) -> (r: Result<(), WalletError>)
        requires
            old(self).wf(),
        ensures
            final(self).wf(),
            r is Ok,
            final(self).spec_wallet().spec_unlocked(),
            final(self).spec_wallet().spec_accounts() == old(self).spec_wallet().spec_accounts(),
    {
        self.wallet.unlock(password)
    }

    /// Locks the wallet.
    pub fn lock(&mut self) -> (r: Result<(), WalletError>)
        requires
            old(self).wf(),
        ensures
            final(self).wf(),
            r is Ok,
            !final(self).spec_wallet().spec_unlocked(),
            final(self).spec_wallet().spec_accounts() == old(self).spec_wallet().spec_accounts(),
    {
        self.wallet.lock();
        Ok(())
    }

    /// Creates a new account in the wallet.
    pub fn create_account(&mut self, label: &str) -> (r: Result<String, WalletError>)
        requires
            old(self).wf(),
        ensures
            final(self).wf(),
            r is Err ==> *final(self) == *old(self),
            r is Ok ==> (find_account(final(self).spec_wallet().spec_accounts(), r->Ok_0@)
                matches Some(i) && final(self).spec_wallet().spec_accounts()[i].label@ == label@),
    {
        self.wallet.create_account(label)
    }

    /// Gets all accounts in the wallet, as independent copies.
    pub fn get_accounts(&self) -> (r: Result<Vec<Account>, WalletError>)
        ensures
            r is Ok,
            r->Ok_0@.len() == self.spec_wallet().spec_accounts().len(),
            forall|i: int|
                0 <= i < r->Ok_0@.len() ==> account_matches(
                    #[trigger] r->Ok_0@[i],
                    self.spec_wallet().spec_accounts()[i],
                ),
    {
        let accounts = self.wallet.get_accounts();
        let mut out: Vec<Account> = Vec::new();
        let n = accounts.len();
        for i in 0..n
            invariant
                n == accounts@.len(),
                out@.len() == i,
                forall|j: int|
                    0 <= j < n ==> *(#[trigger] accounts@[j]) == self.spec_wallet().spec_accounts()[
                    j],
                forall|j: int|
                    0 <= j < i ==> account_matches(
                        #[trigger] out@[j],
                        self.spec_wallet().spec_accounts()[j],
                    ),
        {
            out.push(copy_account(accounts[i]));
        }
        Ok(out)
    }

    /// Gets an account by address, as an independent copy.
    pub fn get_account(&self, address: &str) -> (r: Result<Option<Account>, WalletError>)
        requires
            self.wf(),
        ensures
            r is Ok,
            match find_account(self.spec_wallet().spec_accounts(), address@) {
                Some(i) => r->Ok_0 matches Some(a) && account_matches(
                    a,
                    self.spec_wallet().spec_accounts()[i],
                ),
                None => r->Ok_0 is None,
            },
    {
        match self.wallet.get_account(address) {
            Some(a) => Ok(Some(copy_account(a))),
            None => Ok(None),
        }
    }

    /// Gets the default account, as an independent copy.
    pub fn get_default_account(&self) -> (r: Result<Option<Account>, WalletError>)
        requires
            self.wf(),
        ensures
            r is Ok,
            self.spec_wallet().spec_default() is None ==> r->Ok_0 is None,
    {
        match self.wallet.get_default_account() {
            Some(a) => Ok(Some(copy_account(a))),
            None => Ok(None),
        }
    }

    /// Sets the default account.
    pub fn set_default_account(&mut self, address: &str) -> (r: Result<(), WalletError>)
        requires
            old(self).wf(),
        ensures
            final(self).wf(),
            r is Ok <==> find_account(old(self).spec_wallet().spec_accounts(), address@) is Some,
            r is Err ==> *final(self) == *old(self),
            r is Ok ==> (final(self).spec_wallet().spec_default() matches Some(d) && d@
                == address@),
    {
        self.wallet.set_default_account(address)
    }

    /// Creates and signs a transaction from one of the wallet's
    /// accounts.
    pub fn create_transaction(
        &self,
        sender: &str,
        recipient: &str,
        amount: u64,
        fee: u64,
        data: Option<Vec<u8>>,
    ) -> (r: Result<Transaction, WalletError>)
        requires
            self.wf(),
        ensures
            !self.spec_wallet().spec_unlocked() ==> r matches Err(WalletError::AccountError(_)),
            r is Ok ==> {
                let t = r->Ok_0;
                &&& t.sender@ == sender@
                &&& t.recipient@ == recipient@
                &&& t.amount == amount
                &&& t.fee == fee
                &&& t.data == data
                &&& t.id@ == crate::transaction::tx_id(t)
                &&& (t.signature matches Some(s) && s@.len() == 64)
            },
    {
        self.wallet.create_transaction(sender, recipient, amount, fee, data)
    }

    /// Gets the wallet's balance for an address: a placeholder until the
    /// API is wired to a chain, it reports a fixed amount.
    pub fn get_balance(&self, address: &str) -> (r: Result<u64, WalletError>)
        ensures
            r is Ok,
            r->Ok_0 == 1000,
    {
        Ok(1000)
    }
}

} // verus!
