//! The persisted records of the booth and its ledger accounts.
//!
//! Every entity on the ledger is named by a 32-byte key, carried here as
//! plain bytes.  A `TokenAccount` holds a balance of exactly one asset type;
//! an `ExchangeBooth` binds an admin, two asset types, the two vaults that
//! custody them and a fixed exchange rate.

use vstd::prelude::*;

verus! {

/// A ledger account holding units of a single asset type.
///
/// `id` is the account's own key, `mint` the key of the asset type it holds,
/// `owner` the key of the authority entitled to move its balance.  A booth
/// vault is its own owner: its authority is the derived key under which the
/// vault itself was allocated.
#[derive(Clone, Debug, PartialEq, Eq)]
pub struct TokenAccount {
    pub id: Vec<u8>,
    pub mint: Vec<u8>,
    pub owner: Vec<u8>,
    pub amount: u64,
}

/// The mathematical value of a `TokenAccount`.
pub struct AccountModel {
    pub id: Seq<u8>,
    pub mint: Seq<u8>,
    pub owner: Seq<u8>,
    pub amount: u64,
}

impl View for TokenAccount {
    type V = AccountModel;

    open spec fn view(&self) -> AccountModel {
        AccountModel { id: self.id@, mint: self.mint@, owner: self.owner@, amount: self.amount }
    }
}

/// The booth record: fixed-size, created once, never reassigned.
///
/// `vault_a` custodies `token_a` and `vault_b` custodies `token_b`; the two
/// bump values are the nonces under which the vault authorities were derived
/// at creation, reused for every later transfer out of the vaults.
#[derive(Clone, Debug, PartialEq, Eq)]
pub struct ExchangeBooth {
    pub vault_a_bump: u8,
    pub vault_b_bump: u8,
    pub token_a: Vec<u8>,
    pub token_b: Vec<u8>,
    pub vault_a: Vec<u8>,
    pub vault_b: Vec<u8>,
    pub admin: Vec<u8>,
    pub rate: u32,
}

/// The mathematical value of an `ExchangeBooth`.
pub struct BoothModel {
    pub vault_a_bump: u8,
    pub vault_b_bump: u8,
    pub token_a: Seq<u8>,
    pub token_b: Seq<u8>,
    pub vault_a: Seq<u8>,
    pub vault_b: Seq<u8>,
    pub admin: Seq<u8>,
    pub rate: u32,
}

impl View for ExchangeBooth {
    type V = BoothModel;

    open spec fn view(&self) -> BoothModel {
        BoothModel {
            vault_a_bump: self.vault_a_bump,
            vault_b_bump: self.vault_b_bump,
            token_a: self.token_a@,
            token_b: self.token_b@,
            vault_a: self.vault_a@,
            vault_b: self.vault_b@,
            admin: self.admin@,
            rate: self.rate,
        }
    }
}

impl BoothModel {
    /// A well-formed booth never carries a zero rate, pairs two distinct
    /// assets, and keeps its two vaults apart.
    pub open spec fn wf(self) -> bool {
        &&& self.rate != 0
        &&& self.token_a != self.token_b
        &&& self.vault_a != self.vault_b
    }
}

/// Copy a key byte for byte.
pub fn key_dup(k: &Vec<u8>) -> (r: Vec<u8>)
    ensures
        r@ == k@,
{
    let n = k.len();
    let mut r: Vec<u8> = Vec::new();
    let mut i: usize = 0;
    while i < n
        invariant
            n == k.len(),
            0 <= i <= n,
            r@ =~= k@.take(i as int),
        decreases n - i,
    {
        r.push(k[i]);
        i += 1;
    }
    proof {
        assert(r@ =~= k@);
    }
    r
}

/// Compare two keys byte for byte.
pub fn key_eq(a: &Vec<u8>, b: &Vec<u8>) -> (r: bool)
    ensures
        r == (a@ == b@),
{
    if a.len() != b.len() {
        assert(a@ != b@) by {
            assert(a@.len() != b@.len());
        }
        return false;
    }
    let n = a.len();
    let mut i: usize = 0;
    while i < n
        invariant
            n == a.len() == b.len(),
            0 <= i <= n,
            forall|j: int| 0 <= j < i ==> a@[j] == b@[j],
        decreases n - i,
    {
        if a[i] != b[i] {
            return false;
        }
        i += 1;
    }
    proof {
        assert(a@ =~= b@);
    }
    true
}

} // verus!
