//! Wallet custody records: each wallet belongs to one user, holds a public
//! key and an encrypted private-key blob, and at most one wallet per user
//! is the default. Setting a new default clears the previous one in the
//! same step, so the invariant never lapses.

use vstd::prelude::*;
use vstd::pervasive::VecAdditionalExecFns;

verus! {

#[derive(Clone, Copy, Debug, PartialEq, Eq, Structural)]
pub enum WalletType {
    Hot,
    Ledger,
    Phantom,
    Solflare,
}

/// One wallet; the private key appears only as the vault's encrypted blob.
#[derive(Clone, Debug)]
pub struct Wallet {
    pub id: u64,
    pub user_id: i64,
    pub public_key: String,
    pub encrypted_private_key: Vec<u8>,
    pub wallet_type: WalletType,
    pub name: String,
    pub is_default: bool,
    pub is_active: bool,
    pub balance_lamports: u64,
}

/// All wallets, in creation order; a wallet's id is its position.
pub struct WalletRegistry {
    wallets: Vec<Wallet>,
}

impl WalletRegistry {
    pub closed spec fn spec_wallets(&self) -> Seq<Wallet> {
        self.wallets@
    }

    /// Ids are positions, and no user has two default wallets.
    pub open spec fn wf(&self) -> bool {
        &&& forall|i: int|
            0 <= i < self.spec_wallets().len() ==> (#[trigger] self.spec_wallets()[i].id)
                == i as u64
        &&& forall|i: int, j: int|
            0 <= i < self.spec_wallets().len() && 0 <= j < self.spec_wallets().len() && i != j
                && (#[trigger] self.spec_wallets()[i]).user_id == (
            #[trigger] self.spec_wallets()[j]).user_id ==> !(self.spec_wallets()[i].is_default
                && self.spec_wallets()[j].is_default)
    }

    pub fn new() -> (r: WalletRegistry)
        ensures
            r.wf(),
            r.spec_wallets().len() == 0,
    {
        WalletRegistry { wallets: Vec::new() }
    }

    pub fn len(&self) -> (r: usize)
        ensures
            r == self.spec_wallets().len(),
    {
        self.wallets.len()
    }

    pub fn get(&self, wallet_id: u64) -> (r: Option<&Wallet>)
        ensures
            wallet_id < self.spec_wallets().len() ==> (r matches Some(w) && *w
                == self.spec_wallets()[wallet_id as int]),
            wallet_id >= self.spec_wallets().len() ==> r is None,
    {
        if wallet_id < self.wallets.len() as u64 {
            Some(&self.wallets[wallet_id as usize])
        } else {
            None
        }
    }

    /// Record a new wallet; it is stored non-default, and `set_default`
    /// promotes it when asked.
    pub fn add_wallet(&mut self, w: Wallet) -> (r: u64)
        requires
            old(self).wf(),
            old(self).spec_wallets().len() < 0xffff_ffff_ffff_ffffu64,
        ensures
            final(self).wf(),
            r == old(self).spec_wallets().len(),
            final(self).spec_wallets() == old(self).spec_wallets().push(
                Wallet { id: old(self).spec_wallets().len() as u64, is_default: false, ..w },
            ),
    {
        let id = self.wallets.len() as u64;
        let mut w = w;
        w.id = id;
        w.is_default = false;
        self.wallets.push(w);
        id
    }

    /// Make one wallet the user's default. The previous default of that
    /// user, if any, is cleared in the same call, so afterwards exactly
    /// this wallet is the user's default.
    pub fn set_default(&mut self, wallet_id: u64) -> (r: bool)
        requires
            old(self).wf(),
        ensures
            final(self).wf(),
            r == (wallet_id < old(self).spec_wallets().len()),
            !r ==> *final(self) == *old(self),
            r ==> ({
                let w0 = old(self).spec_wallets();
                let w1 = final(self).spec_wallets();
                &&& w1.len() == w0.len()
                &&& w1[wallet_id as int].is_default
                &&& forall|i: int|
                    0 <= i < w1.len() ==> (#[trigger] w1[i]).user_id == w0[i].user_id && w1[i].id
                        == w0[i].id && w1[i].public_key@ == w0[i].public_key@
                &&& forall|i: int|
                    0 <= i < w1.len() && i != wallet_id as int && (#[trigger] w1[i]).user_id
                        == w0[wallet_id as int].user_id ==> !w1[i].is_default
                &&& forall|i: int|
                    0 <= i < w1.len() && (#[trigger] w1[i]).user_id != w0[wallet_id as int].user_id
                        ==> w1[i] == w0[i]
            }),
    {
        let n = self.wallets.len();
        if wallet_id >= n as u64 {
            return false;
        }
        let target = wallet_id as usize;
        let user_id = self.wallets[target].user_id;
        let mut i: usize = 0;
        while i < n
            invariant
                i <= n,
                n == self.spec_wallets().len(),
                target < n,
                user_id == old(self).spec_wallets()[target as int].user_id,
                forall|k: int|
                    0 <= k < self.spec_wallets().len() ==> (#[trigger] self.spec_wallets()[k]).id
                        == old(self).spec_wallets()[k].id && self.spec_wallets()[k].user_id == old(
                        self,
                    ).spec_wallets()[k].user_id && self.spec_wallets()[k].public_key@ == old(
                        self,
                    ).spec_wallets()[k].public_key@,
                forall|k: int|
                    0 <= k < i && (#[trigger] self.spec_wallets()[k]).user_id == user_id && k
                        != target as int ==> !self.spec_wallets()[k].is_default,
                i > target ==> self.spec_wallets()[target as int].is_default,
                forall|k: int|
                    0 <= k < self.spec_wallets().len() && (#[trigger] self.spec_wallets()[k]).user_id != user_id ==> self.spec_wallets()[k] == old(self).spec_wallets()[k],
                forall|k: int|
                    i <= k < self.spec_wallets().len() ==> #[trigger] self.spec_wallets()[k]
                        == old(self).spec_wallets()[k],
            decreases n - i,
        {
            if self.wallets[i].user_id == user_id {
                let make_default = i == target;
                if self.wallets[i].is_default != make_default {
                    let cur = &self.wallets[i];
                    let w = Wallet {
                        id: cur.id,
                        user_id: cur.user_id,
                        public_key: cur.public_key.clone(),
                        encrypted_private_key: cur.encrypted_private_key.clone(),
                        wallet_type: cur.wallet_type,
                        name: cur.name.clone(),
                        is_default: make_default,
                        is_active: cur.is_active,
                        balance_lamports: cur.balance_lamports,
                    };
                    self.wallets.set(i, w);
                }
            }
            i = i + 1;
        }
        proof {
            assert(self.spec_wallets()[target as int].is_default);
        }
        true
    }

    /// The user's default wallet, if one is set.
    pub fn find_default(&self, user_id: i64) -> (r: Option<u64>)
        requires
            self.wf(),
        ensures
            r matches Some(id) ==> id < self.spec_wallets().len() && self.spec_wallets()[id as int].user_id == user_id && self.spec_wallets()[id as int].is_default,
            r is None ==> forall|i: int|
                0 <= i < self.spec_wallets().len() ==> !((#[trigger] self.spec_wallets()[i]).user_id == user_id && self.spec_wallets()[i].is_default),
    {
        let n = self.wallets.len();
        let mut i: usize = 0;
        while i < n
            invariant
                i <= n,
                n == self.spec_wallets().len(),
                forall|k: int|
                    0 <= k < i ==> !((#[trigger] self.spec_wallets()[k]).user_id == user_id
                        && self.spec_wallets()[k].is_default),
            decreases n - i,
        {
            if self.wallets[i].user_id == user_id && self.wallets[i].is_default {
                return Some(i as u64);
            }
            i = i + 1;
        }
        None
    }
}

/// Law: a user never has two default wallets — any two distinct wallets of
/// one user include at most one default.
pub proof fn lemma_at_most_one_default(r: &WalletRegistry, i: int, j: int)
    requires
        r.wf(),
        0 <= i < r.spec_wallets().len(),
        0 <= j < r.spec_wallets().len(),
        i != j,
        r.spec_wallets()[i].user_id == r.spec_wallets()[j].user_id,
    ensures
        !(r.spec_wallets()[i].is_default && r.spec_wallets()[j].is_default),
{
}

} // verus!
