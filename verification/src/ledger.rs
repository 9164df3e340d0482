//! The custody ledger: payment balances and asset holdings per account.
//!
//! The ledger is the escrow custodian's substrate. An account is either a
//! user account — a seller's, buyer's or bidder's own custody — or an escrow
//! account owned by a single listing or auction resource. Escrow accounts are
//! created only by the marketplace itself, and the crate-private transfer
//! operations are reached only through the marketplace's operations, so funds
//! and assets leave an escrow only under the authority of the resource that
//! owns it.

use vstd::prelude::*;
use crate::errors::ErrorCode;

verus! {

/// An account on the custody ledger, user or escrow, identified by the index
/// under which it was created.
pub type AccountId = usize;

/// A uniquely-owned asset, identified by the index under which it was minted.
pub type AssetId = usize;

/// A sequence of balances after moving `amount` units from `from` to `to`.
/// Moving within one account changes nothing.
pub open spec fn xfer(s: Seq<u64>, from: int, to: int, amount: u64) -> Seq<u64> {
    if from == to {
        s
    } else {
        s.update(from, (s[from] - amount) as u64).update(to, (s[to] + amount) as u64)
    }
}

/// The first refusal a pair of transfers out of one payer would hit: moving
/// `amt1` from `from` to `to1`, then `amt2` from `from` to `to2`. A payer
/// short of funds is refused before a receiving balance that would overflow,
/// and the first transfer is judged before the second.
pub open spec fn double_xfer_err(
    s: Seq<u64>,
    from: int,
    to1: int,
    amt1: u64,
    to2: int,
    amt2: u64,
) -> Option<ErrorCode> {
    if s[from] < amt1 {
        Some(ErrorCode::InsufficientFunds)
    } else if from != to1 && s[to1] + amt1 > u64::MAX {
        Some(ErrorCode::BalanceOverflow)
    } else {
        let s1 = xfer(s, from, to1, amt1);
        if s1[from] < amt2 {
            Some(ErrorCode::InsufficientFunds)
        } else if from != to2 && s1[to2] + amt2 > u64::MAX {
            Some(ErrorCode::BalanceOverflow)
        } else {
            None
        }
    }
}

/// The total of all balances on the ledger.
pub open spec fn total(s: Seq<u64>) -> int
    decreases s.len(),
{
    if s.len() == 0 {
        0
    } else {
        s[0] + total(s.drop_first())
    }
}

/// Rewriting one balance changes the total by exactly the difference.
pub proof fn lemma_total_update(s: Seq<u64>, i: int, v: u64)
    requires
        0 <= i < s.len(),
    ensures
        total(s.update(i, v)) == total(s) + v - s[i],
    decreases s.len(),
{
    if i == 0 {
        assert(s.update(0, v).drop_first() =~= s.drop_first());
    } else {
        assert(s.update(i, v).drop_first() =~= s.drop_first().update(i - 1, v));
        lemma_total_update(s.drop_first(), i - 1, v);
    }
}

/// A transfer that neither underflows the payer nor overflows the receiver
/// conserves the total: payment units only move, they are never created or
/// destroyed.
pub proof fn lemma_xfer_conserves_total(s: Seq<u64>, from: int, to: int, amount: u64)
    requires
        0 <= from < s.len(),
        0 <= to < s.len(),
        s[from] >= amount,
        from != to ==> s[to] + amount <= u64::MAX,
    ensures
        total(xfer(s, from, to, amount)) == total(s),
{
    if from != to {
        let s1 = s.update(from, (s[from] - amount) as u64);
        lemma_total_update(s, from, (s[from] - amount) as u64);
        lemma_total_update(s1, to, (s1[to] + amount) as u64);
    }
}

/// Payment balances and asset holdings, with an escrow mark per account.
pub struct Ledger {
    /// Payment units held by each account.
    pub balances: Vec<u64>,
    /// Whether each account is a resource-owned escrow account.
    pub escrow: Vec<bool>,
    /// The account holding each asset.
    pub assets: Vec<AccountId>,
}

impl Ledger {
    /// How many accounts exist.
    pub open spec fn accounts(self) -> int {
        self.balances@.len() as int
    }

    /// How many assets exist.
    pub open spec fn n_assets(self) -> int {
        self.assets@.len() as int
    }

    /// The balance of account `a`.
    pub open spec fn bal(self, a: int) -> u64 {
        self.balances@[a]
    }

    /// Whether account `a` is a resource-owned escrow account.
    pub open spec fn escrowish(self, a: int) -> bool {
        self.escrow@[a]
    }

    /// Whether account `acct` currently holds asset `asset`.
    pub open spec fn holds(self, asset: AssetId, acct: AccountId) -> bool {
        self.assets@[asset as int] == acct
    }

    /// Whether account `a` exists and is a user account, so a caller may name
    /// it as a party to an operation.
    pub open spec fn user_account(self, a: AccountId) -> bool {
        (a as int) < self.accounts() && !self.escrowish(a as int)
    }

    /// Every account has an escrow mark, and every asset is held by an
    /// existing account.
    pub open spec fn wf(self) -> bool {
        &&& self.balances@.len() == self.escrow@.len()
        &&& forall|i: int|
            0 <= i < self.assets@.len() ==> (#[trigger] self.assets@[i] as int) < self.accounts()
    }

    /// An empty ledger: no accounts, no assets.
    pub fn new() -> (l: Ledger)
        ensures
            l.wf(),
            l.accounts() == 0,
            l.n_assets() == 0,
    {
        Ledger { balances: Vec::new(), escrow: Vec::new(), assets: Vec::new() }
    }

    fn new_account(&mut self, escrowish: bool) -> (a: AccountId)
        requires
            old(self).wf(),
        ensures
            final(self).wf(),
            a == old(self).accounts(),
            final(self).balances@ == old(self).balances@.push(0u64),
            final(self).escrow@ == old(self).escrow@.push(escrowish),
            final(self).assets@ == old(self).assets@,
    {
        let a = self.balances.len();
        self.balances.push(0);
        self.escrow.push(escrowish);
        a
    }

    /// Opens a fresh user account with a zero balance.
    pub fn create_account(&mut self) -> (a: AccountId)
        requires
            old(self).wf(),
        ensures
            final(self).wf(),
            a == old(self).accounts(),
            final(self).balances@ == old(self).balances@.push(0u64),
            final(self).escrow@ == old(self).escrow@.push(false),
            final(self).assets@ == old(self).assets@,
    {
        self.new_account(false)
    }

    /// Opens a fresh escrow account for a listing or auction resource.
    pub(crate) fn create_escrow_account(&mut self) -> (a: AccountId)
        requires
            old(self).wf(),
        ensures
            final(self).wf(),
            a == old(self).accounts(),
            final(self).balances@ == old(self).balances@.push(0u64),
            final(self).escrow@ == old(self).escrow@.push(true),
            final(self).assets@ == old(self).assets@,
    {
        self.new_account(true)
    }

    /// Mints a fresh asset into the custody of a user account.
    pub fn create_asset(&mut self, holder: AccountId) -> (asset: AssetId)
        requires
            old(self).wf(),
            old(self).user_account(holder),
        ensures
            final(self).wf(),
            asset == old(self).n_assets(),
            final(self).assets@ == old(self).assets@.push(holder),
            final(self).balances@ == old(self).balances@,
            final(self).escrow@ == old(self).escrow@,
    {
        let asset = self.assets.len();
        self.assets.push(holder);
        asset
    }

    /// Funds a user account from outside the marketplace.
    pub fn deposit(&mut self, a: AccountId, amount: u64)
        requires
            old(self).wf(),
            old(self).user_account(a),
            old(self).bal(a as int) + amount <= u64::MAX,
        ensures
            final(self).wf(),
            final(self).balances@ == old(self).balances@.update(
                a as int,
                (old(self).bal(a as int) + amount) as u64,
            ),
            final(self).escrow@ == old(self).escrow@,
            final(self).assets@ == old(self).assets@,
    {
        let b = self.balances[a];
        self.balances.set(a, b + amount);
    }

    /// Reads the balance of an account.
    pub fn balance_of(&self, a: AccountId) -> (b: u64)
        requires
            (a as int) < self.accounts(),
        ensures
            b == self.bal(a as int),
    {
        self.balances[a]
    }

    /// Reads which account holds an asset.
    pub fn holder_of(&self, asset: AssetId) -> (a: AccountId)
        requires
            (asset as int) < self.n_assets(),
        ensures
            self.holds(asset, a),
    {
        self.assets[asset]
    }

    /// Decides, without moving anything, whether a pair of transfers out of
    /// one payer would go through, and with which refusal it would fail.
    pub(crate) fn check_double_transfer(
        &self,
        from: AccountId,
        to1: AccountId,
        amt1: u64,
        to2: AccountId,
        amt2: u64,
    ) -> (r: Option<ErrorCode>)
        requires
            self.wf(),
            (from as int) < self.accounts(),
            (to1 as int) < self.accounts(),
            (to2 as int) < self.accounts(),
        ensures
            r == double_xfer_err(self.balances@, from as int, to1 as int, amt1, to2 as int, amt2),
    {
        let bfrom = self.balances[from];
        if bfrom < amt1 {
            return Some(ErrorCode::InsufficientFunds);
        }
        if from != to1 && u64::MAX - self.balances[to1] < amt1 {
            return Some(ErrorCode::BalanceOverflow);
        }
        let bfrom1 = if from == to1 {
            bfrom
        } else {
            bfrom - amt1
        };
        if bfrom1 < amt2 {
            return Some(ErrorCode::InsufficientFunds);
        }
        if from != to2 {
            let bto2 = if to2 == to1 && from != to1 {
                self.balances[to1] + amt1
            } else {
                self.balances[to2]
            };
            if u64::MAX - bto2 < amt2 {
                return Some(ErrorCode::BalanceOverflow);
            }
        }
        None
    }

    /// Moves `amount` units from `from` to `to`. Only the marketplace's own
    /// operations reach this, each acting for a signing party or for the
    /// escrow authority of the resource it settles.
    pub(crate) fn transfer(&mut self, from: AccountId, to: AccountId, amount: u64)
        requires
            old(self).wf(),
            (from as int) < old(self).accounts(),
            (to as int) < old(self).accounts(),
            old(self).bal(from as int) >= amount,
            from != to ==> old(self).bal(to as int) + amount <= u64::MAX,
        ensures
            final(self).wf(),
            final(self).balances@ == xfer(old(self).balances@, from as int, to as int, amount),
            final(self).escrow@ == old(self).escrow@,
            final(self).assets@ == old(self).assets@,
    {
        if from != to {
            let bf = self.balances[from];
            self.balances.set(from, bf - amount);
            let bt = self.balances[to];
            self.balances.set(to, bt + amount);
        }
    }

    /// Moves an asset into the custody of `to`. Only the marketplace's own
    /// operations reach this, each acting for the holding party or for the
    /// escrow authority of the resource that holds the asset.
    pub(crate) fn move_asset(&mut self, asset: AssetId, to: AccountId)
        requires
            old(self).wf(),
            (asset as int) < old(self).n_assets(),
            (to as int) < old(self).accounts(),
        ensures
            final(self).wf(),
            final(self).assets@ == old(self).assets@.update(asset as int, to),
            final(self).balances@ == old(self).balances@,
            final(self).escrow@ == old(self).escrow@,
    {
        self.assets.set(asset, to);
    }
}

} // verus!
