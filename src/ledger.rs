use vstd::prelude::*;

use crate::state::{
    credit, debit, escrow_index, escrow_matches, has_escrow, pay,
    state_wf, Escrow, EscrowAuthority, EscrowError, LedgerState, Mint, Slot, TokenAccount, Wallet,
};

verus! {

/// The signing capability derived for the escrow held in `s`.
pub open spec fn authority_of(s: Slot) -> EscrowAuthority {
    EscrowAuthority { maker: s.record.maker, seed: s.record.seed, bump: s.record.bump }
}

/// The host state: registered mints, token accounts, wallets and open escrows.
pub struct Ledger {
    mints: Vec<Mint>,
    accounts: Vec<TokenAccount>,
    wallets: Vec<Wallet>,
    escrows: Vec<Slot>,
    record_rent: u64,
    vault_rent: u64,
}

impl Ledger {
    pub closed spec fn view(&self) -> LedgerState {
        LedgerState {
            mints: self.mints@,
            accounts: self.accounts@,
            wallets: self.wallets@,
            escrows: self.escrows@,
            record_rent: self.record_rent,
            vault_rent: self.vault_rent,
        }
    }

    pub open spec fn wf(&self) -> bool {
        state_wf(self@)
    }

    /// An empty ledger whose new records and vaults cost the given storage fees.
    pub fn new(record_rent: u64, vault_rent: u64) -> (r: Ledger)
        ensures
            r.wf(),
            r@ == (LedgerState {
                mints: Seq::empty(),
                accounts: Seq::empty(),
                wallets: Seq::empty(),
                escrows: Seq::empty(),
                record_rent,
                vault_rent,
            }),
    {
        let r = Ledger {
            mints: Vec::new(),
            accounts: Vec::new(),
            wallets: Vec::new(),
            escrows: Vec::new(),
            record_rent,
            vault_rent,
        };
        proof {
            assert(r@.mints =~= Seq::empty());
            assert(r@.accounts =~= Seq::empty());
            assert(r@.wallets =~= Seq::empty());
            assert(r@.escrows =~= Seq::empty());
        }
        r
    }

    /// Registers an asset; returns its index.
    pub fn add_mint(&mut self, key: u64, decimals: u8) -> (r: usize)
        requires
            old(self).wf(),
            old(self)@.mints.len() < usize::MAX,
        ensures
            final(self).wf(),
            r == old(self)@.mints.len(),
            final(self)@ == (LedgerState {
                mints: old(self)@.mints.push(Mint { key, decimals }),
                ..old(self)@
            }),
    {
        let r = self.mints.len();
        self.mints.push(Mint { key, decimals });
        r
    }

    /// Opens a token account; returns its index.
    pub fn add_account(&mut self, owner: u64, mint: u64, amount: u64) -> (r: usize)
        requires
            old(self).wf(),
            old(self)@.accounts.len() < usize::MAX,
        ensures
            final(self).wf(),
            r == old(self)@.accounts.len(),
            final(self)@ == (LedgerState {
                accounts: old(self)@.accounts.push(TokenAccount { owner, mint, amount }),
                ..old(self)@
            }),
    {
        let r = self.accounts.len();
        self.accounts.push(TokenAccount { owner, mint, amount });
        r
    }

    /// Opens a wallet; returns its index.
    pub fn add_wallet(&mut self, key: u64, lamports: u64) -> (r: usize)
        requires
            old(self).wf(),
            old(self)@.wallets.len() < usize::MAX,
        ensures
            final(self).wf(),
            r == old(self)@.wallets.len(),
            final(self)@ == (LedgerState {
                wallets: old(self)@.wallets.push(Wallet { key, lamports }),
                ..old(self)@
            }),
    {
        let r = self.wallets.len();
        self.wallets.push(Wallet { key, lamports });
        r
    }

    /// The record rent charged by `make`.
    pub fn record_rent(&self) -> (r: u64)
        ensures
            r == self@.record_rent,
    {
        self.record_rent
    }

    /// The vault rent charged by `make`.
    pub fn vault_rent(&self) -> (r: u64)
        ensures
            r == self@.vault_rent,
    {
        self.vault_rent
    }

    pub fn mint(&self, i: usize) -> (r: Option<Mint>)
        ensures
            r == (if i < self@.mints.len() { Some(self@.mints[i as int]) } else { None::<Mint> }),
    {
        if i < self.mints.len() {
            Some(self.mints[i])
        } else {
            None
        }
    }

    pub fn account(&self, i: usize) -> (r: Option<TokenAccount>)
        ensures
            r == (if i < self@.accounts.len() {
                Some(self@.accounts[i as int])
            } else {
                None::<TokenAccount>
            }),
    {
        if i < self.accounts.len() {
            Some(self.accounts[i])
        } else {
            None
        }
    }

    pub fn wallet(&self, i: usize) -> (r: Option<Wallet>)
        ensures
            r == (if i < self@.wallets.len() { Some(self@.wallets[i as int]) } else { None::<Wallet> }),
    {
        if i < self.wallets.len() {
            Some(self.wallets[i])
        } else {
            None
        }
    }

    /// The balance of the token account at `i`, if it exists.
    pub fn balance(&self, i: usize) -> (r: Option<u64>)
        ensures
            r == (if i < self@.accounts.len() {
                Some(self@.accounts[i as int].amount)
            } else {
                None::<u64>
            }),
    {
        if i < self.accounts.len() {
            Some(self.accounts[i].amount)
        } else {
            None
        }
    }

    /// The lamports of the wallet at `i`, if it exists.
    pub fn lamports(&self, i: usize) -> (r: Option<u64>)
        ensures
            r == (if i < self@.wallets.len() {
                Some(self@.wallets[i as int].lamports)
            } else {
                None::<u64>
            }),
    {
        if i < self.wallets.len() {
            Some(self.wallets[i].lamports)
        } else {
            None
        }
    }

    /// The number of open escrows.
    pub fn open_escrows(&self) -> (r: usize)
        ensures
            r == self@.escrows.len(),
    {
        self.escrows.len()
    }

    /// The position of the open escrow derived from `(maker, seed)`, if any.
    pub fn find_escrow(&self, maker: u64, seed: u64) -> (r: Option<usize>)
        requires
            self.wf(),
        ensures
            r is None <==> !has_escrow(self@, maker, seed),
            r matches Some(i) ==> i == escrow_index(self@, maker, seed) && i < self@.escrows.len(),
    {
        let mut i: usize = 0;
        while i < self.escrows.len()
            invariant
                self.wf(),
                i <= self.escrows@.len(),
                forall|k: int| 0 <= k < i ==> !#[trigger] escrow_matches(self.escrows@[k], maker, seed),
            decreases self.escrows.len() - i,
        {
            let s = self.escrows[i];
            if s.record.maker == maker && s.record.seed == seed {
                proof {
                    assert(escrow_matches(self@.escrows[i as int], maker, seed));
                    assert(has_escrow(self@, maker, seed));
                    let j = escrow_index(self@, maker, seed);
                    assert(0 <= j < self@.escrows.len() && escrow_matches(self@.escrows[j], maker, seed));
                    assert(escrow_matches(
                        self@.escrows[j],
                        self@.escrows[i as int].record.maker,
                        self@.escrows[i as int].record.seed,
                    ));
                }
                return Some(i);
            }
            i = i + 1;
        }
        None
    }

    /// The open escrow at position `i`.
    pub fn slot(&self, i: usize) -> (r: Option<Slot>)
        ensures
            r == (if i < self@.escrows.len() { Some(self@.escrows[i as int]) } else { None::<Slot> }),
    {
        if i < self.escrows.len() {
            Some(self.escrows[i])
        } else {
            None
        }
    }

    /// The record of the open escrow derived from `(maker, seed)`, if any.
    pub fn escrow(&self, maker: u64, seed: u64) -> (r: Option<Escrow>)
        requires
            self.wf(),
        ensures
            r == (if has_escrow(self@, maker, seed) {
                Some(self@.escrows[escrow_index(self@, maker, seed)].record)
            } else {
                None::<Escrow>
            }),
    {
        match self.find_escrow(maker, seed) {
            Some(i) => Some(self.escrows[i].record),
            None => None,
        }
    }

    /// The balance of the vault of the open escrow derived from `(maker, seed)`, if any.
    pub fn vault_balance(&self, maker: u64, seed: u64) -> (r: Option<u64>)
        requires
            self.wf(),
        ensures
            r == (if has_escrow(self@, maker, seed) {
                Some(self@.escrows[escrow_index(self@, maker, seed)].vault)
            } else {
                None::<u64>
            }),
    {
        match self.find_escrow(maker, seed) {
            Some(i) => Some(self.escrows[i].vault),
            None => None,
        }
    }

    /// Moves `amount` units between two token accounts; the caller has checked
    /// holders, assets and amounts. Moving to the same account leaves it as it was.
    pub(crate) fn transfer(&mut self, from: usize, to: usize, amount: u64)
        requires
            from < old(self)@.accounts.len(),
            to < old(self)@.accounts.len(),
            old(self)@.accounts[from as int].amount >= amount,
            debit(old(self)@.accounts, from as int, amount as int)[to as int].amount + amount
                <= u64::MAX,
        ensures
            final(self)@ == (LedgerState {
                accounts: credit(
                    debit(old(self)@.accounts, from as int, amount as int),
                    to as int,
                    amount as int,
                ),
                ..old(self)@
            }),
    {
        let a = self.accounts[from];
        self.accounts[from] = TokenAccount { owner: a.owner, mint: a.mint, amount: a.amount - amount };
        let b = self.accounts[to];
        self.accounts[to] = TokenAccount { owner: b.owner, mint: b.mint, amount: b.amount + amount };
    }

    /// Creates the record and vault of `slot`: the maker's wallet pays both storage
    /// fees and `slot.vault` units move from the account at `from` into the vault.
    pub(crate) fn open_escrow(&mut self, slot: Slot, from: usize, wallet: usize)
        requires
            old(self).wf(),
            !has_escrow(old(self)@, slot.record.maker, slot.record.seed),
            from < old(self)@.accounts.len(),
            old(self)@.accounts[from as int].amount >= slot.vault,
            wallet < old(self)@.wallets.len(),
            old(self)@.wallets[wallet as int].lamports >= slot.record_rent + slot.vault_rent,
        ensures
            final(self).wf(),
            final(self)@ == (LedgerState {
                accounts: debit(old(self)@.accounts, from as int, slot.vault as int),
                wallets: pay(
                    old(self)@.wallets,
                    wallet as int,
                    -(slot.record_rent + slot.vault_rent),
                ),
                escrows: old(self)@.escrows.push(slot),
                ..old(self)@
            }),
    {
        let a = self.accounts[from];
        self.accounts[from] = TokenAccount { owner: a.owner, mint: a.mint, amount: a.amount - slot.vault };
        let w = self.wallets[wallet];
        self.wallets[wallet] = Wallet {
            key: w.key,
            lamports: w.lamports - slot.record_rent - slot.vault_rent,
        };
        self.push_slot(slot);
    }

    /// Appends `slot` under a `(maker, seed)` that no open escrow uses.
    fn push_slot(&mut self, slot: Slot)
        requires
            old(self).wf(),
            !has_escrow(old(self)@, slot.record.maker, slot.record.seed),
        ensures
            final(self).wf(),
            final(self)@ == (LedgerState { escrows: old(self)@.escrows.push(slot), ..old(self)@ }),
    {
        self.escrows.push(slot);
        proof {
            let e = self@.escrows;
            assert forall|i: int, j: int|
                0 <= i < e.len() && 0 <= j < e.len() && #[trigger] escrow_matches(
                    e[i],
                    e[j].record.maker,
                    e[j].record.seed,
                ) implies i == j by {
                if i == e.len() - 1 && j < e.len() - 1 {
                    assert(escrow_matches(old(self)@.escrows[j], slot.record.maker, slot.record.seed));
                } else if j == e.len() - 1 && i < e.len() - 1 {
                    assert(escrow_matches(old(self)@.escrows[i], slot.record.maker, slot.record.seed));
                } else if i < e.len() - 1 && j < e.len() - 1 {
                    assert(escrow_matches(
                        old(self)@.escrows[i],
                        old(self)@.escrows[j].record.maker,
                        old(self)@.escrows[j].record.seed,
                    ));
                }
            }
        }
    }

    /// Loads an escrow that already exists elsewhere, with its vault balance and
    /// the storage fees that were paid for it; refused where an open escrow
    /// already uses its `(maker, seed)`.
    pub fn load_escrow(&mut self, slot: Slot) -> (r: Result<(), EscrowError>)
        requires
            old(self).wf(),
        ensures
            final(self).wf(),
            if has_escrow(old(self)@, slot.record.maker, slot.record.seed) {
                r == Err::<(), EscrowError>(EscrowError::EscrowExists) && final(self)@ == old(self)@
            } else {
                r is Ok && final(self)@ == (LedgerState {
                    escrows: old(self)@.escrows.push(slot),
                    ..old(self)@
                })
            },
    {
        if self.find_escrow(slot.record.maker, slot.record.seed).is_some() {
            return Err(EscrowError::EscrowExists);
        }
        self.push_slot(slot);
        Ok(())
    }

    /// Empties the vault of the escrow at position `index` into the account at `to`,
    /// closes the vault and the record, and returns both storage fees to the wallet
    /// at `wallet`. Only the escrow's own derived authority can sign for this.
    pub(crate) fn release_escrow(
        &mut self,
        index: usize,
        signer: EscrowAuthority,
        to: usize,
        wallet: usize,
    )
        requires
            old(self).wf(),
            index < old(self)@.escrows.len(),
            signer == authority_of(old(self)@.escrows[index as int]),
            to < old(self)@.accounts.len(),
            old(self)@.accounts[to as int].amount + old(self)@.escrows[index as int].vault
                <= u64::MAX,
            wallet < old(self)@.wallets.len(),
            old(self)@.wallets[wallet as int].lamports + old(self)@.escrows[index as int].record_rent
                + old(self)@.escrows[index as int].vault_rent <= u64::MAX,
        ensures
            final(self).wf(),
            final(self)@ == (LedgerState {
                accounts: credit(
                    old(self)@.accounts,
                    to as int,
                    old(self)@.escrows[index as int].vault as int,
                ),
                wallets: pay(
                    old(self)@.wallets,
                    wallet as int,
                    old(self)@.escrows[index as int].record_rent
                        + old(self)@.escrows[index as int].vault_rent,
                ),
                escrows: old(self)@.escrows.remove(index as int),
                ..old(self)@
            }),
    {
        let s = self.escrows.remove(index);
        let b = self.accounts[to];
        self.accounts[to] = TokenAccount { owner: b.owner, mint: b.mint, amount: b.amount + s.vault };
        let w = self.wallets[wallet];
        self.wallets[wallet] = Wallet {
            key: w.key,
            lamports: w.lamports + s.record_rent + s.vault_rent,
        };
        proof {
            let o = old(self)@.escrows;
            let e = self@.escrows;
            assert forall|i: int, j: int|
                0 <= i < e.len() && 0 <= j < e.len() && #[trigger] escrow_matches(
                    e[i],
                    e[j].record.maker,
                    e[j].record.seed,
                ) implies i == j by {
                let oi = if i < index { i } else { i + 1 };
                let oj = if j < index { j } else { j + 1 };
                assert(e[i] == o[oi]);
                assert(e[j] == o[oj]);
                assert(escrow_matches(o[oi], o[oj].record.maker, o[oj].record.seed));
            }
        }
    }
}

} // verus!
