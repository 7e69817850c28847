use vstd::prelude::*;

use crate::ledger::Ledger;
use crate::state::{
    account_is, debit, has_escrow, pay, Escrow, EscrowError, LedgerState, Slot,
};

verus! {

/// The arguments and the accounts of a make: `maker` offers `amount` units of the
/// mint at `mint_a` for `receive` units of the mint at `mint_b`.
#[derive(Clone, Copy, Debug, PartialEq, Eq, Structural)]
pub struct Make {
    /// The signer, who creates the offer and pays for its storage.
    pub maker: u64,
    pub seed: u64,
    pub amount: u64,
    pub receive: u64,
    /// Index of the offered mint.
    pub mint_a: usize,
    /// Index of the requested mint.
    pub mint_b: usize,
    /// The precision the maker declares for the offered asset.
    pub decimals: u8,
    /// The bump that makes the address derived from `(maker, seed)` valid.
    pub bump: u8,
    /// Index of the maker's token account of the offered asset.
    pub maker_ata_a: usize,
    /// Index of the maker's wallet.
    pub maker_wallet: usize,
}

/// The record that a successful make stores.
pub open spec fn made_record(l: LedgerState, m: Make) -> Escrow {
    Escrow {
        seed: m.seed,
        maker: m.maker,
        mint_a: l.mints[m.mint_a as int].key,
        mint_b: l.mints[m.mint_b as int].key,
        receive: m.receive,
        bump: m.bump,
    }
}

/// The outcome of `make` on `l`: the first failing check, or the new state.
pub open spec fn make_result(l: LedgerState, m: Make) -> Result<LedgerState, EscrowError> {
    if has_escrow(l, m.maker, m.seed) {
        Err(EscrowError::EscrowExists)
    } else if !(m.mint_a < l.mints.len() && m.mint_b < l.mints.len() && m.maker_ata_a
        < l.accounts.len() && m.maker_wallet < l.wallets.len()) {
        Err(EscrowError::InvalidAccount)
    } else if !account_is(l.accounts, m.maker_ata_a as int, m.maker, l.mints[m.mint_a as int].key)
        || l.wallets[m.maker_wallet as int].key != m.maker {
        Err(EscrowError::InvalidAccount)
    } else if m.decimals != l.mints[m.mint_a as int].decimals {
        Err(EscrowError::DecimalsMismatch)
    } else if l.wallets[m.maker_wallet as int].lamports < l.record_rent + l.vault_rent {
        Err(EscrowError::InsufficientLamports)
    } else if l.accounts[m.maker_ata_a as int].amount < m.amount {
        Err(EscrowError::InsufficientFunds)
    } else {
        Ok(
            LedgerState {
                accounts: debit(l.accounts, m.maker_ata_a as int, m.amount as int),
                wallets: pay(l.wallets, m.maker_wallet as int, -(l.record_rent + l.vault_rent)),
                escrows: l.escrows.push(
                    Slot {
                        record: made_record(l, m),
                        vault: m.amount,
                        record_rent: l.record_rent,
                        vault_rent: l.vault_rent,
                    },
                ),
                ..l
            },
        )
    }
}

impl Ledger {
    /// Opens an escrow: creates its record and vault, charges the maker both
    /// storage fees and moves `amount` of the offered asset into the vault.
    /// Either all of it happens or nothing does.
    pub fn make(&mut self, m: &Make) -> (r: Result<(), EscrowError>)
        requires
            old(self).wf(),
        ensures
            final(self).wf(),
            match make_result(old(self)@, *m) {
                Ok(s) => r is Ok && final(self)@ == s,
                Err(e) => r == Err::<(), EscrowError>(e) && final(self)@ == old(self)@,
            },
    {
        if self.find_escrow(m.maker, m.seed).is_some() {
            return Err(EscrowError::EscrowExists);
        }
        let (mint_a, mint_b, ata, wallet) = match (
            self.mint(m.mint_a),
            self.mint(m.mint_b),
            self.account(m.maker_ata_a),
            self.wallet(m.maker_wallet),
        ) {
            (Some(a), Some(b), Some(t), Some(w)) => (a, b, t, w),
            _ => return Err(EscrowError::InvalidAccount),
        };
        if ata.owner != m.maker || ata.mint != mint_a.key || wallet.key != m.maker {
            return Err(EscrowError::InvalidAccount);
        }
        if m.decimals != mint_a.decimals {
            return Err(EscrowError::DecimalsMismatch);
        }
        let record_rent = self.record_rent();
        let vault_rent = self.vault_rent();
        if wallet.lamports < record_rent || wallet.lamports - record_rent < vault_rent {
            return Err(EscrowError::InsufficientLamports);
        }
        if ata.amount < m.amount {
            return Err(EscrowError::InsufficientFunds);
        }
        let slot = Slot {
            record: Escrow {
                seed: m.seed,
                maker: m.maker,
                mint_a: mint_a.key,
                mint_b: mint_b.key,
                receive: m.receive,
                bump: m.bump,
            },
            vault: m.amount,
            record_rent,
            vault_rent,
        };
        self.open_escrow(slot, m.maker_ata_a, m.maker_wallet);
        Ok(())
    }
}

} // verus!
