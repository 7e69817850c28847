use vstd::prelude::*;

use crate::ledger::Ledger;
use crate::state::{account_is, credit, escrow_index, has_escrow, pay, EscrowAuthority, EscrowError, LedgerState};

verus! {

/// The accounts of a refund: `signer` cancels the escrow derived from
/// `(maker, seed)` and takes the offered asset back.
#[derive(Clone, Copy, Debug, PartialEq, Eq, Structural)]
pub struct Refund {
    /// Whoever invokes the refund; it succeeds only for the stored maker.
    pub signer: u64,
    pub maker: u64,
    pub seed: u64,
    /// Index of the offered mint.
    pub mint_a: usize,
    /// Index of the maker's account of the offered asset.
    pub maker_ata_a: usize,
    /// Index of the maker's wallet.
    pub maker_wallet: usize,
}

/// The outcome of a refund on `l`: the first failing check, or the new state.
pub open spec fn refund_result(l: LedgerState, f: Refund) -> Result<LedgerState, EscrowError> {
    if !has_escrow(l, f.maker, f.seed) {
        Err(EscrowError::EscrowNotFound)
    } else {
        let i = escrow_index(l, f.maker, f.seed);
        let s = l.escrows[i];
        if s.record.maker != f.signer {
            Err(EscrowError::Unauthorized)
        } else if !(f.mint_a < l.mints.len() && f.maker_ata_a < l.accounts.len() && f.maker_wallet
            < l.wallets.len()) {
            Err(EscrowError::InvalidAccount)
        } else if l.mints[f.mint_a as int].key != s.record.mint_a {
            Err(EscrowError::MintMismatch)
        } else if !(account_is(l.accounts, f.maker_ata_a as int, f.maker, s.record.mint_a)
            && l.wallets[f.maker_wallet as int].key == f.maker) {
            Err(EscrowError::InvalidAccount)
        } else if l.accounts[f.maker_ata_a as int].amount + s.vault > u64::MAX {
            Err(EscrowError::Overflow)
        } else if l.wallets[f.maker_wallet as int].lamports + s.record_rent + s.vault_rent
            > u64::MAX {
            Err(EscrowError::Overflow)
        } else {
            Ok(
                LedgerState {
                    accounts: credit(l.accounts, f.maker_ata_a as int, s.vault as int),
                    wallets: pay(l.wallets, f.maker_wallet as int, s.record_rent + s.vault_rent),
                    escrows: l.escrows.remove(i),
                    ..l
                },
            )
        }
    }
}

impl Ledger {
    /// Cancels an open escrow: the whole vault returns to the maker under the
    /// escrow's derived authority, and the vault and the record are closed with
    /// their storage fees returned to the maker. Only the stored maker may do
    /// this; either all of it happens or nothing does.
    pub fn refund(&mut self, f: &Refund) -> (r: Result<(), EscrowError>)
        requires
            old(self).wf(),
        ensures
            final(self).wf(),
            match refund_result(old(self)@, *f) {
                Ok(s) => r is Ok && final(self)@ == s,
                Err(e) => r == Err::<(), EscrowError>(e) && final(self)@ == old(self)@,
            },
    {
        let index = match self.find_escrow(f.maker, f.seed) {
            Some(i) => i,
            None => return Err(EscrowError::EscrowNotFound),
        };
        let slot = match self.slot(index) {
            Some(s) => s,
            None => return Err(EscrowError::EscrowNotFound),
        };
        let record = slot.record;
        if record.maker != f.signer {
            return Err(EscrowError::Unauthorized);
        }
        let (mint_a, ata, wallet) = match (
            self.mint(f.mint_a),
            self.account(f.maker_ata_a),
            self.wallet(f.maker_wallet),
        ) {
            (Some(m), Some(a), Some(w)) => (m, a, w),
            _ => return Err(EscrowError::InvalidAccount),
        };
        if mint_a.key != record.mint_a {
            return Err(EscrowError::MintMismatch);
        }
        if ata.owner != f.maker || ata.mint != record.mint_a || wallet.key != f.maker {
            return Err(EscrowError::InvalidAccount);
        }
        if ata.amount > u64::MAX - slot.vault {
            return Err(EscrowError::Overflow);
        }
        if wallet.lamports > u64::MAX - slot.record_rent || wallet.lamports + slot.record_rent
            > u64::MAX - slot.vault_rent {
            return Err(EscrowError::Overflow);
        }
        let signer = EscrowAuthority { maker: record.maker, seed: record.seed, bump: record.bump };
        self.release_escrow(index, signer, f.maker_ata_a, f.maker_wallet);
        Ok(())
    }
}

} // verus!
