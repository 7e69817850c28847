use vstd::prelude::*;

use crate::ledger::Ledger;
use crate::state::{
    account_is, credit, debit, escrow_index, has_escrow, pay, EscrowAuthority, EscrowError,
    LedgerState,
};

verus! {

/// The accounts of a take: `taker` pays for and settles the escrow derived from
/// `(maker, seed)`. Account fields are indices into the ledger.
#[derive(Clone, Copy, Debug, PartialEq, Eq, Structural)]
pub struct Take {
    /// The maker of the escrow; receives the payment and the storage fees.
    pub maker: u64,
    /// The signer who fills the offer.
    pub taker: u64,
    pub seed: u64,
    /// Index of the offered mint.
    pub mint_a: usize,
    /// Index of the requested mint.
    pub mint_b: usize,
    /// Index of the maker's wallet.
    pub maker_wallet: usize,
    /// Index of the maker's account of the requested asset.
    pub maker_ata_b: usize,
    /// Index of the taker's account of the offered asset.
    pub taker_ata_a: usize,
    /// Index of the taker's account of the requested asset.
    pub taker_ata_b: usize,
}

pub open spec fn take_indices_valid(l: LedgerState, t: Take) -> bool {
    &&& t.mint_a < l.mints.len()
    &&& t.mint_b < l.mints.len()
    &&& t.maker_wallet < l.wallets.len()
    &&& t.maker_ata_b < l.accounts.len()
    &&& t.taker_ata_a < l.accounts.len()
    &&& t.taker_ata_b < l.accounts.len()
}

/// The accounts after the payment leg: `receive` units of the requested asset
/// moved from the taker to the maker.
pub open spec fn paid_accounts(l: LedgerState, t: Take) -> Seq<crate::state::TokenAccount> {
    let receive = l.escrows[escrow_index(l, t.maker, t.seed)].record.receive;
    credit(debit(l.accounts, t.taker_ata_b as int, receive as int), t.maker_ata_b as int, receive as int)
}

/// The outcome of a take on `l`: the first failing check, or the new state.
pub open spec fn take_result(l: LedgerState, t: Take) -> Result<LedgerState, EscrowError> {
    if !has_escrow(l, t.maker, t.seed) {
        Err(EscrowError::EscrowNotFound)
    } else if !take_indices_valid(l, t) {
        Err(EscrowError::InvalidAccount)
    } else {
        let i = escrow_index(l, t.maker, t.seed);
        let s = l.escrows[i];
        let a = l.accounts;
        let receive = s.record.receive;
        if l.mints[t.mint_a as int].key != s.record.mint_a || l.mints[t.mint_b as int].key
            != s.record.mint_b {
            Err(EscrowError::MintMismatch)
        } else if !(account_is(a, t.taker_ata_a as int, t.taker, s.record.mint_a) && account_is(
            a,
            t.taker_ata_b as int,
            t.taker,
            s.record.mint_b,
        ) && account_is(a, t.maker_ata_b as int, t.maker, s.record.mint_b)
            && l.wallets[t.maker_wallet as int].key == t.maker) {
            Err(EscrowError::InvalidAccount)
        } else if a[t.taker_ata_b as int].amount < receive {
            Err(EscrowError::InsufficientFunds)
        } else if debit(a, t.taker_ata_b as int, receive as int)[t.maker_ata_b as int].amount
            + receive > u64::MAX {
            Err(EscrowError::Overflow)
        } else if paid_accounts(l, t)[t.taker_ata_a as int].amount + s.vault > u64::MAX {
            Err(EscrowError::Overflow)
        } else if l.wallets[t.maker_wallet as int].lamports + s.record_rent + s.vault_rent
            > u64::MAX {
            Err(EscrowError::Overflow)
        } else {
            Ok(
                LedgerState {
                    accounts: credit(paid_accounts(l, t), t.taker_ata_a as int, s.vault as int),
                    wallets: pay(l.wallets, t.maker_wallet as int, s.record_rent + s.vault_rent),
                    escrows: l.escrows.remove(i),
                    ..l
                },
            )
        }
    }
}

impl Take {
    /// Settles the escrow: the taker pays `receive` of the requested asset to the
    /// maker, the whole vault goes to the taker under the escrow's derived
    /// authority, and the vault and the record are closed with their storage
    /// fees returned to the maker. The payment is checked before the vault is
    /// touched; either all of it happens or nothing does.
    pub fn withdraw_and_close_vault(&self, ledger: &mut Ledger) -> (r: Result<(), EscrowError>)
        requires
            old(ledger).wf(),
        ensures
            final(ledger).wf(),
            match take_result(old(ledger)@, *self) {
                Ok(s) => r is Ok && final(ledger)@ == s,
                Err(e) => r == Err::<(), EscrowError>(e) && final(ledger)@ == old(ledger)@,
            },
    {
        let index = match ledger.find_escrow(self.maker, self.seed) {
            Some(i) => i,
            None => return Err(EscrowError::EscrowNotFound),
        };
        let (mint_a, mint_b, wallet, maker_b, taker_a, taker_b) = match (
            ledger.mint(self.mint_a),
            ledger.mint(self.mint_b),
            ledger.wallet(self.maker_wallet),
            ledger.account(self.maker_ata_b),
            ledger.account(self.taker_ata_a),
            ledger.account(self.taker_ata_b),
        ) {
            (Some(ma), Some(mb), Some(w), Some(x), Some(y), Some(z)) => (ma, mb, w, x, y, z),
            _ => return Err(EscrowError::InvalidAccount),
        };
        let slot = match ledger.slot(index) {
            Some(s) => s,
            None => return Err(EscrowError::EscrowNotFound),
        };
        let record = slot.record;
        if mint_a.key != record.mint_a || mint_b.key != record.mint_b {
            return Err(EscrowError::MintMismatch);
        }
        if !(taker_a.owner == self.taker && taker_a.mint == record.mint_a && taker_b.owner
            == self.taker && taker_b.mint == record.mint_b && maker_b.owner == self.maker
            && maker_b.mint == record.mint_b && wallet.key == self.maker) {
            return Err(EscrowError::InvalidAccount);
        }
        let receive = record.receive;
        if taker_b.amount < receive {
            return Err(EscrowError::InsufficientFunds);
        }
        // Balances as the two legs will find them, where accounts coincide.

        let maker_b_before = if self.maker_ata_b == self.taker_ata_b {
            taker_b.amount - receive
        } else {
            maker_b.amount
        };
        if maker_b_before > u64::MAX - receive {
            return Err(EscrowError::Overflow);
        }
        let taker_a_before = if self.taker_ata_a == self.maker_ata_b {
            maker_b_before + receive
        } else if self.taker_ata_a == self.taker_ata_b {
            taker_b.amount - receive
        } else {
            taker_a.amount
        };
        if taker_a_before > u64::MAX - slot.vault {
            return Err(EscrowError::Overflow);
        }
        if wallet.lamports > u64::MAX - slot.record_rent || wallet.lamports + slot.record_rent
            > u64::MAX - slot.vault_rent {
            return Err(EscrowError::Overflow);
        }
        ledger.transfer(self.taker_ata_b, self.maker_ata_b, receive);
        let signer = EscrowAuthority { maker: record.maker, seed: record.seed, bump: record.bump };
        ledger.release_escrow(index, signer, self.taker_ata_a, self.maker_wallet);
        Ok(())
    }
}

} // verus!
