use vstd::prelude::*;

use crate::make::{made_record, make_result, Make};
use crate::refund::{refund_result, Refund};
use crate::state::{escrow_index, escrow_matches, has_escrow, keys_unique, state_wf, LedgerState, Slot};
use crate::take::{take_result, Take};

verus! {

/// Removing the one escrow derived from `(maker, seed)` leaves none derived from it.
proof fn lemma_remove_clears(l: LedgerState, maker: u64, seed: u64)
    requires
        keys_unique(l.escrows),
        has_escrow(l, maker, seed),
    ensures
        !has_escrow(
            LedgerState { escrows: l.escrows.remove(escrow_index(l, maker, seed)), ..l },
            maker,
            seed,
        ),
{
    let i = escrow_index(l, maker, seed);
    let e = l.escrows.remove(i);
    assert forall|k: int| 0 <= k < e.len() implies !#[trigger] escrow_matches(e[k], maker, seed) by {
        let o = if k < i { k } else { k + 1 };
        assert(e[k] == l.escrows[o]);
        if escrow_matches(e[k], maker, seed) {
            assert(escrow_matches(l.escrows[o], l.escrows[i].record.maker, l.escrows[i].record.seed));
        }
    }
}

/// Appending an escrow under a fresh `(maker, seed)` makes it the one found there.
proof fn lemma_push_found(l: LedgerState, s: Slot)
    requires
        !has_escrow(l, s.record.maker, s.record.seed),
    ensures
        has_escrow(
            LedgerState { escrows: l.escrows.push(s), ..l },
            s.record.maker,
            s.record.seed,
        ),
        escrow_index(LedgerState { escrows: l.escrows.push(s), ..l }, s.record.maker, s.record.seed)
            == l.escrows.len(),
{
    let v = LedgerState { escrows: l.escrows.push(s), ..l };
    assert(escrow_matches(v.escrows[l.escrows.len() as int], s.record.maker, s.record.seed));
    let j = escrow_index(v, s.record.maker, s.record.seed);
    if j < l.escrows.len() {
        assert(escrow_matches(l.escrows[j], s.record.maker, s.record.seed));
    }
}

/// A successful make leaves an open escrow under `(maker, seed)` whose vault holds
/// exactly `amount` and whose record holds exactly the inputs of the make.
pub proof fn lemma_make_records_inputs(l: LedgerState, m: Make)
    requires
        state_wf(l),
        make_result(l, m) is Ok,
    ensures
        ({
            let v = make_result(l, m)->Ok_0;
            let s = v.escrows[escrow_index(v, m.maker, m.seed)];
            &&& has_escrow(v, m.maker, m.seed)
            &&& s.vault == m.amount
            &&& s.record == made_record(l, m)
            &&& s.record.seed == m.seed
            &&& s.record.maker == m.maker
            &&& s.record.receive == m.receive
            &&& s.record.bump == m.bump
            &&& s.record.mint_a == l.mints[m.mint_a as int].key
            &&& s.record.mint_b == l.mints[m.mint_b as int].key
        }),
{
    let s = Slot {
        record: made_record(l, m),
        vault: m.amount,
        record_rent: l.record_rent,
        vault_rent: l.vault_rent,
    };
    lemma_push_found(l, s);
    let v = make_result(l, m)->Ok_0;
    assert(v.escrows == l.escrows.push(s));
}

/// Two makes under the same `(maker, seed)` cannot both succeed: after one has,
/// the other is refused because the derived address is taken.
pub proof fn lemma_make_twice_refused(l: LedgerState, m: Make, m2: Make)
    requires
        state_wf(l),
        make_result(l, m) is Ok,
        m2.maker == m.maker,
        m2.seed == m.seed,
    ensures
        make_result(make_result(l, m)->Ok_0, m2) == Err::<LedgerState, crate::state::EscrowError>(
            crate::state::EscrowError::EscrowExists,
        ),
{
    lemma_make_records_inputs(l, m);
}

/// A successful take credits the taker with the whole pre-take vault, credits the
/// maker with exactly `receive`, debits the taker's payment account by `receive`,
/// returns both storage fees to the maker and leaves no escrow under `(maker, seed)`.
/// Stated for three distinct token accounts.
pub proof fn lemma_take_settles(l: LedgerState, t: Take)
    requires
        state_wf(l),
        take_result(l, t) is Ok,
        t.taker_ata_a != t.taker_ata_b,
        t.taker_ata_a != t.maker_ata_b,
        t.maker_ata_b != t.taker_ata_b,
    ensures
        ({
            let v = take_result(l, t)->Ok_0;
            let s = l.escrows[escrow_index(l, t.maker, t.seed)];
            &&& v.accounts[t.taker_ata_a as int].amount == l.accounts[t.taker_ata_a as int].amount
                + s.vault
            &&& v.accounts[t.maker_ata_b as int].amount == l.accounts[t.maker_ata_b as int].amount
                + s.record.receive
            &&& v.accounts[t.taker_ata_b as int].amount == l.accounts[t.taker_ata_b as int].amount
                - s.record.receive
            &&& v.wallets[t.maker_wallet as int].lamports == l.wallets[t.maker_wallet as int].lamports
                + s.record_rent + s.vault_rent
            &&& !has_escrow(v, t.maker, t.seed)
        }),
{
    lemma_remove_clears(l, t.maker, t.seed);
}

/// A take fails when the taker's account of the requested asset holds less than
/// the escrow's `receive`.
pub proof fn lemma_take_underfunded(l: LedgerState, t: Take)
    requires
        has_escrow(l, t.maker, t.seed),
        t.taker_ata_b < l.accounts.len(),
        l.accounts[t.taker_ata_b as int].amount < l.escrows[escrow_index(
            l,
            t.maker,
            t.seed,
        )].record.receive,
    ensures
        take_result(l, t) is Err,
{
}

/// After a successful take, neither a take nor a refund of the same escrow succeeds.
pub proof fn lemma_take_closes(l: LedgerState, t: Take, t2: Take, f: Refund)
    requires
        state_wf(l),
        take_result(l, t) is Ok,
        t2.maker == t.maker && t2.seed == t.seed,
        f.maker == t.maker && f.seed == t.seed,
    ensures
        take_result(take_result(l, t)->Ok_0, t2) is Err,
        refund_result(take_result(l, t)->Ok_0, f) is Err,
{
    lemma_remove_clears(l, t.maker, t.seed);
}

/// After a successful refund, neither a take nor a refund of the same escrow succeeds.
pub proof fn lemma_refund_closes(l: LedgerState, f: Refund, t: Take, f2: Refund)
    requires
        state_wf(l),
        refund_result(l, f) is Ok,
        t.maker == f.maker && t.seed == f.seed,
        f2.maker == f.maker && f2.seed == f.seed,
    ensures
        take_result(refund_result(l, f)->Ok_0, t) is Err,
        refund_result(refund_result(l, f)->Ok_0, f2) is Err,
{
    lemma_remove_clears(l, f.maker, f.seed);
}

/// A refund invoked by anyone but the maker fails; where the escrow exists it
/// fails as unauthorized.
pub proof fn lemma_refund_only_maker(l: LedgerState, f: Refund)
    requires
        f.signer != f.maker,
    ensures
        refund_result(l, f) is Err,
        has_escrow(l, f.maker, f.seed) ==> refund_result(l, f) == Err::<
            LedgerState,
            crate::state::EscrowError,
        >(crate::state::EscrowError::Unauthorized),
{
    if has_escrow(l, f.maker, f.seed) {
        let i = escrow_index(l, f.maker, f.seed);
        assert(escrow_matches(l.escrows[i], f.maker, f.seed));
    }
}

} // verus!
