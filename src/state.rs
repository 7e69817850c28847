use vstd::prelude::*;

verus! {

/// Why an escrow operation was rejected. Every rejection leaves the ledger unchanged.
#[derive(Clone, Copy, Debug, PartialEq, Eq, Structural)]
pub enum EscrowError {
    /// No open escrow is derived from the given `(maker, seed)`.
    EscrowNotFound,
    /// An open escrow is already derived from the given `(maker, seed)`.
    EscrowExists,
    /// An account index is out of range, or an account has the wrong holder or asset.
    InvalidAccount,
    /// A mint passed in is not the one that the escrow record names.
    MintMismatch,
    /// The signer is not the maker stored in the escrow record.
    Unauthorized,
    /// The source token account holds less than the amount to move.
    InsufficientFunds,
    /// The maker cannot pay the storage cost of the record and the vault.
    InsufficientLamports,
    /// The declared decimals differ from the mint's registered decimals.
    DecimalsMismatch,
    /// A balance would leave the range of `u64`.
    Overflow,
}

/// A registered asset and its decimal precision.
#[derive(Clone, Copy, Debug, PartialEq, Eq, Structural)]
pub struct Mint {
    pub key: u64,
    pub decimals: u8,
}

/// A token account: `amount` units of the asset `mint`, controlled by `owner`.
#[derive(Clone, Copy, Debug, PartialEq, Eq, Structural)]
pub struct TokenAccount {
    pub owner: u64,
    pub mint: u64,
    pub amount: u64,
}

/// A system account holding lamports, the currency of storage costs.
#[derive(Clone, Copy, Debug, PartialEq, Eq, Structural)]
pub struct Wallet {
    pub key: u64,
    pub lamports: u64,
}

/// The persistent descriptor of one open trade offer.
#[derive(Clone, Copy, Debug, PartialEq, Eq, Structural)]
pub struct Escrow {
    pub seed: u64,
    pub maker: u64,
    pub mint_a: u64,
    pub mint_b: u64,
    pub receive: u64,
    pub bump: u8,
}

/// The signing capability of an escrow: it exists only as the derivation
/// `(maker, seed, bump)` of the escrow's own address, never as a private key.
#[derive(Clone, Copy, Debug, PartialEq, Eq, Structural)]
pub struct EscrowAuthority {
    pub maker: u64,
    pub seed: u64,
    pub bump: u8,
}

/// One open escrow: its record together with its vault. The two are created
/// and destroyed together, so they are held as one unit.
#[derive(Clone, Copy, Debug, PartialEq, Eq, Structural)]
pub struct Slot {
    pub record: Escrow,
    /// Units of `record.mint_a` held by the vault.
    pub vault: u64,
    /// Storage cost paid by the maker for the record.
    pub record_rent: u64,
    /// Storage cost paid by the maker for the vault.
    pub vault_rent: u64,
}

/// The whole state seen by the escrow operations, as plain sequences.
pub struct LedgerState {
    pub mints: Seq<Mint>,
    pub accounts: Seq<TokenAccount>,
    pub wallets: Seq<Wallet>,
    pub escrows: Seq<Slot>,
    pub record_rent: u64,
    pub vault_rent: u64,
}

pub open spec fn escrow_matches(s: Slot, maker: u64, seed: u64) -> bool {
    s.record.maker == maker && s.record.seed == seed
}

/// An open escrow is derived from `(maker, seed)`.
pub open spec fn has_escrow(l: LedgerState, maker: u64, seed: u64) -> bool {
    exists|i: int| 0 <= i < l.escrows.len() && #[trigger] escrow_matches(l.escrows[i], maker, seed)
}

/// The position of the open escrow derived from `(maker, seed)`.
pub open spec fn escrow_index(l: LedgerState, maker: u64, seed: u64) -> int {
    choose|i: int| 0 <= i < l.escrows.len() && #[trigger] escrow_matches(l.escrows[i], maker, seed)
}

/// At most one open escrow is derived from each `(maker, seed)`.
pub open spec fn keys_unique(escrows: Seq<Slot>) -> bool {
    forall|i: int, j: int|
        0 <= i < escrows.len() && 0 <= j < escrows.len() && #[trigger] escrow_matches(
            escrows[i],
            escrows[j].record.maker,
            escrows[j].record.seed,
        ) ==> i == j
}

pub open spec fn state_wf(l: LedgerState) -> bool {
    keys_unique(l.escrows)
}

pub open spec fn with_amount(t: TokenAccount, amount: int) -> TokenAccount {
    TokenAccount { owner: t.owner, mint: t.mint, amount: amount as u64 }
}

/// `x` units added to the account at `i`.
pub open spec fn credit(a: Seq<TokenAccount>, i: int, x: int) -> Seq<TokenAccount> {
    a.update(i, with_amount(a[i], a[i].amount + x))
}

/// `x` units taken from the account at `i`.
pub open spec fn debit(a: Seq<TokenAccount>, i: int, x: int) -> Seq<TokenAccount> {
    a.update(i, with_amount(a[i], a[i].amount - x))
}

/// `x` lamports added to the wallet at `i`.
pub open spec fn pay(w: Seq<Wallet>, i: int, x: int) -> Seq<Wallet> {
    w.update(i, Wallet { key: w[i].key, lamports: (w[i].lamports + x) as u64 })
}

/// The account at `i` is held by `owner` and holds the asset `mint`.
pub open spec fn account_is(a: Seq<TokenAccount>, i: int, owner: u64, mint: u64) -> bool {
    a[i].owner == owner && a[i].mint == mint
}

} // verus!
