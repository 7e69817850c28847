//! A two-party token-swap escrow. A maker locks an amount of one asset in a
//! vault that only the escrow's derived authority can move and names the amount
//! of another asset it wants in return. A taker who pays that amount receives the
//! whole vault; or the maker cancels and takes the vault back. Either way the
//! record and the vault are closed together and their storage fees go back to
//! the maker. Every operation either applies whole or changes nothing.
//!
//! - `state`: the data model and the helpers that contracts are written in
//! - `ledger`: the host state of mints, token accounts, wallets and open escrows
//! - `make`, `take`, `refund`: the three operations, each with its exact outcome
//! - `laws`: properties that relate the operations to one another
//! - `derive`: the escrow's derived address and signing seeds

pub mod derive;
pub mod laws;
pub mod ledger;
pub mod make;
pub mod refund;
pub mod state;
pub mod take;
