use vstd::prelude::*;

use anchor_lang::prelude::Pubkey;

verus! {

/// The address that the runtime derives from `seeds` for the program `program`,
/// or `None` where the hash of the seeds lies on the curve and so is no valid
/// derived address.
pub uninterp spec fn program_address_of(seeds: Seq<Seq<u8>>, program: Seq<u8>) -> Option<Seq<u8>>;

/// The most seeds that a derivation takes.
pub const MAX_SEEDS: usize = 16;

/// The longest seed that a derivation takes.
pub const MAX_SEED_LEN: usize = 32;

pub open spec fn seeds_in_bounds(seeds: Seq<Seq<u8>>) -> bool {
    seeds.len() <= MAX_SEEDS && forall|i: int| 0 <= i < seeds.len() ==> #[trigger] seeds[i].len()
        <= MAX_SEED_LEN
}

pub open spec fn bytes_view(r: Option<[u8; 32]>) -> Option<Seq<u8>> {
    match r {
        Some(a) => Some(a@),
        None => None,
    }
}

/// Relies on Pubkey::create_program_address: for seeds within its bounds it fails
/// only where the hash of seeds and program id lies on the curve, and otherwise
/// returns that hash; either way the outcome depends on its arguments alone.
#[verifier::external_body]
fn create_program_address(seeds: &Vec<Vec<u8>>, program: &[u8; 32]) -> (r: Option<[u8; 32]>)
    requires
        seeds_in_bounds(seeds.deep_view()),
    ensures
        bytes_view(r) == program_address_of(seeds.deep_view(), program@),
{
    let s: Vec<&[u8]> = seeds.iter().map(|v| v.as_slice()).collect();
    Pubkey::create_program_address(&s, &Pubkey::new_from_array(*program)).ok().map(|k| k.to_bytes())
}

/// Relies on Pubkey::try_find_program_address: it tries the bumps from 255 down
/// to 1, each appended to `seeds` as a one-byte seed, and returns the first one
/// whose derivation succeeds with its address, or `None` if none does.
#[verifier::external_body]
fn try_find_program_address(seeds: &Vec<Vec<u8>>, program: &[u8; 32]) -> (r: Option<([u8; 32], u8)>)
    requires
        seeds.deep_view().len() < MAX_SEEDS,
        seeds_in_bounds(seeds.deep_view()),
    ensures
        match r {
            Some((a, b)) => {
                &&& 1 <= b
                &&& program_address_of(seeds.deep_view().push(seq![b]), program@) == Some(a@)
                &&& forall|c: u8|
                    b < c ==> #[trigger] program_address_of(seeds.deep_view().push(seq![c]), program@)
                        is None
            },
            None => forall|c: u8|
                1 <= c ==> #[trigger] program_address_of(seeds.deep_view().push(seq![c]), program@)
                    is None,
        },
{
    let s: Vec<&[u8]> = seeds.iter().map(|v| v.as_slice()).collect();
    Pubkey::try_find_program_address(&s, &Pubkey::new_from_array(*program)).map(
        |(k, b)| (k.to_bytes(), b),
    )
}

/// The domain tag that starts every escrow derivation.
pub open spec fn escrow_tag() -> Seq<u8> {
    seq![101u8, 115u8, 99u8, 114u8, 111u8, 119u8]
}

/// The first `n` little-endian bytes of `x`.
pub open spec fn le_bytes(x: nat, n: nat) -> Seq<u8>
    decreases n,
{
    if n == 0 {
        Seq::empty()
    } else {
        seq![(x % 256) as u8] + le_bytes(x / 256, (n - 1) as nat)
    }
}

proof fn lemma_le_bytes_len(x: nat, n: nat)
    ensures
        le_bytes(x, n).len() == n,
    decreases n,
{
    if n > 0 {
        lemma_le_bytes_len(x / 256, (n - 1) as nat);
    }
}

/// The seeds of the escrow of `(maker, seed)` without the bump:
/// the domain tag, the maker, and the seed in little-endian order.
pub open spec fn escrow_base_seeds(maker: Seq<u8>, seed: u64) -> Seq<Seq<u8>> {
    seq![escrow_tag(), maker, le_bytes(seed as nat, 8)]
}

/// The full signing seeds of the escrow of `(maker, seed)` with its bump.
pub open spec fn escrow_seeds(maker: Seq<u8>, seed: u64, bump: u8) -> Seq<Seq<u8>> {
    escrow_base_seeds(maker, seed).push(seq![bump])
}

/// The eight little-endian bytes of `seed`.
pub fn seed_bytes(seed: u64) -> (r: Vec<u8>)
    ensures
        r@ == le_bytes(seed as nat, 8),
{
    let mut out: Vec<u8> = Vec::new();
    let mut v: u64 = seed;
    let mut i: usize = 0;
    while i < 8
        invariant
            i <= 8,
            out@ + le_bytes(v as nat, (8 - i) as nat) == le_bytes(seed as nat, 8),
        decreases 8 - i,
    {
        proof {
            assert(le_bytes(v as nat, (8 - i) as nat) == seq![(v % 256) as u8] + le_bytes(
                (v / 256) as nat,
                (8 - i - 1) as nat,
            ));
            assert(out@.push((v % 256) as u8) + le_bytes((v / 256) as nat, (8 - i - 1) as nat)
                =~= out@ + le_bytes(v as nat, (8 - i) as nat));
        }
        out.push((v % 256) as u8);
        v = v / 256;
        i = i + 1;
    }
    proof {
        assert(out@ + le_bytes(v as nat, 0) =~= out@);
    }
    out
}

fn key_bytes(key: &[u8; 32]) -> (r: Vec<u8>)
    ensures
        r@ == key@,
{
    let mut out: Vec<u8> = Vec::new();
    let mut i: usize = 0;
    while i < 32
        invariant
            i <= 32,
            key@.len() == 32,
            out@ == key@.subrange(0, i as int),
        decreases 32 - i,
    {
        out.push(key[i]);
        i = i + 1;
        proof {
            assert(out@ =~= key@.subrange(0, i as int));
        }
    }
    proof {
        assert(key@.subrange(0, 32) =~= key@);
    }
    out
}

/// The seeds of the escrow of `(maker, seed)` without the bump.
pub fn escrow_base_signer_seeds(maker: &[u8; 32], seed: u64) -> (r: Vec<Vec<u8>>)
    ensures
        r.deep_view() == escrow_base_seeds(maker@, seed),
        seeds_in_bounds(r.deep_view()),
        r.deep_view().len() == 3,
{
    let tag: Vec<u8> = vec![101u8, 115u8, 99u8, 114u8, 111u8, 119u8];
    let key = key_bytes(maker);
    let le = seed_bytes(seed);
    let mut r: Vec<Vec<u8>> = Vec::new();
    r.push(tag);
    r.push(key);
    r.push(le);
    proof {
        let d = r.deep_view();
        assert(d[0] =~= escrow_tag());
        assert(d[1] =~= maker@);
        assert(d[2] =~= le_bytes(seed as nat, 8));
        assert(d =~= escrow_base_seeds(maker@, seed));
        assert(le_bytes(seed as nat, 8).len() == 8) by {
            lemma_le_bytes_len(seed as nat, 8);
        }
    }
    r
}

/// The seeds with which the escrow of `(maker, seed)` signs for its vault:
/// the domain tag, the maker, the seed in little-endian order, and the bump.
pub fn escrow_signer_seeds(maker: &[u8; 32], seed: u64, bump: u8) -> (r: Vec<Vec<u8>>)
    ensures
        r.deep_view() == escrow_seeds(maker@, seed, bump),
        seeds_in_bounds(r.deep_view()),
{
    let mut r = escrow_base_signer_seeds(maker, seed);
    let ghost base = r.deep_view();
    let b: Vec<u8> = vec![bump];
    r.push(b);
    proof {
        let d = r.deep_view();
        assert(d[3] =~= seq![bump]);
        assert forall|i: int| 0 <= i < 3 implies d[i] == base[i] by {
            assert(d[i] =~= base[i]);
        }
        assert(d =~= escrow_seeds(maker@, seed, bump));
    }
    r
}

/// The address of the escrow of `(maker, seed)` under `program` with the given
/// bump, or `None` where that bump gives no valid address.
pub fn escrow_address(program: &[u8; 32], maker: &[u8; 32], seed: u64, bump: u8) -> (r: Option<
    [u8; 32],
>)
    ensures
        bytes_view(r) == program_address_of(escrow_seeds(maker@, seed, bump), program@),
{
    let seeds = escrow_signer_seeds(maker, seed, bump);
    create_program_address(&seeds, program)
}

/// The canonical address and bump of the escrow of `(maker, seed)`: the highest
/// bump that gives a valid address, or `None` if no bump from 255 down to 1 does.
pub fn find_escrow_address(program: &[u8; 32], maker: &[u8; 32], seed: u64) -> (r: Option<
    ([u8; 32], u8),
>)
    ensures
        match r {
            Some((a, b)) => {
                &&& 1 <= b
                &&& program_address_of(escrow_seeds(maker@, seed, b), program@) == Some(a@)
                &&& forall|c: u8|
                    b < c ==> #[trigger] program_address_of(escrow_seeds(maker@, seed, c), program@)
                        is None
            },
            None => forall|c: u8|
                1 <= c ==> #[trigger] program_address_of(escrow_seeds(maker@, seed, c), program@)
                    is None,
        },
{
    let seeds = escrow_base_signer_seeds(maker, seed);
    try_find_program_address(&seeds, program)
}

/// Whether `address` is the escrow address derived from `(maker, seed)` with the
/// stored `bump`: the check that an operation makes before it trusts an escrow.
pub fn is_escrow_address(
    program: &[u8; 32],
    maker: &[u8; 32],
    seed: u64,
    bump: u8,
    address: &[u8; 32],
) -> (r: bool)
    ensures
        r == (program_address_of(escrow_seeds(maker@, seed, bump), program@) == Some(address@)),
{
    match escrow_address(program, maker, seed, bump) {
        Some(a) => same_bytes(&a, address),
        None => false,
    }
}

fn same_bytes(a: &[u8; 32], b: &[u8; 32]) -> (r: bool)
    ensures
        r == (a@ == b@),
{
    let mut i: usize = 0;
    while i < 32
        invariant
            i <= 32,
            a@.len() == 32,
            b@.len() == 32,
            forall|k: int| 0 <= k < i ==> a@[k] == b@[k],
        decreases 32 - i,
    {
        if a[i] != b[i] {
            return false;
        }
        i = i + 1;
    }
    proof {
        assert(a@ =~= b@);
    }
    true
}

} // verus!
