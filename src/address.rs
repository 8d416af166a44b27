use vstd::prelude::*;

verus! {

/// A 32-byte account address.
#[derive(Clone, Copy, Debug)]
pub struct Pubkey {
    pub bytes: [u8; 32],
}

impl View for Pubkey {
    type V = Seq<u8>;

    open spec fn view(&self) -> Seq<u8> {
        self.bytes@
    }
}

impl Pubkey {
    pub fn new_from_array(bytes: [u8; 32]) -> (r: Pubkey)
        ensures
            r.bytes == bytes,
    {
        Pubkey { bytes }
    }

    pub fn to_bytes(&self) -> (r: [u8; 32])
        ensures
            r == self.bytes,
    {
        self.bytes
    }

    /// Compares two addresses byte by byte.
    pub fn key_eq(&self, other: &Pubkey) -> (r: bool)
        ensures
            r == (*self == *other),
            r == (self@ == other@),
    {
        let mut i: usize = 0;
        while i < 32
            invariant
                i <= 32,
                forall|j: int| 0 <= j < i ==> self.bytes[j] == other.bytes[j],
            decreases 32 - i,
        {
            if self.bytes[i] != other.bytes[i] {
                proof {
                    assert(self@[i as int] != other@[i as int]);
                }
                return false;
            }
            i = i + 1;
        }
        proof {
            assert(self.bytes =~= other.bytes);
        }
        true
    }
}

/// The address that the program-address derivation gives for these seeds
/// under this program, or `None` where the seeds are refused or the hash
/// falls on the curve.
pub uninterp spec fn created_program_address(seeds: Seq<Seq<u8>>, program_id: Seq<u8>) -> Option<Seq<u8>>;

/// The address and bump that the search over bump seeds finds for these seeds
/// under this program, or `None` where it finds none.
pub uninterp spec fn found_program_address(seeds: Seq<Seq<u8>>, program_id: Seq<u8>) -> Option<(Seq<u8>, u8)>;

/// Whether the address is a point of the ed25519 curve, that is, whether a
/// private key can stand behind it.
pub uninterp spec fn on_curve(k: Seq<u8>) -> bool;

/// Relies on `Pubkey::is_on_curve` (solana-address, re-exported by
/// anchor_lang): the answer depends on the bytes alone.
#[verifier::external_body]
pub(crate) fn is_on_curve(k: &Pubkey) -> (r: bool)
    ensures
        r == on_curve(k@),
{
    anchor_lang::prelude::Pubkey::new_from_array(k.bytes).is_on_curve()
}

/// Relies on `Pubkey::create_program_address` (solana-address, re-exported by
/// anchor_lang): the derived address is a function of the seeds and the
/// program id alone, and it is never on the curve (a hash on the curve is
/// refused).
#[verifier::external_body]
fn create_program_address(seeds: &Vec<Vec<u8>>, program_id: &Pubkey) -> (r: Option<Pubkey>)
    ensures
        match r {
            Some(a) => created_program_address(seeds.deep_view(), program_id@) == Some(a@) && !on_curve(
                a@,
            ),
            None => created_program_address(seeds.deep_view(), program_id@) is None,
        },
{
    let s: Vec<&[u8]> = seeds.iter().map(|v| v.as_slice()).collect();
    let pid = anchor_lang::prelude::Pubkey::new_from_array(program_id.bytes);
    anchor_lang::prelude::Pubkey::create_program_address(&s, &pid).ok().map(
        |a| Pubkey { bytes: a.to_bytes() },
    )
}

/// Relies on `Pubkey::try_find_program_address` (solana-address, re-exported
/// by anchor_lang): the result is a function of the seeds and the program id,
/// and it tries the bumps from 255 down to 1, returning the first for which
/// `create_program_address` on the seeds followed by the one-byte bump seed
/// gives an address (never on the curve), or `None` where none does.
#[verifier::external_body]
fn try_find_program_address(seeds: &Vec<Vec<u8>>, program_id: &Pubkey) -> (r: Option<(Pubkey, u8)>)
    ensures
        match r {
            Some((a, b)) => found_program_address(seeds.deep_view(), program_id@) == Some((a@, b))
                && created_program_address(seeds.deep_view().push(seq![b]), program_id@) == Some(a@)
                && !on_curve(a@) && 1 <= b && forall|c: u8|
                b < c ==> #[trigger] created_program_address(seeds.deep_view().push(seq![c]), program_id@) is None,
            None => found_program_address(seeds.deep_view(), program_id@) is None && forall|c: u8|
                1 <= c ==> #[trigger] created_program_address(seeds.deep_view().push(seq![c]), program_id@) is None,
        },
{
    let s: Vec<&[u8]> = seeds.iter().map(|v| v.as_slice()).collect();
    let pid = anchor_lang::prelude::Pubkey::new_from_array(program_id.bytes);
    anchor_lang::prelude::Pubkey::try_find_program_address(&s, &pid).map(
        |(a, b)| (Pubkey { bytes: a.to_bytes() }, b),
    )
}

/// The first `n` little-endian bytes of `x`.
pub open spec fn le_bytes(x: nat, n: nat) -> Seq<u8>
    decreases n,
{
    if n == 0 {
        seq![]
    } else {
        seq![(x % 256) as u8] + le_bytes(x / 256, (n - 1) as nat)
    }
}

/// The domain tag that opens the seeds of every escrow address: `b"escrow"`.
pub open spec fn escrow_tag() -> Seq<u8> {
    seq![101u8, 115u8, 99u8, 114u8, 111u8, 119u8]
}

/// The seeds of the escrow record of `maker` under `seed`: the tag, the
/// maker's address and the seed's little-endian bytes.
pub open spec fn escrow_seeds_spec(maker: Seq<u8>, seed: u64) -> Seq<Seq<u8>> {
    seq![escrow_tag(), maker, le_bytes(seed as nat, 8)]
}

/// The escrow seeds followed by the one-byte bump seed, as presented to sign
/// for the escrow address.
pub open spec fn escrow_signer_seeds_spec(maker: Seq<u8>, seed: u64, bump: u8) -> Seq<Seq<u8>> {
    escrow_seeds_spec(maker, seed).push(seq![bump])
}

pub fn seed_le_bytes(seed: u64) -> (r: Vec<u8>)
    ensures
        r@ == le_bytes(seed as nat, 8),
{
    let mut r: Vec<u8> = Vec::new();
    let mut x: u64 = seed;
    let mut i: usize = 0;
    while i < 8
        invariant
            i <= 8,
            r@ + le_bytes(x as nat, (8 - i) as nat) == le_bytes(seed as nat, 8),
        decreases 8 - i,
    {
        let ghost r0 = r@;
        let b: u8 = (x % 256) as u8;
        proof {
            assert(le_bytes(x as nat, (8 - i) as nat) == seq![b] + le_bytes(
                (x / 256) as nat,
                (8 - i - 1) as nat,
            ));
        }
        r.push(b);
        x = x / 256;
        i = i + 1;
        proof {
            assert(r0 + (seq![b] + le_bytes(x as nat, (8 - i) as nat)) =~= r@ + le_bytes(
                x as nat,
                (8 - i) as nat,
            ));
        }
    }
    proof {
        assert(r@ + le_bytes(x as nat, 0) =~= r@);
    }
    r
}

fn escrow_tag_bytes() -> (r: Vec<u8>)
    ensures
        r@ == escrow_tag(),
{
    let r: Vec<u8> = vec![101u8, 115u8, 99u8, 114u8, 111u8, 119u8];
    proof {
        assert(r@ =~= escrow_tag());
    }
    r
}

pub fn key_bytes(k: &Pubkey) -> (r: Vec<u8>)
    ensures
        r@ == k@,
{
    let mut r: Vec<u8> = Vec::new();
    let mut i: usize = 0;
    while i < 32
        invariant
            i <= 32,
            r@ == k@.subrange(0, i as int),
        decreases 32 - i,
    {
        r.push(k.bytes[i]);
        i = i + 1;
        proof {
            assert(r@ =~= k@.subrange(0, i as int));
        }
    }
    proof {
        assert(r@ =~= k@);
    }
    r
}

proof fn lemma_bytes_deep_view(v: Vec<u8>)
    ensures
        v.deep_view() == v@,
{
    assert(v.deep_view() =~= v@);
}

/// The seeds from which the escrow address of `maker` under `seed` is derived.
pub fn escrow_seeds(maker: &Pubkey, seed: u64) -> (r: Vec<Vec<u8>>)
    ensures
        r.deep_view() == escrow_seeds_spec(maker@, seed),
{
    let tag = escrow_tag_bytes();
    let key = key_bytes(maker);
    let le = seed_le_bytes(seed);
    proof {
        lemma_bytes_deep_view(tag);
        lemma_bytes_deep_view(key);
        lemma_bytes_deep_view(le);
    }
    let r: Vec<Vec<u8>> = vec![tag, key, le];
    proof {
        assert(r.deep_view() =~= escrow_seeds_spec(maker@, seed));
    }
    r
}

/// The escrow seeds followed by the bump seed.
pub fn escrow_signer_seeds(maker: &Pubkey, seed: u64, bump: u8) -> (r: Vec<Vec<u8>>)
    ensures
        r.deep_view() == escrow_signer_seeds_spec(maker@, seed, bump),
{
    let mut r = escrow_seeds(maker, seed);
    let b: Vec<u8> = vec![bump];
    proof {
        lemma_bytes_deep_view(b);
        assert(b@ =~= seq![bump]);
    }
    r.push(b);
    proof {
        assert(r.deep_view() =~= escrow_signer_seeds_spec(maker@, seed, bump));
    }
    r
}

/// Searches the escrow address of `maker` under `seed` and its bump.
pub fn find_escrow_address(maker: &Pubkey, seed: u64, program_id: &Pubkey) -> (r: Option<(Pubkey, u8)>)
    ensures
        match r {
            Some((a, b)) => found_program_address(escrow_seeds_spec(maker@, seed), program_id@)
                == Some((a@, b)) && created_program_address(
                escrow_signer_seeds_spec(maker@, seed, b),
                program_id@,
            ) == Some(a@) && !on_curve(a@) && 1 <= b && forall|c: u8|
                b < c ==> #[trigger] created_program_address(
                    escrow_signer_seeds_spec(maker@, seed, c),
                    program_id@,
                ) is None,
            None => found_program_address(escrow_seeds_spec(maker@, seed), program_id@) is None,
        },
{
    let seeds = escrow_seeds(maker, seed);
    let r = try_find_program_address(&seeds, program_id);
    proof {
        assert forall|c: u8| escrow_signer_seeds_spec(maker@, seed, c) == seeds.deep_view().push(seq![c]) by {}
    }
    r
}

/// The address that the escrow's signer seeds stand for, if they stand for one.
pub fn escrow_signer(maker: &Pubkey, seed: u64, bump: u8, program_id: &Pubkey) -> (r: Option<Pubkey>)
    ensures
        match r {
            Some(a) => created_program_address(escrow_signer_seeds_spec(maker@, seed, bump), program_id@)
                == Some(a@) && !on_curve(a@),
            None => created_program_address(escrow_signer_seeds_spec(maker@, seed, bump), program_id@) is None,
        },
{
    let seeds = escrow_signer_seeds(maker, seed, bump);
    create_program_address(&seeds, program_id)
}

/// Checks that `address` is the escrow address of `maker` under `seed`, signed
/// for with `bump`: the stored seeds are the only credential of the vault.
pub fn verify_escrow_address(maker: &Pubkey, seed: u64, bump: u8, program_id: &Pubkey, address: &Pubkey) -> (r: bool)
    ensures
        r == (created_program_address(escrow_signer_seeds_spec(maker@, seed, bump), program_id@)
            == Some(address@)),
{
    match escrow_signer(maker, seed, bump, program_id) {
        Some(a) => a.key_eq(address),
        None => false,
    }
}

} // verus!
