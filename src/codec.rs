use crate::address::{key_bytes, le_bytes, seed_le_bytes, Pubkey};
use crate::error::EscrowError;
use crate::state::{Escrow, ACCOUNT_SPACE};
use vstd::prelude::*;

verus! {

/// The tag that opens a stored escrow record: the first eight bytes of the
/// SHA-256 digest of `account:Escrow`.
pub open spec fn discriminator() -> Seq<u8> {
    seq![31u8, 213u8, 123u8, 187u8, 186u8, 22u8, 218u8, 155u8]
}

/// The two's-complement bits of `x`, as an unsigned number.
pub open spec fn twos(x: i64) -> nat {
    if x >= 0 {
        x as nat
    } else {
        (x as int + 0x1_0000_0000_0000_0000) as nat
    }
}

/// The stored form of a record: the tag, then each field in order, fixed
/// width and little-endian.
pub open spec fn escrow_bytes(e: Escrow) -> Seq<u8> {
    discriminator() + le_bytes(e.seed as nat, 8) + e.maker@ + e.mint_a@ + e.mint_b@ + le_bytes(
        e.receive as nat,
        8,
    ) + le_bytes(twos(e.created_at), 8) + seq![e.bump]
}

/// Why reading a stored record fails, if it does.
pub open spec fn decode_error(data: Seq<u8>) -> Option<EscrowError> {
    if data.len() < 8 {
        Some(EscrowError::AccountDiscriminatorNotFound)
    } else if data.subrange(0, 8) != discriminator() {
        Some(EscrowError::AccountDiscriminatorMismatch)
    } else if data.len() < ACCOUNT_SPACE {
        Some(EscrowError::AccountDidNotDeserialize)
    } else {
        None
    }
}

pub open spec fn pow256(n: nat) -> nat
    decreases n,
{
    if n == 0 {
        1
    } else {
        256 * pow256((n - 1) as nat)
    }
}

proof fn lemma_le_bytes_len(x: nat, n: nat)
    ensures
        le_bytes(x, n).len() == n,
    decreases n,
{
    if n > 0 {
        lemma_le_bytes_len(x / 256, (n - 1) as nat);
    }
}

proof fn lemma_le_bytes_injective(x: nat, y: nat, n: nat)
    requires
        x < pow256(n),
        y < pow256(n),
        le_bytes(x, n) == le_bytes(y, n),
    ensures
        x == y,
    decreases n,
{
    if n == 0 {
    } else {
        let m = (n - 1) as nat;
        lemma_le_bytes_len(x, n);
        lemma_le_bytes_len(y, n);
        lemma_le_bytes_len(x / 256, m);
        lemma_le_bytes_len(y / 256, m);
        assert(le_bytes(x, n)[0] == le_bytes(y, n)[0]);
        assert(le_bytes(x / 256, m) =~= le_bytes(x, n).subrange(1, n as int));
        assert(le_bytes(y / 256, m) =~= le_bytes(y, n).subrange(1, n as int));
        assert(x / 256 < pow256(m)) by (nonlinear_arith)
            requires x < 256 * pow256(m);
        assert(y / 256 < pow256(m)) by (nonlinear_arith)
            requires y < 256 * pow256(m);
        lemma_le_bytes_injective(x / 256, y / 256, m);
        assert(le_bytes(x, n)[0] == (x % 256) as u8);
        assert(le_bytes(y, n)[0] == (y % 256) as u8);
        assert(x % 256 == y % 256);
        assert(x == 256 * (x / 256) + x % 256) by (nonlinear_arith);
        assert(y == 256 * (y / 256) + y % 256) by (nonlinear_arith);
    }
}

proof fn lemma_pow256_8()
    ensures
        pow256(8) == 0x1_0000_0000_0000_0000,
{
    reveal_with_fuel(pow256, 9);
}

/// Reads eight little-endian bytes of `data` at `off`.
fn read_u64(data: &[u8], off: usize) -> (r: u64)
    requires
        off + 8 <= data@.len(),
    ensures
        le_bytes(r as nat, 8) == data@.subrange(off as int, off + 8),
{
    let len = data.len();
    let mut r: u64 = 0;
    let mut i: usize = 8;
    while i > 0
        invariant
            len == data@.len(),
            i <= 8,
            off + 8 <= data@.len(),
            (r as nat) < pow256((8 - i) as nat),
            le_bytes(r as nat, (8 - i) as nat) == data@.subrange(off + i, off + 8),
        decreases i,
    {
        let b = data[off + i - 1];
        proof {
            let k = (8 - i) as nat;
            lemma_pow256_8();
            assert(pow256(k + 1) == 256 * pow256(k));
            assert(pow256(k) <= pow256(7)) by {
                reveal_with_fuel(pow256, 8);
                if k < 7 {
                    assert(pow256(k) <= pow256(6)) by {
                        if k < 6 {
                            assert(k <= 5);
                        }
                    }
                }
            }
            assert((r as nat) * 256 + 255 < 0x1_0000_0000_0000_0000) by (nonlinear_arith)
                requires (r as nat) < pow256(k), pow256(k) <= pow256(7), pow256(7) * 256
                    == 0x1_0000_0000_0000_0000;
        }
        let nr: u64 = r * 256 + b as u64;
        proof {
            let k = (8 - i) as nat;
            assert(nr as nat % 256 == b as nat) by (nonlinear_arith)
                requires nr as nat == (r as nat) * 256 + b as nat, b < 256;
            assert(nr as nat / 256 == r as nat) by (nonlinear_arith)
                requires nr as nat == (r as nat) * 256 + b as nat, b < 256;
            assert((nr as nat) < pow256(k + 1)) by (nonlinear_arith)
                requires nr as nat == (r as nat) * 256 + b as nat, b < 256, (r as nat) < pow256(k),
                    pow256(k + 1) == 256 * pow256(k);
            assert(le_bytes(nr as nat, k + 1) == seq![b] + le_bytes(r as nat, k));
            assert(seq![b] + data@.subrange(off + i, off + 8) =~= data@.subrange(off + i - 1, off + 8));
        }
        r = nr;
        i = i - 1;
    }
    r
}

fn read_key(data: &[u8], off: usize) -> (r: Pubkey)
    requires
        off + 32 <= data@.len(),
    ensures
        r@ == data@.subrange(off as int, off + 32),
{
    let len = data.len();
    let mut bytes: [u8; 32] = [0u8; 32];
    let mut i: usize = 0;
    while i < 32
        invariant
            len == data@.len(),
            i <= 32,
            off + 32 <= data@.len(),
            forall|j: int| 0 <= j < i ==> bytes@[j] == data@[off + j],
        decreases 32 - i,
    {
        bytes[i] = data[off + i];
        i = i + 1;
    }
    let r = Pubkey { bytes };
    proof {
        assert(r@ =~= data@.subrange(off as int, off + 32));
    }
    r
}

fn i64_bits(x: i64) -> (r: u64)
    ensures
        r as nat == twos(x),
{
    if x >= 0 {
        x as u64
    } else {
        ((x + 0x7fff_ffff_ffff_ffff + 1) as u64) + 0x8000_0000_0000_0000
    }
}

fn i64_from_bits(r: u64) -> (x: i64)
    ensures
        twos(x) == r as nat,
{
    if r < 0x8000_0000_0000_0000 {
        r as i64
    } else {
        ((r - 0x8000_0000_0000_0000) as i64) - 0x7fff_ffff_ffff_ffff - 1
    }
}

fn discriminator_bytes() -> (r: Vec<u8>)
    ensures
        r@ == discriminator(),
{
    let r: Vec<u8> = vec![31u8, 213u8, 123u8, 187u8, 186u8, 22u8, 218u8, 155u8];
    proof {
        assert(r@ =~= discriminator());
    }
    r
}

impl Escrow {
    /// The stored form of the record.
    pub fn try_serialize(&self) -> (r: Vec<u8>)
        ensures
            r@ == escrow_bytes(*self),
            r@.len() == ACCOUNT_SPACE,
    {
        let mut r = discriminator_bytes();
        let mut part = seed_le_bytes(self.seed);
        r.append(&mut part);
        let mut part = key_bytes(&self.maker);
        r.append(&mut part);
        let mut part = key_bytes(&self.mint_a);
        r.append(&mut part);
        let mut part = key_bytes(&self.mint_b);
        r.append(&mut part);
        let mut part = seed_le_bytes(self.receive);
        r.append(&mut part);
        let mut part = seed_le_bytes(i64_bits(self.created_at));
        r.append(&mut part);
        r.push(self.bump);
        proof {
            lemma_le_bytes_len(self.seed as nat, 8);
            lemma_le_bytes_len(self.receive as nat, 8);
            lemma_le_bytes_len(twos(self.created_at), 8);
            assert(r@ =~= escrow_bytes(*self));
        }
        r
    }

    /// Reads a stored record: its tag must match, and bytes after the
    /// record's own are ignored.
    pub fn try_deserialize(data: &[u8]) -> (r: Result<Escrow, EscrowError>)
        ensures
            match decode_error(data@) {
                Some(e) => r == Err::<Escrow, EscrowError>(e),
                None => r matches Ok(x) && escrow_bytes(x) == data@.subrange(0, ACCOUNT_SPACE as int),
            },
    {
        if data.len() < 8 {
            return Err(EscrowError::AccountDiscriminatorNotFound);
        }
        let disc = discriminator_bytes();
        let mut i: usize = 0;
        while i < 8
            invariant
                i <= 8,
                data@.len() >= 8,
                disc@ == discriminator(),
                forall|j: int| 0 <= j < i ==> data@[j] == disc@[j],
            decreases 8 - i,
        {
            if data[i] != disc[i] {
                proof {
                    assert(data@.subrange(0, 8)[i as int] != discriminator()[i as int]);
                }
                return Err(EscrowError::AccountDiscriminatorMismatch);
            }
            i = i + 1;
        }
        proof {
            assert(data@.subrange(0, 8) =~= discriminator());
        }
        if data.len() < ACCOUNT_SPACE {
            return Err(EscrowError::AccountDidNotDeserialize);
        }
        let seed = read_u64(data, 8);
        let maker = read_key(data, 16);
        let mint_a = read_key(data, 48);
        let mint_b = read_key(data, 80);
        let receive = read_u64(data, 112);
        let created_bits = read_u64(data, 120);
        let bump = data[128];
        let x = Escrow { seed, maker, mint_a, mint_b, receive, created_at: i64_from_bits(created_bits), bump };
        proof {
            assert(escrow_bytes(x) =~= data@.subrange(0, ACCOUNT_SPACE as int));
        }
        Ok(x)
    }
}

/// Reading back a stored record gives the record itself.
pub proof fn lemma_record_round_trip(e: Escrow, x: Escrow)
    requires
        escrow_bytes(x) == escrow_bytes(e),
    ensures
        x == e,
{
    let s = escrow_bytes(e);
    let t = escrow_bytes(x);
    lemma_le_bytes_len(e.seed as nat, 8);
    lemma_le_bytes_len(e.receive as nat, 8);
    lemma_le_bytes_len(twos(e.created_at), 8);
    lemma_le_bytes_len(x.seed as nat, 8);
    lemma_le_bytes_len(x.receive as nat, 8);
    lemma_le_bytes_len(twos(x.created_at), 8);
    lemma_pow256_8();
    assert(le_bytes(x.seed as nat, 8) =~= t.subrange(8, 16));
    assert(le_bytes(e.seed as nat, 8) =~= s.subrange(8, 16));
    lemma_le_bytes_injective(x.seed as nat, e.seed as nat, 8);
    assert(x.maker@ =~= t.subrange(16, 48));
    assert(e.maker@ =~= s.subrange(16, 48));
    assert(x.maker.bytes =~= e.maker.bytes);
    assert(x.mint_a@ =~= t.subrange(48, 80));
    assert(e.mint_a@ =~= s.subrange(48, 80));
    assert(x.mint_a.bytes =~= e.mint_a.bytes);
    assert(x.mint_b@ =~= t.subrange(80, 112));
    assert(e.mint_b@ =~= s.subrange(80, 112));
    assert(x.mint_b.bytes =~= e.mint_b.bytes);
    assert(le_bytes(x.receive as nat, 8) =~= t.subrange(112, 120));
    assert(le_bytes(e.receive as nat, 8) =~= s.subrange(112, 120));
    lemma_le_bytes_injective(x.receive as nat, e.receive as nat, 8);
    assert(le_bytes(twos(x.created_at), 8) =~= t.subrange(120, 128));
    assert(le_bytes(twos(e.created_at), 8) =~= s.subrange(120, 128));
    lemma_le_bytes_injective(twos(x.created_at), twos(e.created_at), 8);
    assert(t[128] == x.bump && s[128] == e.bump);
}

/// Storing a record and reading it back gives the same record.
pub proof fn serialize_then_deserialize(e: Escrow, data: Seq<u8>, x: Escrow)
    requires
        data == escrow_bytes(e),
        escrow_bytes(x) == data.subrange(0, ACCOUNT_SPACE as int),
    ensures
        x == e,
{
    lemma_le_bytes_len(e.seed as nat, 8);
    lemma_le_bytes_len(e.receive as nat, 8);
    lemma_le_bytes_len(twos(e.created_at), 8);
    assert(data.subrange(0, ACCOUNT_SPACE as int) =~= data);
    lemma_record_round_trip(e, x);
}

} // verus!
