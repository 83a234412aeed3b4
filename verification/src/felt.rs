use vstd::arithmetic::div_mod::*;
use vstd::prelude::*;

verus! {

/// The prime of the Starknet field, `2^251 + 17 * 2^192 + 1`.
pub open spec fn felt_prime() -> nat {
    0x800000000000011000000000000000000000000000000000000000000000001nat
}

/// `256^n`: the weight of a byte that has `n` bytes after it in a big-endian number.
pub open spec fn byte_shift(n: nat) -> nat
    decreases n,
{
    if n == 0 {
        1
    } else {
        256 * byte_shift((n - 1) as nat)
    }
}

/// The number that a sequence of bytes spells in big-endian order.
pub open spec fn be_value(bytes: Seq<u8>) -> nat
    decreases bytes.len(),
{
    if bytes.len() == 0 {
        0
    } else {
        be_value(bytes.drop_last()) * 256 + bytes.last() as nat
    }
}

/// The eight big-endian bytes of a `u64`.
pub open spec fn be8(v: u64) -> Seq<u8> {
    Seq::new(8, |i: int| ((v as nat / byte_shift((7 - i) as nat)) % 256) as u8)
}

/// The number held by four little-endian 64-bit limbs.
pub open spec fn limbs_value(limbs: [u64; 4]) -> nat {
    limbs[0] as nat + limbs[1] as nat * 0x1_0000_0000_0000_0000nat + limbs[2] as nat
        * 0x1_0000_0000_0000_0000_0000_0000_0000_0000nat + limbs[3] as nat
        * 0x1_0000_0000_0000_0000_0000_0000_0000_0000_0000_0000_0000_0000nat
}

pub proof fn lemma_byte_shift_values()
    ensures
        byte_shift(0) == 1,
        byte_shift(7) == 0x100_0000_0000_0000nat,
        byte_shift(8) == 0x1_0000_0000_0000_0000nat,
        byte_shift(16) == 0x1_0000_0000_0000_0000_0000_0000_0000_0000nat,
        byte_shift(24) == 0x1_0000_0000_0000_0000_0000_0000_0000_0000_0000_0000_0000_0000nat,
{
    reveal_with_fuel(byte_shift, 25);
}

pub proof fn lemma_byte_shift_positive(n: nat)
    ensures
        byte_shift(n) > 0,
    decreases n,
{
    if n > 0 {
        lemma_byte_shift_positive((n - 1) as nat);
    }
}

pub proof fn lemma_byte_shift_monotone(m: nat, n: nat)
    requires
        m <= n,
    ensures
        byte_shift(m) <= byte_shift(n),
    decreases n,
{
    if m < n {
        lemma_byte_shift_monotone(m, (n - 1) as nat);
        lemma_byte_shift_positive((n - 1) as nat);
    }
}

/// A big-endian number of `n` bytes stays below `256^n`.
pub proof fn lemma_be_value_bound(s: Seq<u8>)
    ensures
        be_value(s) < byte_shift(s.len()),
    decreases s.len(),
{
    if s.len() > 0 {
        lemma_be_value_bound(s.drop_last());
        let x = be_value(s.drop_last());
        let p = byte_shift(s.drop_last().len());
        assert(x * 256 + 255 < 256 * p) by (nonlinear_arith)
            requires
                x < p,
        ;
    }
}

/// Splitting a big-endian number into a high part and a low part.
pub proof fn lemma_be_value_append(a: Seq<u8>, b: Seq<u8>)
    ensures
        be_value(a + b) == be_value(a) * byte_shift(b.len()) + be_value(b),
    decreases b.len(),
{
    if b.len() == 0 {
        assert(a + b =~= a);
        assert(byte_shift(0) == 1);
    } else {
        let bl = b.drop_last();
        assert((a + b).drop_last() =~= a + bl);
        assert((a + b).last() == b.last());
        lemma_be_value_append(a, bl);
        let x = be_value(a);
        let p = byte_shift(bl.len());
        let y = be_value(bl);
        assert(be_value(a + b) == be_value(a + bl) * 256 + b.last() as nat);
        assert(be_value(b) == y * 256 + b.last() as nat);
        assert(byte_shift(b.len()) == 256 * p);
        assert((x * p + y) * 256 == x * (256 * p) + y * 256) by (nonlinear_arith);
    }
}

proof fn lemma_be8_prefix(v: u64, k: nat)
    requires
        k <= 8,
    ensures
        be_value(be8(v).take(k as int)) == v as nat / byte_shift((8 - k) as nat),
    decreases k,
{
    lemma_byte_shift_positive((8 - k) as nat);
    if k == 0 {
        assert(be8(v).take(0) =~= Seq::<u8>::empty());
        lemma_be_value_bound(be8(v));
        lemma_byte_shift_values();
        assert(v as nat / byte_shift(8) == 0) by {
            lemma_basic_div(v as int, byte_shift(8) as int);
        }
    } else {
        let km = (k - 1) as nat;
        lemma_be8_prefix(v, km);
        assert(be8(v).take(k as int).drop_last() =~= be8(v).take(km as int));
        let q = byte_shift((8 - k) as nat);
        lemma_byte_shift_positive((8 - k) as nat);
        assert(byte_shift((8 - km) as nat) == 256 * q);
        let y = v as nat / q;
        assert(v as nat / (q * 256) == y / 256) by {
            lemma_div_denominator(v as int, q as int, 256);
        }
        assert(y == (y / 256) * 256 + y % 256) by {
            lemma_fundamental_div_mod(y as int, 256);
        }
        assert(be8(v).take(k as int).last() == (y % 256) as u8);
        assert(256 * q == q * 256) by (nonlinear_arith);
    }
}

/// The eight big-endian bytes of a `u64` spell it back.
pub proof fn lemma_be8_value(v: u64)
    ensures
        be_value(be8(v)) == v,
{
    lemma_be8_prefix(v, 8);
    assert(be8(v).take(8) =~= be8(v));
    assert(byte_shift(0) == 1);
    assert(v as nat / 1 == v as nat);
}

/// The number spelled by four eight-byte groups.
pub proof fn lemma_be_value_32(s0: Seq<u8>, s1: Seq<u8>, s2: Seq<u8>, s3: Seq<u8>)
    requires
        s0.len() == 8,
        s1.len() == 8,
        s2.len() == 8,
        s3.len() == 8,
    ensures
        be_value(s0 + s1 + s2 + s3) == be_value(s3) + be_value(s2) * 0x1_0000_0000_0000_0000nat
            + be_value(s1) * 0x1_0000_0000_0000_0000_0000_0000_0000_0000nat + be_value(s0)
            * 0x1_0000_0000_0000_0000_0000_0000_0000_0000_0000_0000_0000_0000nat,
{
    lemma_byte_shift_values();
    lemma_be_value_append(s0, s1);
    lemma_be_value_append(s0 + s1, s2);
    lemma_be_value_append(s0 + s1 + s2, s3);
}

/// Writes the eight big-endian bytes of `v` at `start`.
pub(crate) fn write_u64_be(buf: &mut [u8; 32], start: usize, v: u64)
    requires
        start + 8 <= 32,
    ensures
        final(buf)@ == old(buf)@.subrange(0, start as int) + be8(v) + old(buf)@.subrange(
            start + 8,
            32,
        ),
{
    let ghost orig = buf@;
    assert(byte_shift(0) == 1);
    assert(v as nat / 1 == v as nat);
    let mut rem: u64 = v;
    let mut j: usize = 0;
    while j < 8
        invariant
            j <= 8,
            start + 8 <= 32,
            buf@.len() == 32,
            rem as nat == v as nat / byte_shift(j as nat),
            forall|i: int|
                0 <= i < 32 ==> #[trigger] buf@[i] == if start + 8 - j <= i < start + 8 {
                    be8(v)[i - start]
                } else {
                    orig[i]
                },
        decreases 8 - j,
    {
        proof {
            lemma_byte_shift_positive(j as nat);
            assert(byte_shift((7 - (7 - j)) as nat) == byte_shift(j as nat));
        }
        buf[start + 7 - j] = (rem % 256) as u8;
        proof {
            let q = byte_shift(j as nat);
            lemma_div_denominator(v as int, q as int, 256);
            assert(q * 256 == 256 * q) by (nonlinear_arith);
            assert(byte_shift((j + 1) as nat) == 256 * q);
        }
        rem = rem / 256;
        j = j + 1;
    }
    assert(buf@ =~= orig.subrange(0, start as int) + be8(v) + orig.subrange(start + 8, 32));
}

/// Reads eight big-endian bytes at `start` as a `u64`.
pub(crate) fn read_u64_be(buf: &[u8; 32], start: usize) -> (r: u64)
    requires
        start + 8 <= 32,
    ensures
        r as nat == be_value(buf@.subrange(start as int, start + 8)),
{
    let ghost s = buf@.subrange(start as int, start + 8);
    let mut acc: u64 = 0;
    let mut i: usize = 0;
    while i < 8
        invariant
            i <= 8,
            start + 8 <= 32,
            s == buf@.subrange(start as int, start + 8),
            acc as nat == be_value(s.take(i as int)),
        decreases 8 - i,
    {
        proof {
            assert(s.take(i as int).len() == i);
            lemma_be_value_bound(s.take(i as int));
            lemma_byte_shift_monotone(i as nat, 7);
            lemma_byte_shift_values();
            assert(s.take(i + 1).drop_last() =~= s.take(i as int));
        }
        acc = acc * 256 + buf[start + i] as u64;
        i = i + 1;
    }
    assert(s.take(8) =~= s);
    acc
}

/// An element of the Starknet field, held in its canonical form (a number below the prime).
#[derive(Clone, Copy, PartialEq, Eq, Debug)]
pub struct Felt {
    limbs: [u64; 4],
}

impl Felt {
    #[verifier::type_invariant]
    spec fn canonical(self) -> bool {
        limbs_value(self.limbs) < felt_prime()
    }
}

impl View for Felt {
    type V = nat;

    closed spec fn view(&self) -> nat {
        limbs_value(self.limbs)
    }
}

impl Felt {
    /// The field element whose little-endian 64-bit limbs are `limbs`.
    pub(crate) fn from_limbs(limbs: [u64; 4]) -> (r: Felt)
        requires
            limbs_value(limbs) < felt_prime(),
        ensures
            r@ == limbs_value(limbs),
    {
        Felt { limbs }
    }

    /// The canonical 32-byte big-endian encoding of the element.
    pub fn to_bytes_be(&self) -> (r: [u8; 32])
        ensures
            be_value(r@) == self@,
            self@ < felt_prime(),
    {
        proof {
            use_type_invariant(self);
        }
        let mut buf = [0u8; 32];
        write_u64_be(&mut buf, 0, self.limbs[3]);
        write_u64_be(&mut buf, 8, self.limbs[2]);
        write_u64_be(&mut buf, 16, self.limbs[1]);
        write_u64_be(&mut buf, 24, self.limbs[0]);
        proof {
            let l = self.limbs;
            assert(buf@ =~= be8(l[3]) + be8(l[2]) + be8(l[1]) + be8(l[0]));
            lemma_be8_value(l[0]);
            lemma_be8_value(l[1]);
            lemma_be8_value(l[2]);
            lemma_be8_value(l[3]);
            lemma_be_value_32(be8(l[3]), be8(l[2]), be8(l[1]), be8(l[0]));
        }
        buf
    }

    /// Reads a big-endian encoding whose number is already below the prime.
    pub(crate) fn from_canonical_bytes_be(bytes: &[u8; 32]) -> (r: Felt)
        requires
            be_value(bytes@) < felt_prime(),
        ensures
            r@ == be_value(bytes@),
    {
        let l3 = read_u64_be(bytes, 0);
        let l2 = read_u64_be(bytes, 8);
        let l1 = read_u64_be(bytes, 16);
        let l0 = read_u64_be(bytes, 24);
        proof {
            let b = bytes@;
            assert(b =~= b.subrange(0, 8) + b.subrange(8, 16) + b.subrange(16, 24) + b.subrange(
                24,
                32,
            ));
            lemma_be_value_32(
                b.subrange(0, 8),
                b.subrange(8, 16),
                b.subrange(16, 24),
                b.subrange(24, 32),
            );
        }
        Felt { limbs: [l0, l1, l2, l3] }
    }

    /// The element that 32 big-endian bytes spell, reduced modulo the prime.
    pub fn from_bytes_be(bytes: &[u8; 32]) -> (r: Felt)
        ensures
            r@ == be_value(bytes@) % felt_prime(),
    {
        let canonical = reduce_bytes_be(bytes);
        Felt::from_canonical_bytes_be(&canonical)
    }

    /// The remainder of the element's number divided by the number of `n`.
    pub fn mod_floor(&self, n: &Felt) -> (r: Felt)
        requires
            n@ != 0,
        ensures
            r@ == self@ % n@,
    {
        let value = self.to_bytes_be();
        let modulus = n.to_bytes_be();
        let rem = mod_floor_bytes_be(&value, &modulus);
        proof {
            lemma_mod_bound(self@ as int, n@ as int);
        }
        Felt::from_canonical_bytes_be(&rem)
    }

    /// The element as a `u64`, when its number fits in one.
    pub fn try_to_u64(&self) -> (r: Option<u64>)
        ensures
            r == (if self@ <= u64::MAX {
                Some(self@ as u64)
            } else {
                None::<u64>
            }),
    {
        if self.limbs[1] == 0 && self.limbs[2] == 0 && self.limbs[3] == 0 {
            Some(self.limbs[0])
        } else {
            None
        }
    }
}

/// Trusted: `starknet_types_core::felt::Felt::from_bytes_be`, read back with
/// `Felt::to_bytes_be`. The outside function reads the bytes as a big-endian number and reduces
/// it modulo the field prime (lambdaworks' Montgomery conversion); `to_bytes_be` gives the
/// canonical big-endian encoding of the result.
#[verifier::external_body]
fn reduce_bytes_be(bytes: &[u8; 32]) -> (r: [u8; 32])
    ensures
        be_value(r@) == be_value(bytes@) % felt_prime(),
{
    starknet_types_core::felt::Felt::from_bytes_be(bytes).to_bytes_be()
}

/// Trusted: `starknet_types_core::felt::Felt::mod_floor`, on elements read with `from_bytes_be`
/// and a modulus wrapped with `NonZeroFelt::from_felt_unchecked`. For canonical inputs the
/// outside function divides the two representatives as integers and returns the remainder.
#[verifier::external_body]
fn mod_floor_bytes_be(value: &[u8; 32], modulus: &[u8; 32]) -> (r: [u8; 32])
    requires
        be_value(value@) < felt_prime(),
        0 < be_value(modulus@) < felt_prime(),
    ensures
        be_value(r@) == be_value(value@) % be_value(modulus@),
{
    let modulus = starknet_types_core::felt::NonZeroFelt::from_felt_unchecked(
        starknet_types_core::felt::Felt::from_bytes_be(modulus),
    );
    starknet_types_core::felt::Felt::from_bytes_be(value).mod_floor(&modulus).to_bytes_be()
}

impl From<u64> for Felt {
    fn from(value: u64) -> (r: Felt)
        ensures
            r@ == value as nat,
    {
        Felt { limbs: [value, 0, 0, 0] }
    }
}

impl vstd::std_specs::convert::FromSpecImpl<u64> for Felt {
    open spec fn obeys_from_spec() -> bool {
        true
    }

    closed spec fn from_spec(v: u64) -> Felt {
        Felt { limbs: [v, 0, 0, 0] }
    }
}

} // verus!
