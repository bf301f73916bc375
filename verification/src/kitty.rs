use vstd::prelude::*;

verus! {

broadcast use vstd::array::group_array_axioms;

/// Identifier of one entity. Ids are handed out by a monotonic counter,
/// are unique among live entities, and are never reused.
pub type KittyId = u32;

/// One entity: an immutable 16-byte genetic code. The payload is opaque;
/// the only operation that reads it is the byte-wise crossover below.
#[derive(Clone, Copy, Debug, PartialEq, Eq)]
pub struct Kitty(pub [u8; 16]);

/// Bit `j` of byte `x`, as a boolean.
pub open spec fn byte_bit(x: u8, j: u32) -> bool
    recommends
        j < 8,
{
    (x >> j) & 1 == 1
}

/// One byte of a child code: the bits of `a` where the selector bit is set,
/// the bits of `b` where it is clear.
pub open spec fn crossover_byte(a: u8, b: u8, s: u8) -> u8 {
    (a & s) | (b & !s)
}

/// A whole child code: byte `i` is the crossover of the parents' bytes `i`
/// under the selector's byte `i`.
pub open spec fn crossover_genes(a: Seq<u8>, b: Seq<u8>, s: Seq<u8>) -> Seq<u8> {
    Seq::new(a.len(), |i: int| crossover_byte(a[i], b[i], s[i]))
}

/// Combine two parent codes under a selector mask, byte by byte.
pub fn crossover(a: &[u8; 16], b: &[u8; 16], s: &[u8; 16]) -> (r: [u8; 16])
    ensures
        r@ == crossover_genes(a@, b@, s@),
{
    let mut data: [u8; 16] = [0u8; 16];
    let mut i: usize = 0;
    while i < 16
        invariant
            i <= 16,
            forall|k: int| 0 <= k < i ==> data@[k] == crossover_byte(a@[k], b@[k], s@[k]),
        decreases 16 - i,
    {
        data[i] = (a[i] & s[i]) | (b[i] & !s[i]);
        i = i + 1;
    }
    proof {
        assert(data@ =~= crossover_genes(a@, b@, s@));
    }
    data
}

/// Dominance inheritance holds bit by bit: a bit of the child byte equals the
/// corresponding bit of `a` where the selector bit is set, and of `b` where it
/// is clear.
pub proof fn lemma_crossover_byte_bit(a: u8, b: u8, s: u8, j: u32)
    requires
        j < 8,
    ensures
        byte_bit(crossover_byte(a, b, s), j) == (if byte_bit(s, j) {
            byte_bit(a, j)
        } else {
            byte_bit(b, j)
        }),
{
    assert((((a & s) | (b & !s)) >> j) & 1 == (if (s >> j) & 1 == 1 {
        (a >> j) & 1
    } else {
        (b >> j) & 1
    })) by (bit_vector)
        requires
            j < 8,
    ;
}

/// An all-ones selector byte copies `a`; an all-zeros selector byte copies `b`.
pub proof fn lemma_crossover_byte_extremes(a: u8, b: u8)
    ensures
        crossover_byte(a, b, 0xFF) == a,
        crossover_byte(a, b, 0x00) == b,
{
    assert((a & 0xFFu8) | (b & !0xFFu8) == a) by (bit_vector);
    assert((a & 0x00u8) | (b & !0x00u8) == b) by (bit_vector);
}

/// Crossover law over whole codes: for every byte position `i` and bit
/// position `j`, the child's bit comes from parent `a` where the selector bit
/// is set and from parent `b` otherwise, independently per bit.
pub proof fn lemma_crossover_genes_bit(a: Seq<u8>, b: Seq<u8>, s: Seq<u8>, i: int, j: u32)
    requires
        a.len() == 16,
        b.len() == 16,
        s.len() == 16,
        0 <= i < 16,
        j < 8,
    ensures
        byte_bit(crossover_genes(a, b, s)[i], j) == (if byte_bit(s[i], j) {
            byte_bit(a[i], j)
        } else {
            byte_bit(b[i], j)
        }),
{
    lemma_crossover_byte_bit(a[i], b[i], s[i], j);
}

/// A selector of all ones yields a child equal to parent `a`.
pub proof fn lemma_crossover_genes_all_ones(a: Seq<u8>, b: Seq<u8>, s: Seq<u8>)
    requires
        a.len() == 16,
        b.len() == 16,
        s.len() == 16,
        forall|i: int| 0 <= i < 16 ==> s[i] == 0xFFu8,
    ensures
        crossover_genes(a, b, s) == a,
{
    assert forall|i: int| 0 <= i < 16 implies crossover_genes(a, b, s)[i] == a[i] by {
        lemma_crossover_byte_extremes(a[i], b[i]);
    }
    assert(crossover_genes(a, b, s) =~= a);
}

/// A selector of all zeros yields a child equal to parent `b`.
pub proof fn lemma_crossover_genes_all_zeros(a: Seq<u8>, b: Seq<u8>, s: Seq<u8>)
    requires
        a.len() == 16,
        b.len() == 16,
        s.len() == 16,
        forall|i: int| 0 <= i < 16 ==> s[i] == 0x00u8,
    ensures
        crossover_genes(a, b, s) == b,
{
    assert forall|i: int| 0 <= i < 16 implies crossover_genes(a, b, s)[i] == b[i] by {
        lemma_crossover_byte_extremes(a[i], b[i]);
    }
    assert(crossover_genes(a, b, s) =~= b);
}

} // verus!
