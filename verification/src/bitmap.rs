//! The 256-bit supported-event-types capability bitmap: one bit per event
//! type tag. Membership of `tag` is bit `tag % 8` of byte `tag / 8`, so every
//! `u8` tag maps to a valid byte and bit of the 32-byte bitmap.

use vstd::arithmetic::div_mod::lemma_fundamental_div_mod;
use vstd::prelude::*;

verus! {

/// Whether `tag` is marked supported in a 32-byte bitmap.
pub open spec fn is_supported_spec(bits: Seq<u8>, tag: u8) -> bool
    recommends
        bits.len() == 32,
{
    (bits[tag as int / 8] >> (tag % 8)) & 1 == 1
}

/// The supported-event-types bitmap of a log header, 32 bytes taken verbatim.
#[derive(Debug, PartialEq, Eq)]
pub struct SuppEventsBitmap {
    bytes: Vec<u8>,
}

impl View for SuppEventsBitmap {
    type V = Seq<u8>;

    closed spec fn view(&self) -> Seq<u8> {
        self.bytes@
    }
}

impl SuppEventsBitmap {
    #[verifier::type_invariant]
    spec fn inv(&self) -> bool {
        self.bytes@.len() == 32
    }

    /// Wraps 32 raw bitmap bytes.
    pub fn from_bytes(bytes: Vec<u8>) -> (r: SuppEventsBitmap)
        requires
            bytes@.len() == 32,
        ensures
            r@ == bytes@,
    {
        SuppEventsBitmap { bytes }
    }

    /// Whether the device may emit events of type `tag`: tests bit `tag % 8`
    /// of byte `tag / 8`. Total over all 256 tag values.
    pub fn is_supported(&self, tag: u8) -> (r: bool)
        ensures
            r == is_supported_spec(self@, tag),
            self@.len() == 32,
    {
        proof {
            use_type_invariant(self);
        }
        let byte = self.bytes[(tag / 8) as usize];
        ((byte >> (tag % 8)) & 1) == 1
    }
}

/// On an all-zero bitmap no tag is supported.
pub proof fn lemma_bitmap_all_zero(bits: Seq<u8>, tag: u8)
    requires
        bits.len() == 32,
        forall|i: int| 0 <= i < 32 ==> bits[i] == 0,
    ensures
        !is_supported_spec(bits, tag),
{
    assert(bits[tag as int / 8] == 0);
    assert((0u8 >> (tag % 8)) & 1 == 0) by (bit_vector);
}

/// On an all-ones bitmap every tag is supported.
pub proof fn lemma_bitmap_all_ones(bits: Seq<u8>, tag: u8)
    requires
        bits.len() == 32,
        forall|i: int| 0 <= i < 32 ==> bits[i] == 0xff,
    ensures
        is_supported_spec(bits, tag),
{
    assert(bits[tag as int / 8] == 0xff);
    assert((0xffu8 >> (tag % 8)) & 1 == 1) by (bit_vector);
}

/// Setting exactly bit `set_tag % 8` of byte `set_tag / 8` makes `set_tag`,
/// and no other tag, supported.
pub proof fn lemma_bitmap_single_bit(bits: Seq<u8>, set_tag: u8, tag: u8)
    requires
        bits.len() == 32,
        bits[set_tag as int / 8] == (1u8 << (set_tag % 8)),
        forall|i: int| 0 <= i < 32 && i != set_tag as int / 8 ==> bits[i] == 0,
    ensures
        is_supported_spec(bits, tag) <==> tag == set_tag,
{
    if tag as int / 8 == set_tag as int / 8 {
        assert(bits[tag as int / 8] == (1u8 << (set_tag % 8)));
        let s = set_tag;
        let t = tag;
        assert(((((1u8 << (s % 8)) >> (t % 8)) & 1 == 1) <==> (t % 8 == s % 8))) by (bit_vector);
        if tag % 8 == set_tag % 8 {
            lemma_fundamental_div_mod(tag as int, 8);
            lemma_fundamental_div_mod(set_tag as int, 8);
            assert(tag == set_tag);
        }
    } else {
        assert(bits[tag as int / 8] == 0);
        assert((0u8 >> (tag % 8)) & 1 == 0) by (bit_vector);
    }
}

} // verus!
