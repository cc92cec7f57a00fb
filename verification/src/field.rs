//! Elements of the prime field with modulus 2^128 - 45 * 2^40 + 1.
//!
//! The field is modelled over `int`: an element is its canonical
//! representative in `[0, MODULUS)`, and addition and subtraction are the
//! integer operations followed by reduction. [`Felt`] is the executable
//! value type; its operators are proved against that model.

use vstd::bytes::{
    lemma_auto_spec_u128_to_from_le_bytes, spec_u128_from_le_bytes, spec_u128_to_le_bytes,
    u128_from_le_bytes, u128_to_le_bytes,
};
use vstd::prelude::*;

verus! {

/// The field modulus, 2^128 - 45 * 2^40 + 1.
pub const MODULUS: u128 = 340282366920938463463374557953744961537;

/// Number of bytes in the encoding of an element.
pub const ELEMENT_BYTES: usize = 16;

/// Sum of two integers, reduced into `[0, MODULUS)`.
pub open spec fn add_mod(a: int, b: int) -> int {
    (a + b) % (MODULUS as int)
}

/// Difference of two integers, reduced into `[0, MODULUS)`.
pub open spec fn sub_mod(a: int, b: int) -> int {
    (a - b) % (MODULUS as int)
}

/// A field element, held as its canonical representative.
#[derive(Clone, Copy, Debug, PartialEq, Eq, Structural)]
pub struct Felt {
    value: u128,
}

impl View for Felt {
    type V = int;

    closed spec fn view(&self) -> int {
        self.value as int
    }
}

impl Felt {
    #[verifier::type_invariant]
    pub(crate) open spec fn reduced(self) -> bool {
        self.is_canonical()
    }

    /// The representative lies in `[0, MODULUS)`. Every element that the
    /// executable operations hand out is canonical.
    pub open spec fn is_canonical(&self) -> bool {
        0 <= self@ < MODULUS
    }

    /// The element whose canonical representative is `v`.
    pub closed spec fn from_int(v: int) -> Felt {
        Felt { value: v as u128 }
    }

    /// The additive identity.
    pub open spec fn spec_zero() -> Felt {
        Felt::from_int(0)
    }

    /// The multiplicative identity.
    pub open spec fn spec_one() -> Felt {
        Felt::from_int(1)
    }

    /// The field sum; in specifications `a + b` means this.
    pub open spec fn spec_add(self, rhs: Felt) -> Felt {
        Felt::from_int(add_mod(self@, rhs@))
    }

    /// The field difference; in specifications `a - b` means this.
    pub open spec fn spec_sub(self, rhs: Felt) -> Felt {
        Felt::from_int(sub_mod(self@, rhs@))
    }

    /// `from_int` is inverse to the view on canonical representatives.
    pub proof fn lemma_from_int(v: int)
        requires
            0 <= v < MODULUS,
        ensures
            Felt::from_int(v)@ == v,
            Felt::from_int(v).is_canonical(),
    {
    }

    /// Two elements with the same representative are the same element.
    pub proof fn lemma_view_injective(a: Felt, b: Felt)
        ensures
            a@ == b@ <==> a == b,
    {
    }

    /// The identities are canonical, with representatives 0 and 1.
    pub proof fn lemma_identities()
        ensures
            Felt::spec_zero()@ == 0,
            Felt::spec_one()@ == 1,
            Felt::spec_zero().is_canonical(),
            Felt::spec_one().is_canonical(),
    {
    }

    /// A sum is canonical, and its representative is the reduced sum of
    /// the representatives.
    pub proof fn lemma_add(a: Felt, b: Felt)
        ensures
            (a + b)@ == add_mod(a@, b@),
            (a + b).is_canonical(),
    {
    }

    /// A difference is canonical, and its representative is the reduced
    /// difference of the representatives.
    pub proof fn lemma_sub(a: Felt, b: Felt)
        ensures
            (a - b)@ == sub_mod(a@, b@),
            (a - b).is_canonical(),
    {
    }

    /// The element that `value` stands for; values at or above the modulus
    /// are reduced.
    pub fn new(value: u128) -> (r: Felt)
        ensures
            r == Felt::from_int((value as int) % (MODULUS as int)),
            r@ == (value as int) % (MODULUS as int),
    {
        if value < MODULUS {
            Felt { value }
        } else {
            Felt { value: value - MODULUS }
        }
    }

    /// The additive identity.
    pub fn zero() -> (r: Felt)
        ensures
            r == Felt::spec_zero(),
            r@ == 0,
    {
        Felt { value: 0 }
    }

    /// The multiplicative identity.
    pub fn one() -> (r: Felt)
        ensures
            r == Felt::spec_one(),
            r@ == 1,
    {
        Felt { value: 1 }
    }

    /// The encoding of the element: its representative in 16 bytes, least
    /// significant first.
    pub open spec fn spec_to_bytes(&self) -> Seq<u8> {
        spec_u128_to_le_bytes(self@ as u128)
    }

    /// The element that a byte sequence encodes, if any: the sequence must
    /// be 16 bytes long and hold, least significant byte first, a value
    /// below the modulus.
    pub open spec fn spec_from_bytes(bytes: Seq<u8>) -> Option<Felt> {
        if bytes.len() == ELEMENT_BYTES && spec_u128_from_le_bytes(bytes) < MODULUS {
            Some(Felt::from_int(spec_u128_from_le_bytes(bytes) as int))
        } else {
            None
        }
    }

    /// Decoding undoes encoding.
    pub proof fn lemma_encode_then_decode(a: Felt)
        requires
            a.is_canonical(),
        ensures
            a.spec_to_bytes().len() == ELEMENT_BYTES,
            Felt::spec_from_bytes(a.spec_to_bytes()) == Some(a),
    {
        lemma_auto_spec_u128_to_from_le_bytes();
    }

    /// Encoding undoes decoding: each element has exactly one encoding.
    pub proof fn lemma_decode_then_encode(bytes: Seq<u8>)
        requires
            Felt::spec_from_bytes(bytes).is_some(),
        ensures
            Felt::spec_from_bytes(bytes).unwrap().spec_to_bytes() == bytes,
    {
        lemma_auto_spec_u128_to_from_le_bytes();
    }

    /// Encodes the element.
    pub fn to_bytes(&self) -> (bytes: Vec<u8>)
        ensures
            bytes@ == self.spec_to_bytes(),
            bytes@.len() == ELEMENT_BYTES,
    {
        u128_to_le_bytes(self.value)
    }

    /// Decodes an element; `None` when `bytes` is not the encoding of one.
    pub fn from_bytes(bytes: &[u8]) -> (element: Option<Felt>)
        ensures
            element == Felt::spec_from_bytes(bytes@),
    {
        if bytes.len() != ELEMENT_BYTES {
            return None;
        }
        let value = u128_from_le_bytes(bytes);
        if value < MODULUS {
            Some(Felt { value })
        } else {
            None
        }
    }

    /// The canonical representative of the element.
    pub fn as_int(&self) -> (r: u128)
        ensures
            r as int == self@,
            r < MODULUS,
    {
        proof {
            use_type_invariant(self);
        }
        self.value
    }
}

impl vstd::std_specs::ops::AddSpecImpl for Felt {
    open spec fn obeys_add_spec() -> bool {
        true
    }

    open spec fn add_req(self, rhs: Felt) -> bool {
        true
    }

    open spec fn add_spec(self, rhs: Felt) -> Felt {
        self.spec_add(rhs)
    }
}

impl core::ops::Add for Felt {
    type Output = Felt;

    /// Field addition.
    fn add(self, rhs: Felt) -> (r: Felt)
        ensures
            r == self + rhs,
            r@ == add_mod(self@, rhs@),
    {
        proof {
            use_type_invariant(&self);
            use_type_invariant(&rhs);
        }
        let room: u128 = MODULUS - rhs.value;
        if self.value < room {
            Felt { value: self.value + rhs.value }
        } else {
            Felt { value: self.value - room }
        }
    }
}

impl vstd::std_specs::ops::SubSpecImpl for Felt {
    open spec fn obeys_sub_spec() -> bool {
        true
    }

    open spec fn sub_req(self, rhs: Felt) -> bool {
        true
    }

    open spec fn sub_spec(self, rhs: Felt) -> Felt {
        self.spec_sub(rhs)
    }
}

impl core::ops::Sub for Felt {
    type Output = Felt;

    /// Field subtraction.
    fn sub(self, rhs: Felt) -> (r: Felt)
        ensures
            r == self - rhs,
            r@ == sub_mod(self@, rhs@),
    {
        proof {
            use_type_invariant(&self);
            use_type_invariant(&rhs);
        }
        if self.value < rhs.value {
            Felt { value: MODULUS - rhs.value + self.value }
        } else {
            Felt { value: self.value - rhs.value }
        }
    }
}

} // verus!
