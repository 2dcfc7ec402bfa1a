use vstd::prelude::*;
use crate::payload::{read_32, Proof, ProofView, PublicInputs, FIELD_LEN, NR_PUBLIC_INPUTS};

verus! {

/// The modulus of the base field of BN254, big-endian. The coordinates of a
/// curve point are numbers below it.
pub const BASE_FIELD_MODULUS: [u8; 32] = [
    0x30, 0x64, 0x4e, 0x72, 0xe1, 0x31, 0xa0, 0x29, 0xb8, 0x50, 0x45, 0xb6, 0x81, 0x81, 0x58, 0x5d,
    0x97, 0x81, 0x6a, 0x91, 0x68, 0x71, 0xca, 0x8d, 0x3c, 0x20, 0x8c, 0x16, 0xd8, 0x7c, 0xfd, 0x47,
];

/// The modulus of the scalar field of BN254, big-endian. A public input is
/// a number below it.
pub const SCALAR_FIELD_MODULUS: [u8; 32] = [
    0x30, 0x64, 0x4e, 0x72, 0xe1, 0x31, 0xa0, 0x29, 0xb8, 0x50, 0x45, 0xb6, 0x81, 0x81, 0x58, 0x5d,
    0x28, 0x33, 0xe8, 0x48, 0x79, 0xb9, 0x70, 0x91, 0x43, 0xe1, 0xf5, 0x93, 0xf0, 0x00, 0x00, 0x01,
];

/// The number that `bytes` is in big-endian.
pub open spec fn be_value(bytes: Seq<u8>) -> nat
    decreases bytes.len(),
{
    if bytes.len() == 0 {
        0
    } else {
        be_value(bytes.drop_last()) * 256 + bytes.last() as nat
    }
}

/// Whether `bytes` is the encoding of a coordinate: 32 bytes whose number is
/// below the modulus of the base field.
pub open spec fn is_coordinate(bytes: Seq<u8>) -> bool {
    bytes.len() == FIELD_LEN && be_value(bytes) < be_value(BASE_FIELD_MODULUS@)
}

/// Whether `bytes` is the encoding of a scalar: 32 bytes whose number is
/// below the modulus of the scalar field.
pub open spec fn is_scalar(bytes: Seq<u8>) -> bool {
    bytes.len() == FIELD_LEN && be_value(bytes) < be_value(SCALAR_FIELD_MODULUS@)
}

/// Whether `bytes` is made of `count` coordinates, one after the other.
pub open spec fn are_coordinates(bytes: Seq<u8>, count: nat) -> bool {
    &&& bytes.len() == count * FIELD_LEN
    &&& forall|k: int|
        0 <= k < count ==> is_coordinate(
            #[trigger] bytes.subrange(FIELD_LEN * k, FIELD_LEN * (k + 1)),
        )
}

/// Whether every element of a proof and every public input is the encoding
/// of a field element: the two coordinates of `pi_a` and of `pi_c`, the
/// four of `pi_b`, and each public input as a scalar. Whether the
/// coordinates are those of a point on the curve is not said here.
pub open spec fn encodes_field_elements(proof: ProofView, public_inputs: Seq<Seq<u8>>) -> bool {
    &&& are_coordinates(proof.pi_a, 2)
    &&& are_coordinates(proof.pi_b, 4)
    &&& are_coordinates(proof.pi_c, 2)
    &&& public_inputs.len() == NR_PUBLIC_INPUTS
    &&& forall|k: int| 0 <= k < public_inputs.len() ==> is_scalar(#[trigger] public_inputs[k])
}

/// Whether the big-endian number of `value` is below that of `bound`.
///
/// Every byte is looked at, whichever byte decides.
pub fn is_below(value: &[u8; 32], bound: &[u8; 32]) -> (below: bool)
    ensures
        below == (be_value(value@) < be_value(bound@)),
{
    let mut below: bool = false;
    let mut level: bool = true;
    let mut i: usize = 0;
    while i < 32
        invariant
            i <= 32,
            below == (be_value(value@.subrange(0, i as int)) < be_value(
                bound@.subrange(0, i as int),
            )),
            level == (be_value(value@.subrange(0, i as int)) == be_value(
                bound@.subrange(0, i as int),
            )),
        decreases 32 - i,
    {
        proof {
            assert(value@.subrange(0, i + 1).drop_last() =~= value@.subrange(0, i as int));
            assert(bound@.subrange(0, i + 1).drop_last() =~= bound@.subrange(0, i as int));
        }
        if level {
            below = value[i] < bound[i];
            level = value[i] == bound[i];
        }
        i = i + 1;
    }
    assert(value@.subrange(0, 32) =~= value@);
    assert(bound@.subrange(0, 32) =~= bound@);
    below
}

/// Whether `bytes` is made of `count` coordinates.
fn holds_coordinates(bytes: &[u8], count: usize) -> (valid: bool)
    requires
        bytes@.len() == count * FIELD_LEN,
        count <= 4,
    ensures
        valid == are_coordinates(bytes@, count as nat),
{
    let mut k: usize = 0;
    while k < count
        invariant
            k <= count,
            count <= 4,
            bytes@.len() == count * FIELD_LEN,
            forall|j: int|
                0 <= j < k ==> is_coordinate(
                    #[trigger] bytes@.subrange(FIELD_LEN * j, FIELD_LEN * (j + 1)),
                ),
        decreases count - k,
    {
        let coordinate = read_32(bytes, FIELD_LEN * k);
        if !is_below(&coordinate, &BASE_FIELD_MODULUS) {
            assert(!is_coordinate(bytes@.subrange(FIELD_LEN * k, FIELD_LEN * (k + 1))));
            return false;
        }
        k = k + 1;
    }
    true
}

impl Proof {
    /// Whether every coordinate of the three points is below the modulus of
    /// the base field.
    pub fn has_coordinates(&self) -> (valid: bool)
        ensures
            valid == (are_coordinates(self@.pi_a, 2) && are_coordinates(self@.pi_b, 4)
                && are_coordinates(self@.pi_c, 2)),
    {
        holds_coordinates(self.pi_a.as_slice(), 2) && holds_coordinates(self.pi_b.as_slice(), 4)
            && holds_coordinates(self.pi_c.as_slice(), 2)
    }
}

impl PublicInputs {
    /// Whether every public input is below the modulus of the scalar field.
    pub fn are_scalars(&self) -> (valid: bool)
        ensures
            valid == (forall|k: int| 0 <= k < self@.len() ==> is_scalar(#[trigger] self@[k])),
    {
        let mut k: usize = 0;
        while k < NR_PUBLIC_INPUTS
            invariant
                k <= NR_PUBLIC_INPUTS,
                forall|j: int| 0 <= j < k ==> is_scalar(#[trigger] self@[j]),
            decreases NR_PUBLIC_INPUTS - k,
        {
            if !is_below(&self.elements[k], &SCALAR_FIELD_MODULUS) {
                assert(!is_scalar(self@[k as int]));
                return false;
            }
            k = k + 1;
        }
        true
    }
}

/// Whether every element of `proof` and every public input is the encoding
/// of a field element.
pub fn field_elements_are_valid(proof: &Proof, public_inputs: &PublicInputs) -> (valid: bool)
    ensures
        valid == encodes_field_elements(proof@, public_inputs@),
{
    proof.has_coordinates() && public_inputs.are_scalars()
}

} // verus!
