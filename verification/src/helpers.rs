//! Bytes as field elements.
use crate::felt::Felt;
use vstd::prelude::*;

verus! {

/// Whether `felts` holds the bytes of `bytes`, one field element for each.
pub open spec fn felts_of_bytes(felts: Seq<Felt>, bytes: Seq<u8>) -> bool {
    &&& felts.len() == bytes.len()
    &&& forall|i: int| 0 <= i < bytes.len() ==> (#[trigger] felts[i])@ == bytes[i]
}

/// Turns each byte into a field element of its own.
pub fn bytes_to_felt_vec(bytes: &Vec<u8>) -> (felts: Vec<Felt>)
    ensures
        felts_of_bytes(felts@, bytes@),
{
    let mut felts: Vec<Felt> = Vec::new();
    let mut i: usize = 0;
    while i < bytes.len()
        invariant
            i <= bytes@.len(),
            felts_of_bytes(felts@, bytes@.take(i as int)),
        decreases bytes@.len() - i,
    {
        felts.push(Felt::from_u8(bytes[i]));
        i = i + 1;
    }
    assert(bytes@.take(i as int) =~= bytes@);
    felts
}

/// One list of field elements stands for one byte string only.
pub proof fn felts_determine_bytes(felts: Seq<Felt>, a: Seq<u8>, b: Seq<u8>)
    requires
        felts_of_bytes(felts, a),
        felts_of_bytes(felts, b),
    ensures
        a == b,
{
    assert forall|i: int| 0 <= i < a.len() implies a[i] == b[i] by {
        assert(felts[i]@ == a[i]);
    }
    assert(a =~= b);
}

/// Copies a list of field elements.
pub(crate) fn copy_felts(felts: &Vec<Felt>) -> (copy: Vec<Felt>)
    ensures
        copy@ == felts@,
{
    let mut copy: Vec<Felt> = Vec::new();
    let mut i: usize = 0;
    while i < felts.len()
        invariant
            i <= felts@.len(),
            copy@ == felts@.take(i as int),
        decreases felts@.len() - i,
    {
        copy.push(felts[i]);
        i = i + 1;
        assert(felts@.take(i as int) =~= felts@.take(i - 1).push(felts@[i - 1]));
    }
    assert(felts@.take(i as int) =~= felts@);
    copy
}

} // verus!
