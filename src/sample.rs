//! Conversion of native integer samples to the canonical signed 16-bit form.
use vstd::prelude::*;

verus! {

/// The unsigned midpoint that maps to zero.
pub const U16_MIDPOINT: u16 = 32768;

/// A native signed 16-bit sample is already canonical.
pub fn canonical_from_i16(sample: i16) -> (r: i16)
    ensures
        r == sample,
{
    sample
}

/// A native unsigned 16-bit sample, shifted down by the midpoint: `0` becomes
/// `-32768` and `65535` becomes `32767`.
pub fn canonical_from_u16(sample: u16) -> (r: i16)
    ensures
        r == sample - U16_MIDPOINT,
{
    (sample as i32 - U16_MIDPOINT as i32) as i16
}

/// A buffer of native unsigned samples in canonical form, sample by sample.
pub open spec fn canonical_u16_seq(data: Seq<u16>) -> Seq<i16> {
    Seq::new(data.len(), |i: int| (data[i] - U16_MIDPOINT) as i16)
}

/// Converts a whole buffer of native unsigned samples, in order.
pub fn canonicalize_u16(data: &[u16]) -> (r: Vec<i16>)
    ensures
        r@ == canonical_u16_seq(data@),
        r@.len() == data@.len(),
        forall|i: int| 0 <= i < data@.len() ==> r@[i] == data@[i] - U16_MIDPOINT,
{
    let mut out: Vec<i16> = Vec::new();
    let mut i: usize = 0;
    while i < data.len()
        invariant
            i <= data@.len(),
            out@.len() == i,
            forall|j: int| 0 <= j < i ==> out@[j] == data@[j] - U16_MIDPOINT,
        decreases data@.len() - i,
    {
        out.push(canonical_from_u16(data[i]));
        i = i + 1;
    }
    assert(out@ =~= canonical_u16_seq(data@));
    out
}

} // verus!
