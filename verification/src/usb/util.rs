//! Small bit utilities of the driver.

use vstd::prelude::*;

verus! {

/// Index of the least significant set bit among bits 0..15 of
/// `bits`; 16 when none of them is set. (Bit 15 is never examined,
/// as the controller's page-size register keeps it reserved.)
pub fn find_lsb(bits: u16) -> (r: usize)
    ensures
        r == 16 || (r < 15 && (bits >> (r as u16)) & 1 == 1),
        forall|j: u16| j < r && j < 15 ==> (bits >> j) & 1 != 1,
{
    let mut i: usize = 0;
    while i < 15
        invariant
            i <= 15,
            forall|j: u16| j < i ==> (bits >> j) & 1 != 1,
        decreases 15 - i,
    {
        if (bits >> (i as u16)) & 1 == 1 {
            return i;
        }
        i = i + 1;
    }
    16
}

} // verus!
