//! Small facts about the bit masks the bus and the PPU use, proved once and
//! shared: each low-bits mask agrees with the matching remainder.

use vstd::prelude::*;

verus! {

pub proof fn lemma_u16_mask_facts(x: u16)
    by (bit_vector)
    ensures
        x & 0x3fff == x % 0x4000,
        x & 0x07ff == x % 0x0800,
        x & 0b111 == x % 8,
        x & 0x00ff == x % 0x100,
{
}

} // verus!
