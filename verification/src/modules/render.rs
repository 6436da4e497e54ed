//! Small drawing decisions shared by status icons.

use vstd::prelude::*;

verus! {

/// Number of sound waves drawn next to the speaker: one up to 32 %, two above.
pub fn speaker_wave_count(volume_percent: u32) -> (r: u8)
    ensures
        r == (if volume_percent <= 32 { 1u8 } else { 2u8 }),
{
    if volume_percent <= 32 {
        1
    } else {
        2
    }
}

} // verus!
