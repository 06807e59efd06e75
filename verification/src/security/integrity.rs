//! Inspection of the first instruction word of a protected function.
//!
//! Two patches are recognised on 64-bit ARM: the entry overwritten with a
//! bare return, which turns the function into a no-op, and the entry
//! overwritten with an unconditional branch, which redirects it.

use vstd::prelude::*;

verus! {

/// `ret`: return to the address in the link register.
pub const ARM64_RET: u32 = 0xD65F03C0;

/// The bits of an instruction word that hold the opcode of `b`.
pub const ARM64_B_MASK: u32 = 0xFC000000;

/// The opcode of `b`, an unconditional branch, under `ARM64_B_MASK`.
pub const ARM64_B_OPCODE: u32 = 0x14000000;

/// The word is a bare return.
pub open spec fn is_return(word: u32) -> bool {
    word == ARM64_RET
}

/// The word is an unconditional branch, whatever its target.
pub open spec fn is_branch(word: u32) -> bool {
    word & ARM64_B_MASK == ARM64_B_OPCODE
}

/// The word is neither of the two recognised patches.
pub open spec fn word_intact(word: u32) -> bool {
    !is_return(word) && !is_branch(word)
}

/// A protected function is intact when its first instruction could be read
/// and is not a recognised patch.
pub open spec fn entry_intact(entry: Option<u32>) -> bool {
    match entry {
        Some(word) => word_intact(word),
        None => false,
    }
}

/// An unconditional branch is a word whose six highest bits are `000101`:
/// the words from `0x14000000` up to `0x17FFFFFF`.
pub proof fn lemma_branch_range(word: u32)
    ensures
        is_branch(word) <==> 0x14000000 <= word <= 0x17FFFFFF,
{
    assert((word & 0xFC000000 == 0x14000000) <==> (0x14000000 <= word && word <= 0x17FFFFFF))
        by (bit_vector);
}

/// A bare return is no branch: the two failures of `word_intact` never
/// coincide.
pub proof fn lemma_return_is_not_branch()
    ensures
        !is_branch(ARM64_RET),
{
    assert(0xD65F03C0u32 & 0xFC000000u32 != 0x14000000u32) by (bit_vector);
}

/// Classifies the first instruction word of a function: `false` for a bare
/// return, `false` for an unconditional branch, `true` for any other word.
pub fn check_function_integrity(first_instruction: u32) -> (intact: bool)
    ensures
        intact == word_intact(first_instruction),
        first_instruction == ARM64_RET ==> !intact,
        first_instruction & ARM64_B_MASK == ARM64_B_OPCODE ==> !intact,
        first_instruction != ARM64_RET && first_instruction & ARM64_B_MASK != ARM64_B_OPCODE
            ==> intact,
{
    if first_instruction == ARM64_RET {
        return false;
    }
    if (first_instruction & ARM64_B_MASK) == ARM64_B_OPCODE {
        return false;
    }
    true
}

/// Judges the entry of the protected function. `entry` is the word read at
/// its address, or `None` where the address was null and nothing was read.
pub fn check_integrity(entry: Option<u32>) -> (intact: bool)
    ensures
        intact == entry_intact(entry),
        entry is None ==> !intact,
{
    match entry {
        Some(word) => check_function_integrity(word),
        None => false,
    }
}

} // verus!
