use vstd::prelude::*;

verus! {

/// Virtual keycode of the physical "A" key on ANSI layouts.
pub const KEYCODE_A: i64 = 0x00;

/// Virtual keycode of the physical "C" key on ANSI layouts.
pub const KEYCODE_C: i64 = 0x08;

/// Device-independent modifier masks (`NX_*MASK`), as used by the
/// `AppleSymbolicHotKeys` parameter list.
pub const MASK_SHIFT: i64 = 0x0002_0000;
pub const MASK_CONTROL: i64 = 0x0004_0000;
pub const MASK_OPTION: i64 = 0x0008_0000;
pub const MASK_COMMAND: i64 = 0x0010_0000;

/// The same four modifiers as they stand in a Quartz event's flag word
/// (`CGEventFlags`), which uses the device-independent bit positions.
pub const EVENT_FLAG_SHIFT: u64 = 0x0002_0000;
pub const EVENT_FLAG_CONTROL: u64 = 0x0004_0000;
pub const EVENT_FLAG_ALTERNATE: u64 = 0x0008_0000;
pub const EVENT_FLAG_COMMAND: u64 = 0x0010_0000;

/// The bits of the four standard modifiers together.
pub const STANDARD_MODIFIERS: i64 = 0x001E_0000;

/// Whether the modifier word `mods` has any bit of `mask` set.
pub open spec fn holds(mods: i64, mask: i64) -> bool {
    mods & mask != 0
}

/// Whether the event flag word `flags` has any bit of `mask` set.
pub open spec fn flag_held(flags: u64, mask: u64) -> bool {
    flags & mask != 0
}

/// Command held, and none of Shift, Control and Option.
pub open spec fn bare_command(mods: i64) -> bool {
    &&& holds(mods, MASK_COMMAND)
    &&& !holds(mods, MASK_SHIFT)
    &&& !holds(mods, MASK_CONTROL)
    &&& !holds(mods, MASK_OPTION)
}

/// True when `mods` holds Command and no other standard modifier; bits
/// outside the four standard modifiers are ignored.
pub fn is_bare_command(mods: i64) -> (bare: bool)
    ensures
        bare == bare_command(mods),
{
    proof {
        assert((mods & (0x0002_0000i64 | 0x0004_0000i64 | 0x0008_0000i64) == 0) == (mods & 0x0002_0000i64
            == 0 && mods & 0x0004_0000i64 == 0 && mods & 0x0008_0000i64 == 0)) by (bit_vector);
    }
    mods & MASK_COMMAND != 0 && mods & (MASK_SHIFT | MASK_CONTROL | MASK_OPTION) == 0
}

/// Only the four standard modifiers decide whether a chord is bare
/// Command: any other bits (device-dependent ones among them) can be
/// cleared without changing the answer.
pub proof fn lemma_bare_command_ignores_other_bits(mods: i64)
    ensures
        bare_command(mods) == bare_command(mods & STANDARD_MODIFIERS),
{
    assert(((mods & 0x0010_0000i64) != 0) == (((mods & 0x001E_0000i64) & 0x0010_0000i64) != 0))
        by (bit_vector);
    assert(((mods & 0x0002_0000i64) != 0) == (((mods & 0x001E_0000i64) & 0x0002_0000i64) != 0))
        by (bit_vector);
    assert(((mods & 0x0004_0000i64) != 0) == (((mods & 0x001E_0000i64) & 0x0004_0000i64) != 0))
        by (bit_vector);
    assert(((mods & 0x0008_0000i64) != 0) == (((mods & 0x001E_0000i64) & 0x0008_0000i64) != 0))
        by (bit_vector);
}

/// Bare Command, as one comparison of the four standard modifier bits:
/// among Shift, Control, Option and Command, exactly Command is held.
pub proof fn lemma_bare_command_is_command_alone(mods: i64)
    ensures
        bare_command(mods) <==> mods & 0x001E_0000i64 == 0x0010_0000i64,
{
    assert((mods & 0x001E_0000i64 == 0x0010_0000i64) == (mods & 0x0010_0000i64 != 0 && mods
        & 0x0002_0000i64 == 0 && mods & 0x0004_0000i64 == 0 && mods & 0x0008_0000i64 == 0))
        by (bit_vector);
}

} // verus!
