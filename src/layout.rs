use vstd::prelude::*;

verus! {

/// Which physical keys drive the left movement channel.
#[derive(Clone, Copy, Debug, PartialEq, Eq, Structural)]
pub enum KeyboardLayout {
    /// The left channel is the A key (or the left arrow).
    Primary,
    /// The left channel is the Q key (or the left arrow), as on French-style keyboards.
    Alternate,
}

/// The language identifiers (low 16 bits of a layout handle) that use the
/// alternate mapping: French, Belgian French, Luxembourgish French and
/// Monegasque French.
pub open spec fn alternate_language(lang: u32) -> bool {
    lang == 0x040C || lang == 0x080C || lang == 0x140C || lang == 0x180C
}

/// The layout that a keyboard layout identifier selects.
pub open spec fn layout_of(layout_id: u32) -> KeyboardLayout {
    if alternate_language((layout_id % 0x10000) as u32) {
        KeyboardLayout::Alternate
    } else {
        KeyboardLayout::Primary
    }
}

/// Whether the keyboard layout identifier `layout_id` (a layout handle
/// truncated to 32 bits) selects the alternate mapping: exactly when its low
/// 16 bits are one of the four alternate language identifiers.
pub fn is_azerty_layout(layout_id: u32) -> (r: bool)
    ensures
        r == alternate_language((layout_id % 0x10000) as u32),
{
    let lang: u32 = layout_id & 0xFFFF;
    assert(layout_id & 0xFFFF == layout_id % 0x10000) by (bit_vector);
    lang == 0x040C || lang == 0x080C || lang == 0x140C || lang == 0x180C
}

/// The layout for a keyboard layout identifier, resolved once at startup.
pub fn layout_from_id(layout_id: u32) -> (r: KeyboardLayout)
    ensures
        r == layout_of(layout_id),
{
    if is_azerty_layout(layout_id) {
        KeyboardLayout::Alternate
    } else {
        KeyboardLayout::Primary
    }
}

} // verus!
