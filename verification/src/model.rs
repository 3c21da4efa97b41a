use vstd::prelude::*;

verus! {

/// The hardware model a cartridge targets: the monochrome
/// Game Boy (DMG) or the Game Boy Color.
#[derive(Clone, Copy, Debug, PartialEq, Eq, Structural)]
pub enum ModelType {
    DMG,
    Color,
}

/// The model announced by a cartridge header: byte 0x0143 equal to 0xC0
/// marks a Color-only cartridge; anything else runs as DMG.
pub fn model_from_header_byte(cgb_flag: u8) -> (m: ModelType)
    ensures
        m == (if cgb_flag == 0xC0 { ModelType::Color } else { ModelType::DMG }),
{
    if cgb_flag == 0xC0 {
        ModelType::Color
    } else {
        ModelType::DMG
    }
}

} // verus!
