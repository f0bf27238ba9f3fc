use vstd::prelude::*;

verus! {

/// One colour of a preset. The protocol sends each component as a 32-bit
/// float; here a component is that float's IEEE 754 bit pattern.
#[derive(Clone, Debug, PartialEq, Default)]
pub struct ColorSetting {
    pub red_bits: Option<u32>,
    pub green_bits: Option<u32>,
    pub blue_bits: Option<u32>,
    pub alpha_bits: Option<u32>,
    pub color_space: Option<String>,
    pub key: Option<String>,
}

} // verus!
