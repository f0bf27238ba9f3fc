use vstd::prelude::*;

pub mod get_preset;

verus! {

#[derive(Clone, Debug, PartialEq, Default)]
pub struct ListPresets {
    pub name: Vec<String>,
}

/// The colour settings of one preset.
#[derive(Clone, Debug, PartialEq, Default)]
pub struct GetPreset {
    pub color_settings: Vec<get_preset::ColorSetting>,
}

/// The reply to a color-preset request: a listing of preset names, or the
/// settings of one preset.
#[derive(Clone, Debug, PartialEq)]
pub enum Response {
    ListPresets(ListPresets),
    GetPreset(GetPreset),
}

} // verus!
