//! The toggles of the normalisation pass.

use vstd::prelude::*;

verus! {

/// Seven independent switches, one for each punctuation rule of the
/// normalisation pass. Compatibility composition itself has no switch.
#[derive(Debug, Clone, Copy, PartialEq, Eq)]
pub struct NormalizationOptions {
    pub space: bool,
    pub wave_dash: bool,
    pub dash: bool,
    pub middle_dot: bool,
    pub brackets: bool,
    pub colon: bool,
    pub slash: bool,
}

impl NormalizationOptions {
    /// The options with every rule switched on.
    pub open spec fn all_enabled() -> NormalizationOptions {
        NormalizationOptions {
            space: true,
            wave_dash: true,
            dash: true,
            middle_dot: true,
            brackets: true,
            colon: true,
            slash: true,
        }
    }
}

impl Default for NormalizationOptions {
    fn default() -> (options: NormalizationOptions)
        ensures
            options == NormalizationOptions::all_enabled(),
    {
        NormalizationOptions {
            space: true,
            wave_dash: true,
            dash: true,
            middle_dot: true,
            brackets: true,
            colon: true,
            slash: true,
        }
    }
}

} // verus!
