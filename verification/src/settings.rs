//! What is kept between sessions: saved step lists, a library of regex
//! snippets, and the default normalisation options. The pipeline reads none
//! of it; reading and writing the settings file is the caller's work.

use crate::options::NormalizationOptions;
use vstd::prelude::*;

verus! {

/// `serde_json::Value`, a piece of structured data. It is carried along and
/// never looked into.
#[verifier::external_type_specification]
#[verifier::external_body]
pub struct ExJsonValue(serde_json::Value);

/// A named list of saved steps. The steps are kept as the structured data
/// they were saved as.
#[derive(Debug, Clone)]
pub struct Group {
    pub id: String,
    pub name: String,
    pub steps: Vec<serde_json::Value>,
}

/// A saved regex snippet.
#[derive(Debug, Clone)]
pub struct RegexDef {
    pub id: String,
    pub name: Option<String>,
    pub pattern: String,
    pub replacement: String,
    pub sample: Option<String>,
    pub tags: Vec<String>,
}

/// Everything that is saved.
#[derive(Debug, Clone)]
pub struct Settings {
    pub groups: Vec<Group>,
    pub ungrouped_steps: Vec<serde_json::Value>,
    pub active_group_id: Option<String>,
    pub regex_library: Vec<RegexDef>,
    pub normalization: NormalizationOptions,
}

impl Settings {
    /// Whether nothing is saved and every normalisation rule is switched on.
    pub open spec fn is_initial(&self) -> bool {
        &&& self.groups@.len() == 0
        &&& self.ungrouped_steps@.len() == 0
        &&& self.active_group_id is None
        &&& self.regex_library@.len() == 0
        &&& self.normalization == NormalizationOptions::all_enabled()
    }

    /// The settings of a first start, before anything was saved.
    pub fn initial() -> (settings: Settings)
        ensures
            settings.is_initial(),
    {
        Settings {
            groups: Vec::new(),
            ungrouped_steps: Vec::new(),
            active_group_id: None,
            regex_library: Vec::new(),
            normalization: NormalizationOptions::default(),
        }
    }
}

} // verus!
