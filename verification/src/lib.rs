//! Batch file renaming: an ordered pipeline of regex substitutions and Unicode
//! normalisation passes over a file name's stem, and the decisions that turn a
//! list of paths into one rename result per file.

pub mod batch;
pub mod decision;
pub mod file_name;
pub mod normalize;
pub mod options;
pub mod path;
pub mod pattern;
pub mod pipeline;
pub mod result;
pub mod settings;
pub mod text;

pub use crate::batch::{execute_rename_files, BatchAction, RenameBatch};
pub use crate::decision::{conclude, decide, judge, RenameDecision};
pub use crate::file_name::split_file_name;
pub use crate::normalize::{apply_normalization, apply_punctuation_rules};
pub use crate::options::NormalizationOptions;
pub use crate::path::rename_destination;
pub use crate::pattern::{pattern_matches, substitute_matches};
pub use crate::pipeline::{apply_rename, apply_step, join_extension, RenameStep};
pub use crate::result::RenameResult;
pub use crate::settings::{Group, RegexDef, Settings};
