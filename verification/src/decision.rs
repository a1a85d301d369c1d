//! What to do with one file: report a result at once, or try a rename and
//! report how it went.

use crate::file_name::{extension_of, split_file_name, stem_of};
use crate::options::NormalizationOptions;
use crate::pattern::{compile_outcome, error_message, outcome_view};
use crate::pipeline::{
    apply_rename, lemma_uncompilable_pattern_fails, pipeline_spec, rename_spec, steps_view,
    RenameStep, StepView,
};
use crate::result::{failure_spec, optional_text, success_spec, RenameResult, RenameResultView};
use vstd::prelude::*;

verus! {

/// The decision for one file.
#[derive(Debug, Clone, PartialEq, Eq)]
pub enum RenameDecision {
    /// Nothing is to be done on disk: the result is already known.
    Report { result: RenameResult },
    /// The file is to be renamed from `old_name` to `new_name`, both base
    /// names in the file's directory.
    Rename { old_name: String, new_name: String },
}

/// A decision as a mathematical value.
pub enum DecisionView {
    Report { result: RenameResultView },
    Rename { old_name: Seq<char>, new_name: Seq<char> },
}

impl View for RenameDecision {
    type V = DecisionView;

    open spec fn view(&self) -> DecisionView {
        match self {
            RenameDecision::Report { result } => DecisionView::Report { result: result@ },
            RenameDecision::Rename { old_name, new_name } => DecisionView::Rename {
                old_name: old_name@,
                new_name: new_name@,
            },
        }
    }
}

/// The error reported for a path without a base name.
pub open spec fn invalid_path_message() -> Seq<char> {
    "Invalid file path"@
}

/// The error reported for a file whose computed name is the name it has.
pub open spec fn name_unchanged_message() -> Seq<char> {
    "Name unchanged"@
}

/// The decision for a file with base name `old_name`, once the pipeline has
/// run: a pipeline error is reported as it is, a name equal to the old one is
/// reported as unchanged, and only a different name leads to a rename.
pub open spec fn judgement_spec(
    old_name: Seq<char>,
    computed: Result<Seq<char>, Seq<char>>,
) -> DecisionView {
    match computed {
        Err(message) => DecisionView::Report { result: failure_spec(old_name, message) },
        Ok(new_name) => if new_name == old_name {
            DecisionView::Report { result: failure_spec(old_name, name_unchanged_message()) }
        } else {
            DecisionView::Rename { old_name, new_name }
        },
    }
}

/// The decision for the file at `file_path`, given the base name that was
/// found in the path. A path without a base name is reported as invalid under
/// the path itself; otherwise the pipeline runs on the base name's stem and
/// extension and its outcome is judged.
pub open spec fn decision_spec(
    file_path: Seq<char>,
    name: Option<Seq<char>>,
    steps: Seq<StepView>,
    options: NormalizationOptions,
) -> DecisionView {
    match name {
        None => DecisionView::Report { result: failure_spec(file_path, invalid_path_message()) },
        Some(old_name) => judgement_spec(
            old_name,
            rename_spec(stem_of(old_name), extension_of(old_name), steps, options),
        ),
    }
}

/// A rename's outcome as the file system reported it, with the error as text.
pub open spec fn attempt_view(outcome: Result<(), String>) -> Result<(), Seq<char>> {
    match outcome {
        Ok(_) => Ok(()),
        Err(message) => Err(message@),
    }
}

/// The result of a rename that was tried: a success with both names, or a
/// failure with the file system's error.
pub open spec fn conclusion_spec(
    old_name: Seq<char>,
    new_name: Seq<char>,
    outcome: Result<(), Seq<char>>,
) -> RenameResultView {
    match outcome {
        Ok(_) => success_spec(old_name, new_name),
        Err(message) => failure_spec(old_name, message),
    }
}

/// A file whose computed name is the name it has is reported as unchanged,
/// and no rename is decided for it.
pub proof fn lemma_unchanged_name_is_reported(
    file_path: Seq<char>,
    old_name: Seq<char>,
    steps: Seq<StepView>,
    options: NormalizationOptions,
)
    requires
        rename_spec(stem_of(old_name), extension_of(old_name), steps, options) == Ok::<
            Seq<char>,
            Seq<char>,
        >(old_name),
    ensures
        decision_spec(file_path, Some(old_name), steps, options) == (DecisionView::Report {
            result: failure_spec(old_name, name_unchanged_message()),
        }),
        !failure_spec(old_name, name_unchanged_message()).success,
{
}

/// A rename is decided only for a name that differs from the old one, and
/// only where the pipeline computed that name.
pub proof fn lemma_rename_needs_new_name(
    file_path: Seq<char>,
    name: Option<Seq<char>>,
    steps: Seq<StepView>,
    options: NormalizationOptions,
)
    requires
        decision_spec(file_path, name, steps, options) is Rename,
    ensures
        name == Some(decision_spec(file_path, name, steps, options)->old_name),
        decision_spec(file_path, name, steps, options)->new_name != decision_spec(
            file_path,
            name,
            steps,
            options,
        )->old_name,
        rename_spec(stem_of(name->0), extension_of(name->0), steps, options) == Ok::<
            Seq<char>,
            Seq<char>,
        >(decision_spec(file_path, name, steps, options)->new_name),
{
}

/// A file whose pipeline reaches a regex step with a pattern that does not
/// compile is reported as failed, with the compile error's message.
pub proof fn lemma_uncompilable_pattern_is_reported(
    file_path: Seq<char>,
    old_name: Seq<char>,
    steps: Seq<StepView>,
    options: NormalizationOptions,
    at: int,
)
    requires
        0 <= at < steps.len(),
        steps[at] is Regex,
        compile_outcome(steps[at]->pattern) is Err,
        pipeline_spec(stem_of(old_name), steps.take(at), options) is Ok,
    ensures
        decision_spec(file_path, Some(old_name), steps, options) == (DecisionView::Report {
            result: failure_spec(
                old_name,
                error_message(compile_outcome(steps[at]->pattern)->Err_0),
            ),
        }),
{
    lemma_uncompilable_pattern_fails(stem_of(old_name), steps, options, at);
}

/// Judges the pipeline's outcome for a file with base name `old_name`.
pub fn judge(old_name: String, computed: Result<String, String>) -> (decision: RenameDecision)
    ensures
        decision@ == judgement_spec(old_name@, outcome_view(computed)),
        decision matches RenameDecision::Report { result } ==> result@.well_formed(),
{
    match computed {
        Err(message) => RenameDecision::Report { result: RenameResult::failed(old_name, message) },
        Ok(new_name) => {
            if new_name == old_name {
                RenameDecision::Report {
                    result: RenameResult::failed(old_name, "Name unchanged".to_owned()),
                }
            } else {
                RenameDecision::Rename { old_name, new_name }
            }
        },
    }
}

/// Decides what to do with the file at `file_path`, whose base name is
/// `name` (`None` where the path has none).
pub fn decide(
    file_path: &str,
    name: Option<String>,
    steps: &[RenameStep],
    normalization: NormalizationOptions,
) -> (decision: RenameDecision)
    ensures
        decision@ == decision_spec(
            file_path@,
            optional_text(name),
            steps_view(steps@),
            normalization,
        ),
        decision matches RenameDecision::Report { result } ==> result@.well_formed(),
{
    match name {
        None => RenameDecision::Report {
            result: RenameResult::failed(file_path.to_owned(), "Invalid file path".to_owned()),
        },
        Some(old_name) => {
            let (stem, extension) = split_file_name(old_name.as_str());
            let computed = apply_rename(stem.as_str(), extension.as_str(), steps, normalization);
            judge(old_name, computed)
        },
    }
}

/// Turns the outcome of a rename that was tried into the file's result.
pub fn conclude(
    old_name: String,
    new_name: String,
    outcome: Result<(), String>,
) -> (result: RenameResult)
    ensures
        result@ == conclusion_spec(old_name@, new_name@, attempt_view(outcome)),
        result@.well_formed(),
{
    match outcome {
        Ok(_) => RenameResult::renamed(old_name, new_name),
        Err(message) => RenameResult::failed(old_name, message),
    }
}

} // verus!
