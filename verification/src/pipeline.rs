//! The rename pipeline: an ordered list of steps folded over a file name's
//! stem, with the extension joined back on at the end.

use crate::normalize::{apply_normalization, normalize_spec};
use crate::options::NormalizationOptions;
use crate::pattern::{
    compile_outcome, error_message, has_match, outcome_view, substitute_matches,
    substitution_spec,
};
use vstd::prelude::*;
use vstd::string::StringExecFns;

verus! {

/// One transformation of the pipeline.
#[derive(Debug, Clone, PartialEq, Eq)]
pub enum RenameStep {
    /// Replace every match of `pattern` by `replacement`.
    Regex { pattern: String, replacement: String },
    /// Run the normalisation pass.
    Normalize,
}

/// A step as a mathematical value.
pub enum StepView {
    Regex { pattern: Seq<char>, replacement: Seq<char> },
    Normalize,
}

impl View for RenameStep {
    type V = StepView;

    open spec fn view(&self) -> StepView {
        match self {
            RenameStep::Regex { pattern, replacement } => StepView::Regex {
                pattern: pattern@,
                replacement: replacement@,
            },
            RenameStep::Normalize => StepView::Normalize,
        }
    }
}

/// The steps of a list as mathematical values, in list order.
pub open spec fn steps_view(steps: Seq<RenameStep>) -> Seq<StepView> {
    steps.map_values(|s: RenameStep| s@)
}

/// What one step makes of a text: the new text, or the message of the error
/// that stopped it. Only a regex step whose pattern does not compile fails.
pub open spec fn step_spec(
    text: Seq<char>,
    step: StepView,
    options: NormalizationOptions,
) -> Result<Seq<char>, Seq<char>> {
    match step {
        StepView::Normalize => Ok(normalize_spec(text, options)),
        StepView::Regex { pattern, replacement } => substitution_spec(pattern, text, replacement),
    }
}

/// The steps folded over the text from first to last: each step works on the
/// output of the one before, and the first failure ends the fold with its
/// error.
pub open spec fn pipeline_spec(
    text: Seq<char>,
    steps: Seq<StepView>,
    options: NormalizationOptions,
) -> Result<Seq<char>, Seq<char>>
    decreases steps.len(),
{
    if steps.len() == 0 {
        Ok(text)
    } else {
        match pipeline_spec(text, steps.drop_last(), options) {
            Ok(before) => step_spec(before, steps.last(), options),
            Err(message) => Err(message),
        }
    }
}

/// A stem with its extension: joined by exactly one dot where there is an
/// extension, the stem alone where there is none.
pub open spec fn with_extension(stem: Seq<char>, extension: Seq<char>) -> Seq<char> {
    if extension.len() == 0 {
        stem
    } else {
        stem + seq!['.'] + extension
    }
}

/// The new file name for a stem and an extension: the pipeline's output with
/// the extension joined on, or the pipeline's error.
pub open spec fn rename_spec(
    stem: Seq<char>,
    extension: Seq<char>,
    steps: Seq<StepView>,
    options: NormalizationOptions,
) -> Result<Seq<char>, Seq<char>> {
    match pipeline_spec(stem, steps, options) {
        Ok(renamed) => Ok(with_extension(renamed, extension)),
        Err(message) => Err(message),
    }
}

/// A failure at some prefix of the steps is the failure of the whole list.
pub proof fn lemma_failure_persists(
    text: Seq<char>,
    steps: Seq<StepView>,
    options: NormalizationOptions,
    reached: int,
)
    requires
        0 <= reached <= steps.len(),
        pipeline_spec(text, steps.take(reached), options) is Err,
    ensures
        pipeline_spec(text, steps, options) == pipeline_spec(text, steps.take(reached), options),
    decreases steps.len(),
{
    if reached == steps.len() {
        assert(steps.take(reached) == steps);
    } else {
        assert(steps.drop_last().take(reached) == steps.take(reached));
        lemma_failure_persists(text, steps.drop_last(), options, reached);
    }
}

/// An empty extension adds nothing to the stem, not even a dot; any other
/// extension follows the stem after exactly one dot.
pub proof fn lemma_extension_joined_by_one_dot(stem: Seq<char>, extension: Seq<char>)
    ensures
        extension.len() == 0 ==> with_extension(stem, extension) == stem,
        extension.len() > 0 ==> {
            let name = with_extension(stem, extension);
            &&& name.len() == stem.len() + 1 + extension.len()
            &&& name.take(stem.len() as int) == stem
            &&& name[stem.len() as int] == '.'
            &&& name.skip(stem.len() as int + 1) == extension
        },
{
    if extension.len() > 0 {
        let name = with_extension(stem, extension);
        assert(name.take(stem.len() as int) =~= stem);
        assert(name.skip(stem.len() as int + 1) =~= extension);
    }
}

/// A single regex step whose pattern compiles and matches nowhere in the stem
/// changes nothing: the new name is the stem with its extension.
pub proof fn lemma_unmatched_pattern_keeps_name(
    stem: Seq<char>,
    extension: Seq<char>,
    pattern: Seq<char>,
    replacement: Seq<char>,
    options: NormalizationOptions,
)
    requires
        compile_outcome(pattern) is Ok,
        !has_match(compile_outcome(pattern)->Ok_0, stem),
    ensures
        rename_spec(stem, extension, seq![StepView::Regex { pattern, replacement }], options)
            == Ok::<Seq<char>, Seq<char>>(with_extension(stem, extension)),
{
    lemma_single_step(stem, StepView::Regex { pattern, replacement }, options);
}

/// Steps compose from left to right: running one list and then another on
/// its output is running the two lists joined, and a failure in the first
/// list is the failure of the joined list.
pub proof fn lemma_pipeline_composes(
    text: Seq<char>,
    first: Seq<StepView>,
    second: Seq<StepView>,
    options: NormalizationOptions,
)
    ensures
        pipeline_spec(text, first + second, options) == match pipeline_spec(text, first, options) {
            Ok(between) => pipeline_spec(between, second, options),
            Err(message) => Err(message),
        },
    decreases second.len(),
{
    if second.len() == 0 {
        assert(first + second == first);
    } else {
        assert((first + second).drop_last() == first + second.drop_last());
        assert((first + second).last() == second.last());
        lemma_pipeline_composes(text, first, second.drop_last(), options);
    }
}

/// A list of one step does what the step does.
pub proof fn lemma_single_step(text: Seq<char>, step: StepView, options: NormalizationOptions)
    ensures
        pipeline_spec(text, seq![step], options) == step_spec(text, step, options),
{
    let steps = seq![step];
    assert(steps.drop_last().len() == 0);
    assert(pipeline_spec(text, steps.drop_last(), options) == Ok::<Seq<char>, Seq<char>>(text));
    assert(steps.last() == step);
}

/// Two steps in a row: the second works on what the first made of the text.
pub proof fn lemma_two_steps_compose(
    text: Seq<char>,
    first: StepView,
    second: StepView,
    options: NormalizationOptions,
)
    ensures
        pipeline_spec(text, seq![first, second], options) == match step_spec(text, first, options) {
            Ok(between) => step_spec(between, second, options),
            Err(message) => Err(message),
        },
{
    assert(seq![first] + seq![second] =~= seq![first, second]);
    lemma_pipeline_composes(text, seq![first], seq![second], options);
    lemma_single_step(text, first, options);
    match step_spec(text, first, options) {
        Ok(between) => {
            lemma_single_step(between, second, options);
        },
        Err(_) => {},
    }
}

/// A regex step whose pattern does not compile fails the pipeline with the
/// compile error's message, whenever the steps before it succeed.
pub proof fn lemma_uncompilable_pattern_fails(
    text: Seq<char>,
    steps: Seq<StepView>,
    options: NormalizationOptions,
    at: int,
)
    requires
        0 <= at < steps.len(),
        steps[at] is Regex,
        compile_outcome(steps[at]->pattern) is Err,
        pipeline_spec(text, steps.take(at), options) is Ok,
    ensures
        pipeline_spec(text, steps, options) == Err::<Seq<char>, Seq<char>>(
            error_message(compile_outcome(steps[at]->pattern)->Err_0),
        ),
{
    let reached = steps.take(at + 1);
    assert(reached.drop_last() == steps.take(at));
    assert(reached.last() == steps[at]);
    lemma_failure_persists(text, steps, options, at + 1);
}

/// Applies one step to a text.
pub fn apply_step(
    text: &str,
    step: &RenameStep,
    normalization: NormalizationOptions,
) -> (out: Result<String, String>)
    ensures
        outcome_view(out) == step_spec(text@, step@, normalization),
{
    match step {
        RenameStep::Normalize => Ok(apply_normalization(text, normalization)),
        RenameStep::Regex { pattern, replacement } => substitute_matches(
            pattern.as_str(),
            text,
            replacement.as_str(),
        ),
    }
}

/// Joins a stem and an extension into a file name. An empty extension adds
/// nothing, not even a dot.
pub fn join_extension(stem: String, extension: &str) -> (name: String)
    ensures
        name@ == with_extension(stem@, extension@),
{
    if extension.is_empty() {
        stem
    } else {
        let mut name = stem;
        proof {
            reveal_strlit(".");
            assert("."@ =~= seq!['.']);
        }
        name.append(".");
        name.append(extension);
        name
    }
}

/// Runs the steps over `stem` in order and joins `ext` back on. The first
/// regex step whose pattern does not compile ends the run with the compile
/// error's message.
pub fn apply_rename(
    stem: &str,
    ext: &str,
    steps: &[RenameStep],
    normalization: NormalizationOptions,
) -> (out: Result<String, String>)
    ensures
        outcome_view(out) == rename_spec(stem@, ext@, steps_view(steps@), normalization),
{
    let mut current_name = stem.to_owned();
    let mut i: usize = 0;
    while i < steps.len()
        invariant
            i <= steps.len(),
            pipeline_spec(stem@, steps_view(steps@).take(i as int), normalization) == Ok::<
                Seq<char>,
                Seq<char>,
            >(current_name@),
        decreases steps.len() - i,
    {
        proof {
            let all = steps_view(steps@);
            assert(all.take(i + 1).drop_last() == all.take(i as int));
            assert(all.take(i + 1).last() == steps@[i as int]@);
        }
        match apply_step(current_name.as_str(), &steps[i], normalization) {
            Ok(next) => {
                current_name = next;
            },
            Err(message) => {
                proof {
                    lemma_failure_persists(stem@, steps_view(steps@), normalization, i + 1);
                }
                return Err(message);
            },
        }
        i += 1;
    }
    proof {
        let all = steps_view(steps@);
        assert(all.take(all.len() as int) == all);
    }
    Ok(join_extension(current_name, ext))
}

} // verus!
