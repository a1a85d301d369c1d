//! A batch of renames as a state machine. The batch decides, file by file and
//! in input order, what is to be done; the caller carries out each rename on
//! disk and reports how it went. The batch itself never touches a file.

use crate::decision::{
    attempt_view, conclude, conclusion_spec, decide, decision_spec, invalid_path_message,
    lemma_uncompilable_pattern_is_reported, name_unchanged_message, DecisionView, RenameDecision,
};
use crate::file_name::{extension_of, stem_of};
use crate::options::NormalizationOptions;
use crate::path::{base_name, destination_spec, file_name, rename_destination};
use crate::pattern::{compile_outcome, error_message};
use crate::pipeline::{pipeline_spec, rename_spec, steps_view, RenameStep, StepView};
use crate::result::{failure_spec, success_spec, RenameResult, RenameResultView};
use vstd::prelude::*;

verus! {

/// A rename that was handed to the caller and is not answered yet.
struct PendingRename {
    old_name: String,
    new_name: String,
    from: String,
    to: String,
}

/// A pending rename as a mathematical value.
pub struct PendingView {
    pub old_name: Seq<char>,
    pub new_name: Seq<char>,
    pub from: Seq<char>,
    pub to: Seq<char>,
}

impl View for PendingRename {
    type V = PendingView;

    closed spec fn view(&self) -> PendingView {
        PendingView {
            old_name: self.old_name@,
            new_name: self.new_name@,
            from: self.from@,
            to: self.to@,
        }
    }
}

/// What the caller is to do next.
#[derive(Debug, Clone, PartialEq, Eq)]
pub enum BatchAction {
    /// Rename the file at `from` to `to` and report the outcome.
    Rename { from: String, to: String },
    /// Every file has its result.
    Finished,
}

/// An action as a mathematical value.
pub enum ActionView {
    Rename { from: Seq<char>, to: Seq<char> },
    Finished,
}

impl View for BatchAction {
    type V = ActionView;

    open spec fn view(&self) -> ActionView {
        match self {
            BatchAction::Rename { from, to } => ActionView::Rename { from: from@, to: to@ },
            BatchAction::Finished => ActionView::Finished,
        }
    }
}

/// The texts of a list of strings, in list order.
pub open spec fn texts(list: Seq<String>) -> Seq<Seq<char>> {
    list.map_values(|text: String| text@)
}

/// The results of a list as mathematical values, in list order.
pub open spec fn results_view(results: Seq<RenameResult>) -> Seq<RenameResultView> {
    results.map_values(|result: RenameResult| result@)
}

/// The decision for the file at `file_path`: the decision for the base name
/// that the path has, or for none where it has none.
pub open spec fn file_decision_spec(
    file_path: Seq<char>,
    steps: Seq<StepView>,
    options: NormalizationOptions,
) -> DecisionView {
    decision_spec(file_path, base_name(file_path), steps, options)
}

/// Whether `result` is the result that is settled for the file without a
/// rename on disk: the decision for the file is to report exactly this
/// result.
pub open spec fn settled_without_rename(
    file_path: Seq<char>,
    steps: Seq<StepView>,
    options: NormalizationOptions,
    result: RenameResultView,
) -> bool {
    file_decision_spec(file_path, steps, options) == (DecisionView::Report { result })
}

/// Whether `result` can be the result for the file. Where the decision for
/// the file is a report, it is that report. Where the decision is a rename,
/// it is the success with both names or a failure under the old name: which
/// of the two, and with what error, is for the file system to say.
pub open spec fn result_allowed(
    file_path: Seq<char>,
    steps: Seq<StepView>,
    options: NormalizationOptions,
    result: RenameResultView,
) -> bool {
    match file_decision_spec(file_path, steps, options) {
        DecisionView::Report { result: settled } => result == settled,
        DecisionView::Rename { old_name, new_name } => {
            ||| result == success_spec(old_name, new_name)
            ||| result.error is Some && result == failure_spec(old_name, result.error->0)
        },
    }
}

/// A batch as a mathematical value: the input, the results so far, and the
/// rename that waits for its outcome.
pub struct BatchView {
    pub files: Seq<Seq<char>>,
    pub steps: Seq<StepView>,
    pub options: NormalizationOptions,
    pub results: Seq<RenameResultView>,
    pub pending: Option<PendingView>,
}

impl BatchView {
    /// The results so far belong to the first files, one each and in input
    /// order, and a pending rename is the one that was decided for the next
    /// file, from its path to the new name in its directory.
    pub open spec fn well_formed(self) -> bool {
        &&& self.results.len() <= self.files.len()
        &&& forall|i: int|
            0 <= i < self.results.len() ==> {
                &&& (#[trigger] self.results[i]).well_formed()
                &&& result_allowed(self.files[i], self.steps, self.options, self.results[i])
            }
        &&& self.pending matches Some(pending) ==> {
            &&& self.results.len() < self.files.len()
            &&& pending.from == self.files[self.results.len() as int]
            &&& file_decision_spec(pending.from, self.steps, self.options)
                == (DecisionView::Rename {
                old_name: pending.old_name,
                new_name: pending.new_name,
            })
            &&& pending.to == destination_spec(pending.from, pending.new_name)
        }
    }

    /// Every file has its result.
    pub open spec fn finished(self) -> bool {
        self.pending is None && self.results.len() == self.files.len()
    }

    /// The same input as `other`.
    pub open spec fn same_input(self, other: BatchView) -> bool {
        self.files == other.files && self.steps == other.steps && self.options == other.options
    }
}

/// In a well-formed batch the results so far are one for each of the first
/// files, in input order; a rename is pending only for a name that differs
/// from the old one; and a finished batch has one result for every file.
pub proof fn lemma_results_follow_input(batch: BatchView)
    requires
        batch.well_formed(),
    ensures
        batch.results.len() <= batch.files.len(),
        batch.finished() ==> batch.results.len() == batch.files.len(),
        forall|i: int|
            0 <= i < batch.results.len() ==> result_allowed(
                batch.files[i],
                batch.steps,
                batch.options,
                #[trigger] batch.results[i],
            ),
        batch.pending matches Some(pending) ==> pending.new_name != pending.old_name,
{
}

/// A file whose path has no base name gets the result that says so, under
/// the path itself.
pub proof fn lemma_path_without_name_is_invalid(
    file_path: Seq<char>,
    steps: Seq<StepView>,
    options: NormalizationOptions,
    result: RenameResultView,
)
    requires
        result_allowed(file_path, steps, options, result),
        base_name(file_path) is None,
    ensures
        result == failure_spec(file_path, invalid_path_message()),
{
}

/// A file whose computed name is the name it has never gets a rename: its
/// result is the failure that says so.
pub proof fn lemma_unchanged_name_gets_no_rename(
    file_path: Seq<char>,
    steps: Seq<StepView>,
    options: NormalizationOptions,
    result: RenameResultView,
)
    requires
        result_allowed(file_path, steps, options, result),
        base_name(file_path) is Some,
        rename_spec(
            stem_of(base_name(file_path)->0),
            extension_of(base_name(file_path)->0),
            steps,
            options,
        ) == Ok::<Seq<char>, Seq<char>>(base_name(file_path)->0),
    ensures
        file_decision_spec(file_path, steps, options) is Report,
        result == failure_spec(base_name(file_path)->0, name_unchanged_message()),
{
}

/// A file whose pipeline reaches a regex step with a pattern that does not
/// compile never gets a rename: its result is the failure with the compile
/// error's message.
pub proof fn lemma_uncompilable_pattern_fails_file(
    file_path: Seq<char>,
    steps: Seq<StepView>,
    options: NormalizationOptions,
    result: RenameResultView,
    at: int,
)
    requires
        result_allowed(file_path, steps, options, result),
        base_name(file_path) is Some,
        0 <= at < steps.len(),
        steps[at] is Regex,
        compile_outcome(steps[at]->pattern) is Err,
        pipeline_spec(stem_of(base_name(file_path)->0), steps.take(at), options) is Ok,
    ensures
        file_decision_spec(file_path, steps, options) is Report,
        result == failure_spec(
            base_name(file_path)->0,
            error_message(compile_outcome(steps[at]->pattern)->Err_0),
        ),
{
    lemma_uncompilable_pattern_is_reported(
        file_path,
        base_name(file_path)->0,
        steps,
        options,
        at,
    );
}

/// A batch of files to rename with one list of steps.
pub struct RenameBatch {
    files: Vec<String>,
    steps: Vec<RenameStep>,
    normalization: NormalizationOptions,
    results: Vec<RenameResult>,
    pending: Option<PendingRename>,
}

impl View for RenameBatch {
    type V = BatchView;

    closed spec fn view(&self) -> BatchView {
        BatchView {
            files: texts(self.files@),
            steps: steps_view(self.steps@),
            options: self.normalization,
            results: results_view(self.results@),
            pending: match self.pending {
                Some(pending) => Some(pending@),
                None => None,
            },
        }
    }
}

impl RenameBatch {
    /// A batch over `files` in which no file has been looked at yet.
    pub fn new(
        files: Vec<String>,
        steps: Vec<RenameStep>,
        normalization: NormalizationOptions,
    ) -> (batch: RenameBatch)
        ensures
            batch@ == (BatchView {
                files: texts(files@),
                steps: steps_view(steps@),
                options: normalization,
                results: Seq::empty(),
                pending: None,
            }),
            batch@.well_formed(),
    {
        let batch = RenameBatch { files, steps, normalization, results: Vec::new(), pending: None };
        assert(batch@.results =~= Seq::empty());
        batch
    }

    /// Whether every file has its result.
    pub fn is_finished(&self) -> (finished: bool)
        ensures
            finished == self@.finished(),
    {
        self.pending.is_none() && self.results.len() == self.files.len()
    }

    /// The results so far, in input order.
    pub fn results(&self) -> (results: &Vec<RenameResult>)
        ensures
            results_view(results@) == self@.results,
    {
        &self.results
    }

    /// Ends the batch and hands out its results. Of a finished batch these
    /// are as many as there were files, the result at each position being
    /// one for the file at that position.
    pub fn into_results(self) -> (results: Vec<RenameResult>)
        requires
            self@.well_formed(),
        ensures
            results_view(results@) == self@.results,
            results@.len() <= self@.files.len(),
            self@.finished() ==> results@.len() == self@.files.len(),
            forall|i: int|
                0 <= i < results@.len() ==> {
                    &&& (#[trigger] results@[i])@.well_formed()
                    &&& result_allowed(self@.files[i], self@.steps, self@.options, results@[i]@)
                },
    {
        proof {
            assert forall|i: int| 0 <= i < self.results@.len() implies {
                &&& (#[trigger] self.results@[i])@.well_formed()
                &&& result_allowed(self@.files[i], self@.steps, self@.options, self.results@[i]@)
            } by {
                assert(self@.results[i] == self.results@[i]@);
            }
        }
        self.results
    }

    /// Moves on to the next thing the caller has to do. Files whose result
    /// needs no rename on disk are settled on the way, in input order, up to
    /// the first file that is to be renamed: that rename is handed out, from
    /// the file's path to its new name in the same directory. While a rename
    /// waits for its outcome the batch stays as it is and names that rename
    /// again.
    pub fn next_action(&mut self) -> (action: BatchAction)
        requires
            old(self)@.well_formed(),
        ensures
            final(self)@.well_formed(),
            final(self)@.same_input(old(self)@),
            old(self)@.pending matches Some(pending) ==> final(self)@ == old(self)@ && action@ == (
            ActionView::Rename { from: pending.from, to: pending.to }),
            old(self)@.pending is None ==> {
                &&& old(self)@.results.len() <= final(self)@.results.len()
                &&& final(self)@.results.take(old(self)@.results.len() as int) == old(
                    self,
                )@.results
                &&& forall|i: int|
                    old(self)@.results.len() <= i < final(self)@.results.len()
                        ==> settled_without_rename(
                        final(self)@.files[i],
                        final(self)@.steps,
                        final(self)@.options,
                        #[trigger] final(self)@.results[i],
                    )
                &&& match action@ {
                    ActionView::Finished => final(self)@.finished(),
                    ActionView::Rename { from, to } => final(self)@.pending matches Some(pending)
                        && pending.from == from && pending.to == to,
                }
            },
            action@ matches ActionView::Rename { from, to } ==> {
                &&& from == final(self)@.files[final(self)@.results.len() as int]
                &&& file_decision_spec(from, final(self)@.steps, final(self)@.options) is Rename
                &&& to == destination_spec(
                    from,
                    file_decision_spec(from, final(self)@.steps, final(self)@.options)->new_name,
                )
            },
    {
        if let Some(pending) = &self.pending {
            return BatchAction::Rename { from: pending.from.clone(), to: pending.to.clone() };
        }
        let ghost start = self@;
        while self.results.len() < self.files.len()
            invariant
                start == old(self)@,
                start.pending is None,
                self.pending is None,
                self@.well_formed(),
                self@.same_input(start),
                start.results.len() <= self@.results.len(),
                self@.results.take(start.results.len() as int) == start.results,
                forall|i: int|
                    start.results.len() <= i < self@.results.len() ==> settled_without_rename(
                        self@.files[i],
                        self@.steps,
                        self@.options,
                        #[trigger] self@.results[i],
                    ),
            decreases self.files.len() - self.results.len(),
        {
            let index = self.results.len();
            let ghost before = self@;
            let name = file_name(self.files[index].as_str());
            let decision = decide(
                self.files[index].as_str(),
                name,
                self.steps.as_slice(),
                self.normalization,
            );
            match decision {
                RenameDecision::Report { result } => {
                    let ghost settled = result@;
                    self.results.push(result);
                    proof {
                        assert(self@.results =~= before.results.push(settled));
                        assert(self@.results.take(start.results.len() as int)
                            =~= before.results.take(start.results.len() as int));
                        assert(settled_without_rename(
                            before.files[index as int],
                            before.steps,
                            before.options,
                            settled,
                        ));
                    }
                },
                RenameDecision::Rename { old_name, new_name } => {
                    let to = rename_destination(self.files[index].as_str(), new_name.as_str());
                    let from = self.files[index].clone();
                    let action = BatchAction::Rename { from: from.clone(), to: to.clone() };
                    self.pending = Some(PendingRename { old_name, new_name, from, to });
                    return action;
                },
            }
        }
        BatchAction::Finished
    }

    /// Takes the outcome of the rename that the batch last handed out and
    /// turns it into that file's result. Without a pending rename there is
    /// nothing to record and the batch stays as it is.
    pub fn record_outcome(&mut self, outcome: Result<(), String>)
        requires
            old(self)@.well_formed(),
        ensures
            final(self)@.well_formed(),
            final(self)@.same_input(old(self)@),
            match old(self)@.pending {
                None => final(self)@ == old(self)@,
                Some(pending) => final(self)@.pending is None && final(self)@.results == old(
                    self,
                )@.results.push(
                    conclusion_spec(pending.old_name, pending.new_name, attempt_view(outcome)),
                ),
            },
    {
        let ghost before = self@;
        match self.pending.take() {
            None => {
                assert(self@ == before);
            },
            Some(pending) => {
                let ghost concluded = conclusion_spec(
                    pending.old_name@,
                    pending.new_name@,
                    attempt_view(outcome),
                );
                let result = conclude(pending.old_name, pending.new_name, outcome);
                self.results.push(result);
                proof {
                    assert(self@.results =~= before.results.push(concluded));
                    let file = before.files[before.results.len() as int];
                    assert(result_allowed(file, before.steps, before.options, concluded));
                }
            },
        }
    }
}

/// Whether `result` is the result for the file in a batch that is carried
/// out through `rename`. Where the decision for the file is a report, it is
/// that report. Where the decision is a rename, it is the conclusion of an
/// answer that `rename` gave when it was called with the file's path and the
/// new name in the file's directory.
pub open spec fn result_through<F: Fn(&str, &str) -> Result<(), String>>(
    rename: F,
    file_path: Seq<char>,
    steps: Seq<StepView>,
    options: NormalizationOptions,
    result: RenameResultView,
) -> bool {
    match file_decision_spec(file_path, steps, options) {
        DecisionView::Report { result: settled } => result == settled,
        DecisionView::Rename { old_name, new_name } => exists|
            from: &str,
            to: &str,
            outcome: Result<(), String>,
        |
            {
                &&& from@ == file_path
                &&& to@ == destination_spec(file_path, new_name)
                &&& #[trigger] call_ensures(rename, (from, to), outcome)
                &&& result == conclusion_spec(old_name, new_name, attempt_view(outcome))
            },
    }
}

/// A result that came about through some rename function is one that the
/// file can have.
pub proof fn lemma_result_through_is_allowed<F: Fn(&str, &str) -> Result<(), String>>(
    rename: F,
    file_path: Seq<char>,
    steps: Seq<StepView>,
    options: NormalizationOptions,
    result: RenameResultView,
)
    requires
        result_through(rename, file_path, steps, options, result),
    ensures
        result_allowed(file_path, steps, options, result),
{
}

/// Renames the files one at a time, in input order. `rename` is the file
/// system's rename, from one path to another, with its error as text. It is
/// called for each file that is to be renamed, with the file's path and its
/// new name in the same directory, and what it answers becomes that file's
/// result. The list that comes back holds one result for every file, at the
/// file's position, whatever `rename` answers.
pub fn execute_rename_files<F>(
    files: Vec<String>,
    steps: Vec<RenameStep>,
    normalization: NormalizationOptions,
    rename: F,
) -> (results: Vec<RenameResult>) where F: Fn(&str, &str) -> Result<(), String>
    requires
        forall|from: &str, to: &str| call_requires(rename, (from, to)),
    ensures
        results@.len() == files@.len(),
        forall|i: int|
            0 <= i < results@.len() ==> {
                &&& (#[trigger] results@[i])@.well_formed()
                &&& result_through(
                    rename,
                    texts(files@)[i],
                    steps_view(steps@),
                    normalization,
                    results@[i]@,
                )
            },
{
    let mut batch = RenameBatch::new(files, steps, normalization);
    let ghost input = batch@;
    loop
        invariant
            batch@.well_formed(),
            batch@.same_input(input),
            batch@.pending is None,
            forall|from: &str, to: &str| call_requires(rename, (from, to)),
            forall|i: int|
                0 <= i < batch@.results.len() ==> result_through(
                    rename,
                    input.files[i],
                    input.steps,
                    input.options,
                    #[trigger] batch@.results[i],
                ),
        ensures
            batch@.well_formed(),
            batch@.same_input(input),
            batch@.finished(),
            forall|i: int|
                0 <= i < batch@.results.len() ==> result_through(
                    rename,
                    input.files[i],
                    input.steps,
                    input.options,
                    #[trigger] batch@.results[i],
                ),
        decreases batch@.files.len() - batch@.results.len(),
    {
        let ghost before = batch@;
        let action = batch.next_action();
        let ghost settled = batch@;
        proof {
            assert forall|i: int| 0 <= i < settled.results.len() implies result_through(
                rename,
                input.files[i],
                input.steps,
                input.options,
                #[trigger] settled.results[i],
            ) by {
                if i < before.results.len() {
                    assert(settled.results.take(before.results.len() as int)[i]
                        == settled.results[i]);
                }
            }
        }
        match action {
            BatchAction::Rename { from, to } => {
                let source = from.as_str();
                let target = to.as_str();
                let outcome = rename(source, target);
                let ghost answer = outcome;
                batch.record_outcome(outcome);
                proof {
                    let at = settled.results.len() as int;
                    assert(call_ensures(rename, (source, target), answer));
                    assert(result_through(
                        rename,
                        input.files[at],
                        input.steps,
                        input.options,
                        batch@.results[at],
                    ));
                }
            },
            BatchAction::Finished => {
                break ;
            },
        }
    }
    let ghost done = batch@;
    let results = batch.into_results();
    proof {
        assert forall|i: int| 0 <= i < results@.len() implies result_through(
            rename,
            texts(files@)[i],
            steps_view(steps@),
            normalization,
            (#[trigger] results@[i])@,
        ) by {
            assert(done.results[i] == results@[i]@);
        }
    }
    results
}

} // verus!
