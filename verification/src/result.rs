//! The outcome reported for one file of a batch.

use vstd::prelude::*;

verus! {

/// What happened to one file: either it was renamed and `new_name` says to
/// what, or it was not and `error` says why. `old_name` is the file's base
/// name, without its directory.
#[derive(Debug, Clone, PartialEq, Eq)]
pub struct RenameResult {
    pub success: bool,
    pub old_name: String,
    pub new_name: Option<String>,
    pub error: Option<String>,
}

/// A result as a mathematical value.
pub struct RenameResultView {
    pub success: bool,
    pub old_name: Seq<char>,
    pub new_name: Option<Seq<char>>,
    pub error: Option<Seq<char>>,
}

impl RenameResultView {
    /// Exactly one of `new_name` and `error` is there, and `success` says
    /// which: the new name after a success, the error after a failure.
    pub open spec fn well_formed(self) -> bool {
        &&& self.success <==> self.new_name is Some
        &&& self.success <==> self.error is None
    }
}

/// The text of an optional string.
pub open spec fn optional_text(text: Option<String>) -> Option<Seq<char>> {
    match text {
        Some(t) => Some(t@),
        None => None,
    }
}

impl View for RenameResult {
    type V = RenameResultView;

    open spec fn view(&self) -> RenameResultView {
        RenameResultView {
            success: self.success,
            old_name: self.old_name@,
            new_name: optional_text(self.new_name),
            error: optional_text(self.error),
        }
    }
}

/// The result of a rename that was carried out.
pub open spec fn success_spec(old_name: Seq<char>, new_name: Seq<char>) -> RenameResultView {
    RenameResultView { success: true, old_name, new_name: Some(new_name), error: None }
}

/// The result of a rename that was not carried out, with the reason.
pub open spec fn failure_spec(old_name: Seq<char>, error: Seq<char>) -> RenameResultView {
    RenameResultView { success: false, old_name, new_name: None, error: Some(error) }
}

impl RenameResult {
    /// The result for a file that now carries `new_name`.
    pub fn renamed(old_name: String, new_name: String) -> (result: RenameResult)
        ensures
            result@ == success_spec(old_name@, new_name@),
            result@.well_formed(),
    {
        RenameResult { success: true, old_name, new_name: Some(new_name), error: None }
    }

    /// The result for a file that keeps its name, with the reason.
    pub fn failed(old_name: String, error: String) -> (result: RenameResult)
        ensures
            result@ == failure_spec(old_name@, error@),
            result@.well_formed(),
    {
        RenameResult { success: false, old_name, new_name: None, error: Some(error) }
    }
}

} // verus!
