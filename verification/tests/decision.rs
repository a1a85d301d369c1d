use rename_pipeline::{pattern_matches, substitute_matches};
use rename_pipeline::{
    conclude, decide, judge, NormalizationOptions, RenameDecision, RenameResult, RenameStep,
};

fn regex_step(pattern: &str, replacement: &str) -> RenameStep {
    RenameStep::Regex { pattern: pattern.to_string(), replacement: replacement.to_string() }
}

fn failure(old_name: &str, error: &str) -> RenameResult {
    RenameResult {
        success: false,
        old_name: old_name.to_string(),
        new_name: None,
        error: Some(error.to_string()),
    }
}

#[test]
fn unchanged_name_is_reported_not_renamed() {
    let decision = judge("a.txt".to_string(), Ok("a.txt".to_string()));
    assert_eq!(decision, RenameDecision::Report { result: failure("a.txt", "Name unchanged") });
}

#[test]
fn new_name_leads_to_a_rename() {
    let decision = judge("a.txt".to_string(), Ok("b.txt".to_string()));
    assert_eq!(
        decision,
        RenameDecision::Rename { old_name: "a.txt".to_string(), new_name: "b.txt".to_string() }
    );
}

#[test]
fn pipeline_error_is_reported_as_it_is() {
    let decision = judge("a.txt".to_string(), Err("bad pattern".to_string()));
    assert_eq!(decision, RenameDecision::Report { result: failure("a.txt", "bad pattern") });
}

#[test]
fn path_without_base_name_is_invalid() {
    let steps = vec![regex_step("a", "b")];
    let decision = decide("/some/dir/..", None, &steps, NormalizationOptions::default());
    assert_eq!(
        decision,
        RenameDecision::Report { result: failure("/some/dir/..", "Invalid file path") }
    );
}

#[test]
fn decision_runs_the_pipeline_on_the_stem() {
    let steps = vec![regex_step("txt|report", "memo")];
    let decision = decide(
        "/home/me/report.txt",
        Some("report.txt".to_string()),
        &steps,
        NormalizationOptions::default(),
    );
    assert_eq!(
        decision,
        RenameDecision::Rename {
            old_name: "report.txt".to_string(),
            new_name: "memo.txt".to_string()
        }
    );
}

#[test]
fn decision_reports_unchanged_for_steps_without_effect() {
    let steps = vec![regex_step("zzz", "b"), RenameStep::Normalize];
    let decision =
        decide("dir/plain.txt", Some("plain.txt".to_string()), &steps, NormalizationOptions::default());
    assert_eq!(decision, RenameDecision::Report { result: failure("plain.txt", "Name unchanged") });
    let decision = decide("dir/plain", Some("plain".to_string()), &[], NormalizationOptions::default());
    assert_eq!(decision, RenameDecision::Report { result: failure("plain", "Name unchanged") });
}

#[test]
fn decision_reports_uncompilable_pattern() {
    let steps = vec![regex_step("a(", "b")];
    let decision =
        decide("dir/a.txt", Some("a.txt".to_string()), &steps, NormalizationOptions::default());
    let expected = regex::Regex::new("a(").unwrap_err().to_string();
    assert_eq!(decision, RenameDecision::Report { result: failure("a.txt", &expected) });
}

#[test]
fn trailing_dot_is_dropped_by_an_empty_pipeline() {
    let decision = decide("dir/notes.", Some("notes.".to_string()), &[], NormalizationOptions::default());
    assert_eq!(
        decision,
        RenameDecision::Rename { old_name: "notes.".to_string(), new_name: "notes".to_string() }
    );
}

#[test]
fn successful_rename_is_concluded_with_both_names() {
    let result = conclude("a.txt".to_string(), "b.txt".to_string(), Ok(()));
    assert_eq!(
        result,
        RenameResult {
            success: true,
            old_name: "a.txt".to_string(),
            new_name: Some("b.txt".to_string()),
            error: None,
        }
    );
}

#[test]
fn failed_rename_is_concluded_with_the_error() {
    let result =
        conclude("a.txt".to_string(), "b.txt".to_string(), Err("Permission denied".to_string()));
    assert_eq!(result, failure("a.txt", "Permission denied"));
}

#[test]
fn result_constructors_fill_exactly_one_side() {
    let done = RenameResult::renamed("a".to_string(), "b".to_string());
    assert!(done.success);
    assert_eq!(done.old_name, "a");
    assert_eq!(done.new_name, Some("b".to_string()));
    assert_eq!(done.error, None);
    let not_done = RenameResult::failed("a".to_string(), "why".to_string());
    assert!(!not_done.success);
    assert_eq!(not_done.old_name, "a");
    assert_eq!(not_done.new_name, None);
    assert_eq!(not_done.error, Some("why".to_string()));
}

#[test]
fn substitution_replaces_or_reports() {
    assert_eq!(substitute_matches("o+", "foo boo", "0"), Ok("f0 b0".to_string()));
    assert_eq!(substitute_matches("x", "foo", "0"), Ok("foo".to_string()));
    let error = substitute_matches("o{2,1}", "foo", "0").unwrap_err();
    assert_eq!(error, regex::Regex::new("o{2,1}").unwrap_err().to_string());
}

#[test]
fn pattern_match_is_found_or_not() {
    assert_eq!(pattern_matches(r"\d+", "take 42"), Ok(true));
    assert_eq!(pattern_matches(r"\d+", "take none"), Ok(false));
    assert_eq!(pattern_matches("", ""), Ok(true));
    assert_eq!(pattern_matches("^a$", "b"), Ok(false));
}

#[test]
fn pattern_match_reports_uncompilable_pattern() {
    let error = pattern_matches("(", "text").unwrap_err();
    assert_eq!(error, regex::Regex::new("(").unwrap_err().to_string());
}

#[test]
fn text_without_match_is_left_as_it_is() {
    for (pattern, text) in [("x+", "banana"), (r"\d", "no digits"), ("^b", "abc")] {
        assert_eq!(pattern_matches(pattern, text), Ok(false));
        assert_eq!(substitute_matches(pattern, text, "!"), Ok(text.to_string()));
    }
}
