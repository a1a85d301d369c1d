use rename_pipeline::{apply_rename, apply_step, join_extension, NormalizationOptions, RenameStep};

fn regex_step(pattern: &str, replacement: &str) -> RenameStep {
    RenameStep::Regex { pattern: pattern.to_string(), replacement: replacement.to_string() }
}

#[test]
fn test_rename_logic() {
    let stem = "2023-12-25";
    let ext = "txt";
    let steps = vec![RenameStep::Regex {
        pattern: r"(\d{4})-(\d{2})-(\d{2})".to_string(),
        replacement: "$1年$2月$3日".to_string(),
    }];

    let result = apply_rename(stem, ext, &steps, NormalizationOptions::default()).unwrap();
    assert_eq!(result, "2023年12月25日.txt");
}

#[test]
fn test_multiple_renames() {
    let stem = "test-file";
    let ext = "txt";
    let steps = vec![
        RenameStep::Regex { pattern: "test".to_string(), replacement: "prod".to_string() },
        RenameStep::Regex { pattern: "file".to_string(), replacement: "data".to_string() },
    ];

    let result = apply_rename(stem, ext, &steps, NormalizationOptions::default()).unwrap();
    assert_eq!(result, "prod-data.txt");
}

#[test]
fn test_normalize_step() {
    let stem = "ＮＨＫ　2025:12/25";
    let ext = "txt";
    let steps = vec![RenameStep::Normalize];

    let result = apply_rename(stem, ext, &steps, NormalizationOptions::default()).unwrap();
    assert_eq!(result, "NHK 2025：12／25.txt");
}

#[test]
fn no_steps_give_back_stem_and_extension() {
    let result = apply_rename("report", "pdf", &[], NormalizationOptions::default());
    assert_eq!(result, Ok("report.pdf".to_string()));
}

#[test]
fn pattern_without_match_changes_nothing() {
    let steps = vec![regex_step("xyz", "abc")];
    let with_ext = apply_rename("holiday photo", "jpg", &steps, NormalizationOptions::default());
    assert_eq!(with_ext, Ok("holiday photo.jpg".to_string()));
    let without_ext = apply_rename("holiday photo", "", &steps, NormalizationOptions::default());
    assert_eq!(without_ext, Ok("holiday photo".to_string()));
}

#[test]
fn every_match_is_replaced_left_to_right() {
    let steps = vec![regex_step("a", "b")];
    let result = apply_rename("banana", "", &steps, NormalizationOptions::default());
    assert_eq!(result, Ok("bbnbnb".to_string()));
    let steps = vec![regex_step("aa", "x")];
    let result = apply_rename("aaaaa", "", &steps, NormalizationOptions::default());
    assert_eq!(result, Ok("xxa".to_string()));
}

#[test]
fn empty_pattern_ends_and_matches_between_characters() {
    let steps = vec![regex_step("", "-")];
    let result = apply_rename("ab", "txt", &steps, NormalizationOptions::default());
    assert_eq!(result, Ok("-a-b-.txt".to_string()));
}

#[test]
fn steps_run_in_order_on_each_others_output() {
    let options = NormalizationOptions::default();
    let first = regex_step("a", "b");
    let second = regex_step("b", "c");
    let together = apply_rename("ab", "", &[first.clone(), second.clone()], options).unwrap();
    let halfway = apply_rename("ab", "", &[first.clone()], options).unwrap();
    let in_turn = apply_rename(&halfway, "", &[second.clone()], options).unwrap();
    assert_eq!(together, "cc");
    assert_eq!(together, in_turn);
    let reversed = apply_rename("ab", "", &[second, first], options).unwrap();
    assert_eq!(reversed, "bc");
}

#[test]
fn normalize_then_regex_sees_normalized_text() {
    let steps = vec![RenameStep::Normalize, regex_step("NHK", "BBC")];
    let result = apply_rename("ＮＨＫ", "mp4", &steps, NormalizationOptions::default());
    assert_eq!(result, Ok("BBC.mp4".to_string()));
}

#[test]
fn empty_extension_adds_no_dot() {
    assert_eq!(join_extension("name".to_string(), ""), "name");
    assert_eq!(join_extension(String::new(), ""), "");
    let result = apply_rename("Makefile", "", &[], NormalizationOptions::default());
    assert_eq!(result, Ok("Makefile".to_string()));
}

#[test]
fn extension_is_joined_with_one_dot() {
    assert_eq!(join_extension("name".to_string(), "txt"), "name.txt");
    assert_eq!(join_extension("archive.tar".to_string(), "gz"), "archive.tar.gz");
    assert_eq!(join_extension(String::new(), "gitignore"), ".gitignore");
    assert_eq!(join_extension("ends.".to_string(), "txt"), "ends..txt");
}

#[test]
fn extension_is_not_transformed() {
    let steps = vec![regex_step("txt", "md")];
    let result = apply_rename("txt", "txt", &steps, NormalizationOptions::default());
    assert_eq!(result, Ok("md.txt".to_string()));
}

#[test]
fn uncompilable_pattern_is_an_error() {
    let steps = vec![regex_step("(unclosed", "x")];
    let result = apply_rename("name", "txt", &steps, NormalizationOptions::default());
    let message = result.unwrap_err();
    assert_eq!(message, regex::Regex::new("(unclosed").unwrap_err().to_string());
    assert!(message.contains("regex parse error"));
    assert!(message.contains("unclosed group"));
    assert_ne!(message, "(unclosed");
}

#[test]
fn too_large_pattern_is_an_error() {
    let steps = vec![regex_step(r"\w{100000}", "x")];
    let result = apply_rename("name", "txt", &steps, NormalizationOptions::default());
    let message = result.unwrap_err();
    assert!(message.contains("size limit"));
}

#[test]
fn first_failing_step_ends_the_run() {
    let options = NormalizationOptions::default();
    let steps = vec![regex_step("a", "b"), regex_step("[", "x"), regex_step("(", "y")];
    let message = apply_rename("a", "", &steps, options).unwrap_err();
    assert_eq!(message, regex::Regex::new("[").unwrap_err().to_string());
    let steps = vec![RenameStep::Normalize, regex_step("(", "y")];
    assert!(apply_rename("a", "", &steps, options).is_err());
}

#[test]
fn failing_step_after_success_still_fails() {
    let steps = vec![regex_step("a", "b"), regex_step("*", "x")];
    assert!(apply_rename("zzz", "txt", &steps, NormalizationOptions::default()).is_err());
}

#[test]
fn single_step_normalize_never_fails() {
    let options = NormalizationOptions::default();
    assert_eq!(apply_step("ａ：ｂ", &RenameStep::Normalize, options), Ok("a：b".to_string()));
    assert_eq!(apply_step("", &RenameStep::Normalize, options), Ok(String::new()));
}

#[test]
fn single_step_regex_uses_capture_groups() {
    let options = NormalizationOptions::default();
    let step = regex_step(r"(\w+)_(\w+)", "$2-$1");
    assert_eq!(apply_step("left_right", &step, options), Ok("right-left".to_string()));
    let named = regex_step(r"(?P<y>\d{4})", "[$y]");
    assert_eq!(apply_step("in 1999", &named, options), Ok("in [1999]".to_string()));
}
