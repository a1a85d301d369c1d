use rename_pipeline::normalize::rule_table;
use rename_pipeline::text::{contains_char, replace_chars, squeeze_spaces};
use rename_pipeline::{apply_normalization, apply_punctuation_rules, NormalizationOptions};
use unicode_normalization::UnicodeNormalization;

fn none_enabled() -> NormalizationOptions {
    NormalizationOptions {
        space: false,
        wave_dash: false,
        dash: false,
        middle_dot: false,
        brackets: false,
        colon: false,
        slash: false,
    }
}

#[test]
fn default_options_enable_every_rule() {
    let options = NormalizationOptions::default();
    assert!(options.space);
    assert!(options.wave_dash);
    assert!(options.dash);
    assert!(options.middle_dot);
    assert!(options.brackets);
    assert!(options.colon);
    assert!(options.slash);
}

#[test]
fn composition_folds_width_variants() {
    let out = apply_normalization("ＡＢＣ１２３ｶﾞ", none_enabled());
    assert_eq!(out, "ABC123ガ");
}

#[test]
fn composition_runs_with_every_rule_off() {
    let out = apply_normalization("ＮＨＫ　2025:12/25", none_enabled());
    assert_eq!(out, "NHK 2025:12/25");
}

#[test]
fn composition_composes_combining_marks() {
    let out = apply_normalization("e\u{301}", none_enabled());
    assert_eq!(out, "\u{e9}");
}

#[test]
fn space_rule_replaces_and_collapses() {
    let options = NormalizationOptions { space: true, ..none_enabled() };
    assert_eq!(apply_punctuation_rules("a\u{3000}b", options), "a b");
    assert_eq!(apply_punctuation_rules("a  b   c", options), "a b c");
    assert_eq!(apply_punctuation_rules("a \u{3000} b", options), "a b");
    assert_eq!(apply_punctuation_rules("  lead and trail  ", options), " lead and trail ");
    assert_eq!(apply_punctuation_rules("a\u{3000}b", none_enabled()), "a\u{3000}b");
}

#[test]
fn wave_dash_rule_maps_variants_to_wave_dash() {
    let options = NormalizationOptions { wave_dash: true, ..none_enabled() };
    assert_eq!(
        apply_punctuation_rules("\u{301C}\u{223C}\u{FF5E}~", options),
        "\u{301C}\u{301C}\u{301C}~"
    );
    assert_eq!(apply_punctuation_rules("\u{223C}", none_enabled()), "\u{223C}");
}

#[test]
fn dash_rule_maps_variants_to_hyphen() {
    let options = NormalizationOptions { dash: true, ..none_enabled() };
    assert_eq!(
        apply_punctuation_rules("\u{2010}\u{2011}\u{2013}\u{2014}\u{2015}\u{FF0D}-\u{2212}", options),
        "-------\u{2212}"
    );
    assert_eq!(apply_punctuation_rules("\u{2014}", none_enabled()), "\u{2014}");
}

#[test]
fn middle_dot_rule_maps_variants_to_katakana_dot() {
    let options = NormalizationOptions { middle_dot: true, ..none_enabled() };
    assert_eq!(
        apply_punctuation_rules("\u{FF65}\u{00B7}\u{2022}\u{30FB}.", options),
        "\u{30FB}\u{30FB}\u{30FB}\u{30FB}."
    );
    assert_eq!(apply_punctuation_rules("\u{2022}", none_enabled()), "\u{2022}");
}

#[test]
fn bracket_rule_narrows_parentheses() {
    let options = NormalizationOptions { brackets: true, ..none_enabled() };
    assert_eq!(apply_punctuation_rules("\u{FF08}1\u{FF09}[2]", options), "(1)[2]");
    assert_eq!(apply_punctuation_rules("\u{FF08}1\u{FF09}", none_enabled()), "\u{FF08}1\u{FF09}");
}

#[test]
fn colon_rule_widens_colon() {
    let options = NormalizationOptions { colon: true, ..none_enabled() };
    assert_eq!(apply_punctuation_rules("12:30:00", options), "12\u{FF1A}30\u{FF1A}00");
    assert_eq!(apply_punctuation_rules("12:30", none_enabled()), "12:30");
}

#[test]
fn slash_rule_widens_slash() {
    let options = NormalizationOptions { slash: true, ..none_enabled() };
    assert_eq!(apply_punctuation_rules("a/b\\c", options), "a\u{FF0F}b\\c");
    assert_eq!(apply_punctuation_rules("a/b", none_enabled()), "a/b");
}

#[test]
fn all_rules_together() {
    let out = apply_normalization(
        "（Ａ）\u{3000}\u{3000}x\u{2014}y\u{2022}z 1:2/3 \u{223C}",
        NormalizationOptions::default(),
    );
    assert_eq!(out, "(A) x-y\u{30FB}z 1\u{FF1A}2\u{FF0F}3 \u{301C}");
}

#[test]
fn normalizing_twice_is_normalizing_once() {
    let options = NormalizationOptions::default();
    let inputs = [
        "ＮＨＫ　2025:12/25",
        "（Ａ）\u{3000}\u{3000}x\u{2014}y\u{2022}z 1:2/3 \u{223C}\u{301C}\u{FF5E}",
        "a   b\u{3000} c",
        "\u{FF65}\u{00B7}\u{0387}\u{2022}",
        "plain name",
        "",
    ];
    for input in inputs {
        let once = apply_normalization(input, options);
        let twice = apply_normalization(&once, options);
        assert_eq!(twice, once);
    }
    let some = NormalizationOptions { colon: false, space: false, ..options };
    let once = apply_normalization("a:b\u{3000}\u{3000}c/d", some);
    assert_eq!(once, "a:b  c\u{FF0F}d");
    assert_eq!(apply_normalization(&once, some), once);
}

#[test]
fn punctuation_rules_twice_are_once() {
    let options = NormalizationOptions::default();
    let once = apply_punctuation_rules("a\u{3000} \u{3000}b:c/d\u{FF5E}\u{FF08}", options);
    assert_eq!(once, "a b\u{FF1A}c\u{FF0F}d\u{301C}(");
    assert_eq!(apply_punctuation_rules(&once, options), once);
}

#[test]
fn rule_table_lists_seven_rules_in_order() {
    let table = rule_table(NormalizationOptions::default());
    assert_eq!(table.len(), 7);
    let targets: Vec<char> = table.iter().map(|rule| rule.to).collect();
    assert_eq!(targets, vec!['\u{301C}', '-', '\u{30FB}', '(', ')', '\u{FF1A}', '\u{FF0F}']);
    assert!(table.iter().all(|rule| rule.enabled));
    assert_eq!(table[1].from.len(), 6);
    let off = rule_table(NormalizationOptions { brackets: false, ..NormalizationOptions::default() });
    let enabled: Vec<bool> = off.iter().map(|rule| rule.enabled).collect();
    assert_eq!(enabled, vec![true, true, true, false, false, true, true]);
}

#[test]
fn replace_chars_replaces_each_listed_character() {
    assert_eq!(replace_chars("a-b_c-d", &vec!['-', '_'], '+'), "a+b+c+d");
    assert_eq!(replace_chars("abc", &vec![], '+'), "abc");
    assert_eq!(replace_chars("", &vec!['a'], 'b'), "");
}

#[test]
fn squeeze_spaces_leaves_single_spaces() {
    assert_eq!(squeeze_spaces("a b"), "a b");
    assert_eq!(squeeze_spaces("a    b"), "a b");
    assert_eq!(squeeze_spaces("   "), " ");
    assert_eq!(squeeze_spaces(""), "");
    assert_eq!(squeeze_spaces("a\t\tb"), "a\t\tb");
}

#[test]
fn contains_char_finds_members_only() {
    assert!(contains_char(&vec!['a', 'b'], 'b'));
    assert!(!contains_char(&vec!['a', 'b'], 'c'));
    assert!(!contains_char(&vec![], 'a'));
}

#[test]
fn composing_normalized_text_only_narrows_widened_punctuation() {
    let options = NormalizationOptions::default();
    let once = apply_normalization("ＮＨＫ　2025:12/25", options);
    assert_eq!(once, "NHK 2025\u{FF1A}12\u{FF0F}25");
    let composed: String = once.nfkc().collect();
    let narrowed: String = once
        .chars()
        .map(|c| match c {
            '\u{FF1A}' => ':',
            '\u{FF0F}' => '/',
            other => other,
        })
        .collect();
    assert_eq!(composed, narrowed);
    assert_eq!(apply_punctuation_rules(&narrowed, options), once);
    assert_eq!(apply_normalization(&once, options), once);
}
