//! The normalisation pass: compatibility composition, then a fixed table of
//! punctuation rules, each behind its own toggle.

use crate::options::NormalizationOptions;
use crate::text::{
    collapse_spaces, lemma_collapse_adds_nothing, lemma_collapse_commutes_with_map,
    lemma_collapse_idempotent, replace_chars, replace_each, squeeze_spaces, substitute,
};
use unicode_normalization::UnicodeNormalization;
use vstd::prelude::*;

verus! {

/// The text in Unicode Normalization Form KC, as the `unicode-normalization`
/// crate computes it from the text alone.
pub uninterp spec fn nfkc_form(text: Seq<char>) -> Seq<char>;

/// `UnicodeNormalization::nfkc` on a string slice, collected into a string:
/// the characters of the input in Normalization Form KC (compatibility
/// decomposition followed by canonical composition). Nothing more is claimed
/// of the result than that it is this form of the input.
#[verifier::external_body]
fn compose_compatible(input: &str) -> (out: String)
    ensures
        out@ == nfkc_form(input@),
{
    input.nfkc().collect()
}

/// One row of the rule table: while `enabled`, every character of `from`
/// becomes `to`.
pub struct CharRule {
    pub enabled: bool,
    pub from: Vec<char>,
    pub to: char,
}

/// A rule as a mathematical value.
pub struct CharRuleView {
    pub enabled: bool,
    pub from: Seq<char>,
    pub to: char,
}

impl View for CharRule {
    type V = CharRuleView;

    open spec fn view(&self) -> CharRuleView {
        CharRuleView { enabled: self.enabled, from: self.from@, to: self.to }
    }
}

/// The rules of a table as mathematical values, in table order.
pub open spec fn rules_view(rules: Seq<CharRule>) -> Seq<CharRuleView> {
    rules.map_values(|r: CharRule| r@)
}

/// The character rules in the order in which they apply: wave dash, dash,
/// middle dot, opening and closing bracket, colon, slash. The first three
/// fold variants into one canonical character; colon and slash are widened,
/// because the plain characters are not allowed in file names everywhere.
pub open spec fn rule_table_spec(options: NormalizationOptions) -> Seq<CharRuleView> {
    seq![
        CharRuleView {
            enabled: options.wave_dash,
            from: seq!['\u{301C}', '\u{223C}', '\u{FF5E}'],
            to: '\u{301C}',
        },
        CharRuleView {
            enabled: options.dash,
            from: seq!['\u{2010}', '\u{2011}', '\u{2013}', '\u{2014}', '\u{2015}', '\u{FF0D}'],
            to: '-',
        },
        CharRuleView {
            enabled: options.middle_dot,
            from: seq!['\u{FF65}', '\u{00B7}', '\u{2022}'],
            to: '\u{30FB}',
        },
        CharRuleView { enabled: options.brackets, from: seq!['\u{FF08}'], to: '(' },
        CharRuleView { enabled: options.brackets, from: seq!['\u{FF09}'], to: ')' },
        CharRuleView { enabled: options.colon, from: seq![':'], to: '\u{FF1A}' },
        CharRuleView { enabled: options.slash, from: seq!['/'], to: '\u{FF0F}' },
    ]
}

/// The text after one rule.
pub open spec fn apply_rule(text: Seq<char>, rule: CharRuleView) -> Seq<char> {
    if rule.enabled {
        replace_each(text, rule.from, rule.to)
    } else {
        text
    }
}

/// The text after the rules of a table, applied first to last, each to the
/// output of the one before.
pub open spec fn apply_rules(text: Seq<char>, rules: Seq<CharRuleView>) -> Seq<char>
    decreases rules.len(),
{
    if rules.len() == 0 {
        text
    } else {
        apply_rule(apply_rules(text, rules.drop_last()), rules.last())
    }
}

/// The space rule: ideographic spaces become plain spaces, then every run of
/// spaces shrinks to one.
pub open spec fn space_rule(text: Seq<char>, enabled: bool) -> Seq<char> {
    if enabled {
        collapse_spaces(replace_each(text, seq!['\u{3000}'], ' '))
    } else {
        text
    }
}

/// The text after all punctuation rules: the space rule first, then the
/// character rules in table order.
pub open spec fn punctuation_spec(text: Seq<char>, options: NormalizationOptions) -> Seq<char> {
    apply_rules(space_rule(text, options.space), rule_table_spec(options))
}

/// What a normalisation step makes of a text: composition first, whatever the
/// options, then the punctuation rules.
pub open spec fn normalize_spec(text: Seq<char>, options: NormalizationOptions) -> Seq<char> {
    punctuation_spec(nfkc_form(text), options)
}

/// One character after one rule.
pub open spec fn rule_char(c: char, rule: CharRuleView) -> char {
    if rule.enabled {
        substitute(c, rule.from, rule.to)
    } else {
        c
    }
}

/// One character after the rules of a table, applied first to last.
pub open spec fn rules_char(c: char, rules: Seq<CharRuleView>) -> char
    decreases rules.len(),
{
    if rules.len() == 0 {
        c
    } else {
        rule_char(rules_char(c, rules.drop_last()), rules.last())
    }
}

/// What the whole table makes of one character, written out rule by rule.
pub open spec fn table_char(c: char, options: NormalizationOptions) -> char {
    let c1 = if options.wave_dash && (c == '\u{301C}' || c == '\u{223C}' || c == '\u{FF5E}') {
        '\u{301C}'
    } else {
        c
    };
    let c2 = if options.dash && (c1 == '\u{2010}' || c1 == '\u{2011}' || c1 == '\u{2013}' || c1
        == '\u{2014}' || c1 == '\u{2015}' || c1 == '\u{FF0D}') {
        '-'
    } else {
        c1
    };
    let c3 = if options.middle_dot && (c2 == '\u{FF65}' || c2 == '\u{00B7}' || c2 == '\u{2022}') {
        '\u{30FB}'
    } else {
        c2
    };
    let c4 = if options.brackets && c3 == '\u{FF08}' {
        '('
    } else {
        c3
    };
    let c5 = if options.brackets && c4 == '\u{FF09}' {
        ')'
    } else {
        c4
    };
    let c6 = if options.colon && c5 == ':' {
        '\u{FF1A}'
    } else {
        c5
    };
    if options.slash && c6 == '/' {
        '\u{FF0F}'
    } else {
        c6
    }
}

/// The rules of a table work character by character: the text after the
/// table is the text with each character sent through the table.
pub proof fn lemma_rules_work_per_char(text: Seq<char>, rules: Seq<CharRuleView>)
    ensures
        apply_rules(text, rules) == text.map_values(|c: char| rules_char(c, rules)),
    decreases rules.len(),
{
    if rules.len() == 0 {
        assert(text =~= text.map_values(|c: char| rules_char(c, rules)));
    } else {
        let front = rules.drop_last();
        lemma_rules_work_per_char(text, front);
        let before = text.map_values(|c: char| rules_char(c, front));
        assert(apply_rule(before, rules.last()) =~= text.map_values(
            |c: char| rules_char(c, rules),
        ));
    }
}

/// The table of character rules sends a character where `table_char` says.
pub proof fn lemma_table_char(c: char, options: NormalizationOptions)
    ensures
        rules_char(c, rule_table_spec(options)) == table_char(c, options),
{
    let table = rule_table_spec(options);
    let t0 = table.take(0);
    let t1 = table.take(1);
    let t2 = table.take(2);
    let t3 = table.take(3);
    let t4 = table.take(4);
    let t5 = table.take(5);
    let t6 = table.take(6);
    assert(t1.drop_last() =~= t0 && t1.last() == table[0]);
    assert(t2.drop_last() =~= t1 && t2.last() == table[1]);
    assert(t3.drop_last() =~= t2 && t3.last() == table[2]);
    assert(t4.drop_last() =~= t3 && t4.last() == table[3]);
    assert(t5.drop_last() =~= t4 && t5.last() == table[4]);
    assert(t6.drop_last() =~= t5 && t6.last() == table[5]);
    assert(table.drop_last() =~= t6 && table.last() == table[6]);
    let c0 = rules_char(c, t0);
    let c1 = rules_char(c, t1);
    let c2 = rules_char(c, t2);
    let c3 = rules_char(c, t3);
    let c4 = rules_char(c, t4);
    let c5 = rules_char(c, t5);
    let c6 = rules_char(c, t6);
    assert(c0 == c);
    assert(c1 == rule_char(c0, table[0]));
    assert(c2 == rule_char(c1, table[1]));
    assert(c3 == rule_char(c2, table[2]));
    assert(c4 == rule_char(c3, table[3]));
    assert(c5 == rule_char(c4, table[4]));
    assert(c6 == rule_char(c5, table[5]));
    assert(rules_char(c, table) == rule_char(c6, table[6]));
    let f0 = table[0].from;
    assert(f0.contains(c0) <==> (c0 == '\u{301C}' || c0 == '\u{223C}' || c0 == '\u{FF5E}')) by {
        assert(f0[0] == '\u{301C}' && f0[1] == '\u{223C}' && f0[2] == '\u{FF5E}');
    }
    let f1 = table[1].from;
    assert(f1.contains(c1) <==> (c1 == '\u{2010}' || c1 == '\u{2011}' || c1 == '\u{2013}' || c1
        == '\u{2014}' || c1 == '\u{2015}' || c1 == '\u{FF0D}')) by {
        assert(f1[0] == '\u{2010}' && f1[1] == '\u{2011}' && f1[2] == '\u{2013}');
        assert(f1[3] == '\u{2014}' && f1[4] == '\u{2015}' && f1[5] == '\u{FF0D}');
    }
    let f2 = table[2].from;
    assert(f2.contains(c2) <==> (c2 == '\u{FF65}' || c2 == '\u{00B7}' || c2 == '\u{2022}')) by {
        assert(f2[0] == '\u{FF65}' && f2[1] == '\u{00B7}' && f2[2] == '\u{2022}');
    }
    assert(table[3].from.contains(c3) <==> c3 == '\u{FF08}') by {
        assert(table[3].from[0] == '\u{FF08}');
    }
    assert(table[4].from.contains(c4) <==> c4 == '\u{FF09}') by {
        assert(table[4].from[0] == '\u{FF09}');
    }
    assert(table[5].from.contains(c5) <==> c5 == ':') by {
        assert(table[5].from[0] == ':');
    }
    assert(table[6].from.contains(c6) <==> c6 == '/') by {
        assert(table[6].from[0] == '/');
    }
}

/// The punctuation rules map into their own fixed point: applied to their
/// own output they change nothing, whatever the options.
pub proof fn lemma_punctuation_idempotent(text: Seq<char>, options: NormalizationOptions)
    ensures
        punctuation_spec(punctuation_spec(text, options), options) == punctuation_spec(
            text,
            options,
        ),
{
    let table = rule_table_spec(options);
    let through_table = |c: char| rules_char(c, table);
    let widen = |c: char| substitute(c, seq!['\u{3000}'], ' ');
    let ideographic = seq!['\u{3000}'];
    assert forall|c: char| ideographic.contains(c) <==> c == '\u{3000}' by {
        assert(ideographic[0] == '\u{3000}');
    }
    assert forall|c: char| #[trigger]
        through_table(c) == table_char(c, options) by {
        lemma_table_char(c, options);
    }
    let spaced = space_rule(text, options.space);
    let once = punctuation_spec(text, options);
    lemma_rules_work_per_char(spaced, table);
    assert(once == spaced.map_values(through_table));
    let respaced = space_rule(once, options.space);
    lemma_rules_work_per_char(respaced, table);
    if options.space {
        let plain = replace_each(text, ideographic, ' ');
        assert(!plain.contains('\u{3000}'));
        lemma_collapse_adds_nothing(plain, '\u{3000}');
        assert(!spaced.contains('\u{3000}'));
        assert(!once.contains('\u{3000}')) by {
            assert forall|i: int| 0 <= i < once.len() implies once[i] != '\u{3000}' by {
                assert(spaced.contains(spaced[i]));
            }
        }
        assert(replace_each(once, ideographic, ' ') =~= once) by {
            assert forall|i: int| 0 <= i < once.len() implies substitute(
                once[i],
                ideographic,
                ' ',
            ) == once[i] by {
                assert(once.contains(once[i]));
            }
        }
        lemma_collapse_commutes_with_map(spaced, through_table);
        lemma_collapse_idempotent(plain);
        assert(respaced == spaced.map_values(through_table));
    }
    assert(respaced.map_values(through_table) =~= spaced.map_values(through_table));
}

/// Where the normalised text is already in composed form, a second
/// normalisation step changes nothing.
pub proof fn lemma_normalize_twice_when_composed(text: Seq<char>, options: NormalizationOptions)
    requires
        nfkc_form(normalize_spec(text, options)) == normalize_spec(text, options),
    ensures
        normalize_spec(normalize_spec(text, options), options) == normalize_spec(text, options),
{
    lemma_punctuation_idempotent(nfkc_form(text), options);
}

/// One character with the widening of colon and slash undone, as far as the
/// options switch that widening on.
pub open spec fn narrowed_char(c: char, options: NormalizationOptions) -> char {
    if options.colon && c == '\u{FF1A}' {
        ':'
    } else if options.slash && c == '\u{FF0F}' {
        '/'
    } else {
        c
    }
}

/// The text with the colons and slashes that the rules widen made plain
/// again.
pub open spec fn narrowed(text: Seq<char>, options: NormalizationOptions) -> Seq<char> {
    text.map_values(|c: char| narrowed_char(c, options))
}

/// The punctuation rules restore their own output from its narrowed form:
/// whatever narrowing takes back of the widened colons and slashes, the
/// rules put there again, and they change nothing else.
pub proof fn lemma_punctuation_restores_narrowed(text: Seq<char>, options: NormalizationOptions)
    ensures
        punctuation_spec(narrowed(punctuation_spec(text, options), options), options)
            == punctuation_spec(text, options),
{
    let table = rule_table_spec(options);
    let through_table = |c: char| rules_char(c, table);
    let narrow = |c: char| narrowed_char(c, options);
    let ideographic = seq!['\u{3000}'];
    assert forall|c: char| ideographic.contains(c) <==> c == '\u{3000}' by {
        assert(ideographic[0] == '\u{3000}');
    }
    assert forall|c: char| #[trigger]
        through_table(c) == table_char(c, options) by {
        lemma_table_char(c, options);
    }
    let spaced = space_rule(text, options.space);
    let once = punctuation_spec(text, options);
    lemma_rules_work_per_char(spaced, table);
    assert(once == spaced.map_values(through_table));
    let plain_again = narrowed(once, options);
    assert(plain_again == once.map_values(narrow));
    let respaced = space_rule(plain_again, options.space);
    lemma_rules_work_per_char(respaced, table);
    if options.space {
        let plain = replace_each(text, ideographic, ' ');
        assert(!plain.contains('\u{3000}'));
        lemma_collapse_adds_nothing(plain, '\u{3000}');
        assert forall|i: int| 0 <= i < plain_again.len() implies substitute(
            plain_again[i],
            ideographic,
            ' ',
        ) == plain_again[i] by {
            assert(spaced.contains(spaced[i]));
        }
        assert(replace_each(plain_again, ideographic, ' ') =~= plain_again);
        lemma_collapse_idempotent(plain);
        lemma_collapse_commutes_with_map(spaced, through_table);
        assert(collapse_spaces(once) == once);
        lemma_collapse_commutes_with_map(once, narrow);
        assert(respaced == plain_again);
    }
    assert(respaced.map_values(through_table) =~= once);
}

/// Where composing the normalised text does no more than narrow the colons
/// and slashes that the rules widened, a second normalisation step changes
/// nothing.
pub proof fn lemma_normalize_twice_when_narrowed(text: Seq<char>, options: NormalizationOptions)
    requires
        nfkc_form(normalize_spec(text, options)) == narrowed(
            normalize_spec(text, options),
            options,
        ),
    ensures
        normalize_spec(normalize_spec(text, options), options) == normalize_spec(text, options),
{
    lemma_punctuation_restores_narrowed(nfkc_form(text), options);
}

/// Builds the table of character rules for the given options.
pub fn rule_table(options: NormalizationOptions) -> (rules: Vec<CharRule>)
    ensures
        rules_view(rules@) == rule_table_spec(options),
{
    let wave_dashes: Vec<char> = vec!['\u{301C}', '\u{223C}', '\u{FF5E}'];
    let dashes: Vec<char> = vec![
        '\u{2010}',
        '\u{2011}',
        '\u{2013}',
        '\u{2014}',
        '\u{2015}',
        '\u{FF0D}',
    ];
    let dots: Vec<char> = vec!['\u{FF65}', '\u{00B7}', '\u{2022}'];
    let opening: Vec<char> = vec!['\u{FF08}'];
    let closing: Vec<char> = vec!['\u{FF09}'];
    let colons: Vec<char> = vec![':'];
    let slashes: Vec<char> = vec!['/'];
    proof {
        let table = rule_table_spec(options);
        assert(wave_dashes@ =~= table[0].from);
        assert(dashes@ =~= table[1].from);
        assert(dots@ =~= table[2].from);
        assert(opening@ =~= table[3].from);
        assert(closing@ =~= table[4].from);
        assert(colons@ =~= table[5].from);
        assert(slashes@ =~= table[6].from);
    }
    let mut rules: Vec<CharRule> = Vec::new();
    rules.push(CharRule { enabled: options.wave_dash, from: wave_dashes, to: '\u{301C}' });
    rules.push(CharRule { enabled: options.dash, from: dashes, to: '-' });
    rules.push(CharRule { enabled: options.middle_dot, from: dots, to: '\u{30FB}' });
    rules.push(CharRule { enabled: options.brackets, from: opening, to: '(' });
    rules.push(CharRule { enabled: options.brackets, from: closing, to: ')' });
    rules.push(CharRule { enabled: options.colon, from: colons, to: '\u{FF1A}' });
    rules.push(CharRule { enabled: options.slash, from: slashes, to: '\u{FF0F}' });
    proof {
        let table = rule_table_spec(options);
        assert(rules_view(rules@).len() == table.len());
        assert forall|i: int| 0 <= i < table.len() implies rules_view(rules@)[i] == table[i] by {
            assert(rules_view(rules@)[i] == rules@[i]@);
        }
        assert(rules_view(rules@) =~= table);
    }
    rules
}

/// Applies the punctuation rules to a text that is already composed: the
/// space rule, then each character rule of the table in order.
pub fn apply_punctuation_rules(text: &str, options: NormalizationOptions) -> (out: String)
    ensures
        out@ == punctuation_spec(text@, options),
{
    let mut current: String = if options.space {
        let ideographic: Vec<char> = vec!['\u{3000}'];
        assert(ideographic@ =~= seq!['\u{3000}']);
        let plain = replace_chars(text, &ideographic, ' ');
        squeeze_spaces(plain.as_str())
    } else {
        text.to_owned()
    };
    let rules = rule_table(options);
    let mut i: usize = 0;
    while i < rules.len()
        invariant
            i <= rules.len(),
            rules_view(rules@) == rule_table_spec(options),
            current@ == apply_rules(
                space_rule(text@, options.space),
                rule_table_spec(options).take(i as int),
            ),
        decreases rules.len() - i,
    {
        proof {
            let table = rule_table_spec(options);
            assert(table.take(i + 1).drop_last() == table.take(i as int));
            assert(table.take(i + 1).last() == rules@[i as int]@);
        }
        if rules[i].enabled {
            current = replace_chars(current.as_str(), &rules[i].from, rules[i].to);
        }
        i += 1;
    }
    proof {
        let table = rule_table_spec(options);
        assert(table.take(table.len() as int) == table);
    }
    current
}

/// One normalisation step: the input in Normalization Form KC, with the
/// punctuation rules that `options` enables applied to it.
pub fn apply_normalization(input: &str, options: NormalizationOptions) -> (out: String)
    ensures
        out@ == normalize_spec(input@, options),
{
    let composed = compose_compatible(input);
    apply_punctuation_rules(composed.as_str(), options)
}

} // verus!
