use pastewatch::config::{Group, KeywordRule, RegexRule};
use pastewatch::pipeline::MessageError;
use pastewatch::rules::{match_rules, RuleKind};

fn regex_rule(pattern: &str, response: &str) -> RegexRule {
    RegexRule {
        pattern: pattern.to_string(),
        reaction: None,
        response: response.to_string(),
    }
}

fn keyword_rule(keyword: &str, response: &str) -> KeywordRule {
    KeywordRule {
        keyword: keyword.to_string(),
        reaction: Some("\u{1F440}".to_string()),
        response: response.to_string(),
    }
}

fn group(regex: Vec<RegexRule>, keywords: Vec<KeywordRule>) -> Group {
    Group {
        channels: vec!["general".to_string()],
        regex,
        keywords,
        paste_sites: vec![],
    }
}

#[test]
fn regex_rule_wins_over_keyword_rule_with_same_trigger() {
    let g = group(
        vec![regex_rule("error", "from regex")],
        vec![keyword_rule("error", "from keyword")],
    );
    let outcome = match_rules("an error occurred", &g).unwrap().unwrap();
    assert_eq!(outcome.kind, RuleKind::Regex);
    assert_eq!(outcome.response, "from regex");
}

#[test]
fn keyword_must_match_a_whole_token() {
    let g = group(vec![], vec![keyword_rule("error", "hit")]);
    assert_eq!(match_rules("errors happen", &g).unwrap(), None);
}

#[test]
fn keyword_matches_a_whole_token() {
    let g = group(vec![], vec![keyword_rule("error", "hit")]);
    let outcome = match_rules("an error occurred", &g).unwrap().unwrap();
    assert_eq!(outcome.kind, RuleKind::Keyword);
    assert_eq!(outcome.response, "hit");
    assert_eq!(outcome.reaction, Some("\u{1F440}".to_string()));
}

#[test]
fn keyword_matching_is_case_insensitive() {
    let g = group(vec![], vec![keyword_rule("error", "hit")]);
    let outcome = match_rules("ERROR spotted", &g).unwrap().unwrap();
    assert_eq!(outcome.response, "hit");
}

#[test]
fn keyword_at_text_edges_matches() {
    let g = group(vec![], vec![keyword_rule("error", "hit")]);
    assert!(match_rules("error", &g).unwrap().is_some());
    assert!(match_rules("  error  ", &g).unwrap().is_some());
    assert!(match_rules("end with error", &g).unwrap().is_some());
}

#[test]
fn first_regex_rule_in_order_wins() {
    let g = group(
        vec![regex_rule("err.r", "first"), regex_rule("error", "second")],
        vec![],
    );
    let outcome = match_rules("an error occurred", &g).unwrap().unwrap();
    assert_eq!(outcome.response, "first");
}

#[test]
fn first_keyword_rule_in_order_wins() {
    let g = group(
        vec![],
        vec![keyword_rule("error", "first"), keyword_rule("occurred", "second")],
    );
    let outcome = match_rules("an error occurred", &g).unwrap().unwrap();
    assert_eq!(outcome.response, "first");
}

#[test]
fn regex_is_tested_against_unmodified_text() {
    // An uppercase-only pattern must still see the original casing.
    let g = group(vec![regex_rule("ERR", "upper")], vec![]);
    let outcome = match_rules("ERRor happened", &g).unwrap().unwrap();
    assert_eq!(outcome.response, "upper");
    assert_eq!(match_rules("error happened", &g).unwrap(), None);
}

#[test]
fn malformed_pattern_is_a_configuration_error() {
    let g = group(vec![regex_rule("[", "broken")], vec![]);
    assert_eq!(match_rules("anything", &g), Err(MessageError::Configuration));
}

#[test]
fn malformed_pattern_after_a_hit_is_not_reached() {
    let g = group(
        vec![regex_rule("error", "hit"), regex_rule("[", "broken")],
        vec![],
    );
    let outcome = match_rules("an error occurred", &g).unwrap().unwrap();
    assert_eq!(outcome.response, "hit");
}

#[test]
fn no_rule_matches_yields_no_outcome() {
    let g = group(
        vec![regex_rule("panic", "r")],
        vec![keyword_rule("crash", "k")],
    );
    assert_eq!(match_rules("all is well", &g).unwrap(), None);
}

#[test]
fn matcher_is_idempotent_on_identical_inputs() {
    let g = group(
        vec![regex_rule("err.r", "r")],
        vec![keyword_rule("crash", "k")],
    );
    let first = match_rules("an error and a crash", &g);
    let second = match_rules("an error and a crash", &g);
    assert_eq!(first, second);
}
