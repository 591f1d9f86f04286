//! The rule matcher: regex rules are evaluated first, in configured order,
//! then keyword rules; the first matching rule wins.

use vstd::prelude::*;
use crate::config::{Group, GroupV, KeywordRuleV, RegexRuleV};
use crate::pipeline::MessageError;
use crate::text::{contains_token, has_token, lower_of, lowercase};

verus! {

/// Which category of rule produced a match outcome.
#[derive(Debug, Clone, Copy, PartialEq, Eq, Structural)]
pub enum RuleKind {
    Regex,
    Keyword,
}

/// The payload of a successful match: the rule's response text, its optional
/// reaction glyph, and which category of rule it was.
#[derive(Debug, Clone, PartialEq)]
pub struct MatchOutcome {
    pub response: String,
    pub reaction: Option<String>,
    pub kind: RuleKind,
}

pub struct MatchOutcomeV {
    pub response: Seq<char>,
    pub reaction: Option<Seq<char>>,
    pub kind: RuleKind,
}

impl View for MatchOutcome {
    type V = MatchOutcomeV;

    open spec fn view(&self) -> MatchOutcomeV {
        MatchOutcomeV {
            response: self.response@,
            reaction: self.reaction.deep_view(),
            kind: self.kind,
        }
    }
}

impl DeepView for MatchOutcome {
    type V = MatchOutcomeV;

    open spec fn deep_view(&self) -> MatchOutcomeV {
        self.view()
    }
}

/// Whether `pattern` is a well-formed regular expression, as the regex
/// engine's parser decides it; a function of the pattern alone.
pub uninterp spec fn regex_ok(pattern: Seq<char>) -> bool;

/// Whether the well-formed pattern `pattern` matches anywhere in `text`, as
/// the regex engine decides it; a function of pattern and text alone.
pub uninterp spec fn regex_match(pattern: Seq<char>, text: Seq<char>) -> bool;

/// Relies on regex::Regex::new, whose success depends on the pattern string
/// alone, and regex::Regex::is_match, whose answer depends on the pattern and
/// the haystack alone. The two are chained here because a compiled regex
/// cannot be tied to its pattern across the trusted boundary.
#[verifier::external_body]
fn regex_try_match(pattern: &str, text: &str) -> (r: Option<bool>)
    ensures
        r is Some <==> regex_ok(pattern@),
        r matches Some(m) ==> m == regex_match(pattern@, text@),
{
    match regex::Regex::new(pattern) {
        Ok(re) => Some(re.is_match(text)),
        Err(_) => None,
    }
}

/// The verdict of scanning the regex rules in order: the first rule that is
/// malformed or that matches stops the scan.
pub enum RegexScanV {
    /// A malformed pattern was reached before any rule matched.
    Invalid,
    /// The first matching rule's outcome.
    Hit(MatchOutcomeV),
    /// Every rule is well-formed and none matches.
    Miss,
}

pub open spec fn regex_outcome_of(r: RegexRuleV) -> MatchOutcomeV {
    MatchOutcomeV { response: r.response, reaction: r.reaction, kind: RuleKind::Regex }
}

pub open spec fn keyword_outcome_of(r: KeywordRuleV) -> MatchOutcomeV {
    MatchOutcomeV { response: r.response, reaction: r.reaction, kind: RuleKind::Keyword }
}

/// Scan the regex rules in configured order against `text`.
pub open spec fn scan_regex(rules: Seq<RegexRuleV>, text: Seq<char>) -> RegexScanV
    decreases rules.len(),
{
    if rules.len() == 0 {
        RegexScanV::Miss
    } else if !regex_ok(rules[0].pattern) {
        RegexScanV::Invalid
    } else if regex_match(rules[0].pattern, text) {
        RegexScanV::Hit(regex_outcome_of(rules[0]))
    } else {
        scan_regex(rules.skip(1), text)
    }
}

/// Scan the keyword rules in configured order against the lowercased text
/// `low`: the first rule whose keyword is a whole token of `low` wins.
pub open spec fn scan_keywords(rules: Seq<KeywordRuleV>, low: Seq<char>) -> Option<
    MatchOutcomeV,
>
    decreases rules.len(),
{
    if rules.len() == 0 {
        None
    } else if has_token(low, rules[0].keyword) {
        Some(keyword_outcome_of(rules[0]))
    } else {
        scan_keywords(rules.skip(1), low)
    }
}

/// What the rule matcher returns for `text` under group `g`: the first regex
/// hit, in order; else, if a malformed pattern was reached first, a
/// configuration error; else the first keyword whose token occurs in the
/// lowercased text; else no outcome.
pub open spec fn match_spec(g: GroupV, text: Seq<char>) -> Result<
    Option<MatchOutcomeV>,
    MessageError,
> {
    match scan_regex(g.regex, text) {
        RegexScanV::Invalid => Err(MessageError::Configuration),
        RegexScanV::Hit(o) => Ok(Some(o)),
        RegexScanV::Miss => Ok(scan_keywords(g.keywords, lower_of(text))),
    }
}

proof fn lemma_scan_regex_skip(rules: Seq<RegexRuleV>, text: Seq<char>, i: int)
    requires
        0 <= i <= rules.len(),
        forall|j: int|
            0 <= j < i ==> regex_ok(rules[j].pattern) && !regex_match(rules[j].pattern, text),
    ensures
        scan_regex(rules, text) == scan_regex(rules.skip(i), text),
    decreases i,
{
    if i > 0 {
        lemma_scan_regex_skip(rules, text, i - 1);
        let tail = rules.skip(i - 1);
        assert(tail[0] == rules[i - 1]);
        assert(tail.skip(1) =~= rules.skip(i));
    } else {
        assert(rules.skip(0) =~= rules);
    }
}

proof fn lemma_scan_keywords_skip(rules: Seq<KeywordRuleV>, low: Seq<char>, i: int)
    requires
        0 <= i <= rules.len(),
        forall|j: int| 0 <= j < i ==> !has_token(low, rules[j].keyword),
    ensures
        scan_keywords(rules, low) == scan_keywords(rules.skip(i), low),
    decreases i,
{
    if i > 0 {
        lemma_scan_keywords_skip(rules, low, i - 1);
        let tail = rules.skip(i - 1);
        assert(tail[0] == rules[i - 1]);
        assert(tail.skip(1) =~= rules.skip(i));
    } else {
        assert(rules.skip(0) =~= rules);
    }
}

/// Match `text` against the rules of `group`: regex rules first, in order,
/// then keyword rules against the lowercased, whitespace-tokenized text. A
/// malformed pattern reached before any regex hit is a configuration error.
pub fn match_rules(text: &str, group: &Group) -> (r: Result<
    Option<MatchOutcome>,
    MessageError,
>)
    ensures
        match r {
            Ok(o) => match_spec(group@, text@) == Ok::<Option<MatchOutcomeV>, MessageError>(
                o.deep_view(),
            ),
            Err(e) => e is Configuration && match_spec(group@, text@) is Err,
        },
{
    let n = group.regex.len();
    let mut i: usize = 0;
    while i < n
        invariant
            n == group.regex.len(),
            i <= n,
            group@.regex.len() == n,
            forall|j: int| 0 <= j < n ==> group@.regex[j] == group.regex[j]@,
            forall|j: int|
                0 <= j < i ==> regex_ok(group@.regex[j].pattern) && !regex_match(
                    group@.regex[j].pattern,
                    text@,
                ),
        decreases n - i,
    {
        let rule = &group.regex[i];
        match regex_try_match(rule.pattern.as_str(), text) {
            None => {
                proof {
                    lemma_scan_regex_skip(group@.regex, text@, i as int);
                    assert(group@.regex.skip(i as int)[0] == group@.regex[i as int]);
                }
                return Err(MessageError::Configuration);
            },
            Some(true) => {
                proof {
                    lemma_scan_regex_skip(group@.regex, text@, i as int);
                    assert(group@.regex.skip(i as int)[0] == group@.regex[i as int]);
                }
                return Ok(Some(MatchOutcome {
                    response: rule.response.clone(),
                    reaction: crate::pipeline::clone_opt_string(&rule.reaction),
                    kind: RuleKind::Regex,
                }));
            },
            Some(false) => {
                i += 1;
            },
        }
    }
    proof {
        lemma_scan_regex_skip(group@.regex, text@, n as int);
        assert(group@.regex.skip(n as int) =~= Seq::<RegexRuleV>::empty());
    }
    // No regex rule matched: consult the keyword rules on the lowercased text.
    let low = lowercase(text);
    let m = group.keywords.len();
    let mut k: usize = 0;
    while k < m
        invariant
            m == group.keywords.len(),
            k <= m,
            group@.keywords.len() == m,
            low@ == lower_of(text@),
            scan_regex(group@.regex, text@) is Miss,
            forall|j: int| 0 <= j < m ==> group@.keywords[j] == group.keywords[j]@,
            forall|j: int| 0 <= j < k ==> !has_token(low@, group@.keywords[j].keyword),
        decreases m - k,
    {
        let rule = &group.keywords[k];
        if contains_token(low.as_str(), rule.keyword.as_str()) {
            proof {
                lemma_scan_keywords_skip(group@.keywords, low@, k as int);
                assert(group@.keywords.skip(k as int)[0] == group@.keywords[k as int]);
            }
            return Ok(Some(MatchOutcome {
                response: rule.response.clone(),
                reaction: crate::pipeline::clone_opt_string(&rule.reaction),
                kind: RuleKind::Keyword,
            }));
        }
        k += 1;
    }
    proof {
        lemma_scan_keywords_skip(group@.keywords, low@, m as int);
        assert(group@.keywords.skip(m as int) =~= Seq::<KeywordRuleV>::empty());
    }
    Ok(None)
}

/// Law: the matcher is a pure function of the text and the group — two runs
/// on identical inputs yield the identical outcome.
pub proof fn lemma_matcher_deterministic(
    g: GroupV,
    text: Seq<char>,
    r1: Result<Option<MatchOutcomeV>, MessageError>,
    r2: Result<Option<MatchOutcomeV>, MessageError>,
)
    requires
        r1 == match_spec(g, text),
        r2 == match_spec(g, text),
    ensures
        r1 == r2,
{
}

/// Law: regex rules are evaluated strictly before keyword rules — whenever
/// the regex scan yields a hit, that hit is the matcher's outcome, it carries
/// the regex kind, and no keyword rule is consulted.
pub proof fn lemma_regex_precedence(g: GroupV, text: Seq<char>)
    requires
        scan_regex(g.regex, text) is Hit,
    ensures
        match_spec(g, text) == Ok::<Option<MatchOutcomeV>, MessageError>(
            Some(scan_regex(g.regex, text)->Hit_0),
        ),
        scan_regex(g.regex, text)->Hit_0.kind == RuleKind::Regex,
{
    lemma_scan_regex_hit_kind(g.regex, text);
}

proof fn lemma_scan_regex_hit_kind(rules: Seq<RegexRuleV>, text: Seq<char>)
    requires
        scan_regex(rules, text) is Hit,
    ensures
        scan_regex(rules, text)->Hit_0.kind == RuleKind::Regex,
    decreases rules.len(),
{
    if rules.len() > 0 && regex_ok(rules[0].pattern) && !regex_match(rules[0].pattern, text) {
        lemma_scan_regex_hit_kind(rules.skip(1), text);
    }
}

} // verus!
