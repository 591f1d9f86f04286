//! The read-only configuration: ordered groups of rules keyed by channel
//! sets, and the per-invocation message, with their mathematical views.

use vstd::prelude::*;

verus! {

/// A regular-expression rule: a pattern to test against the resolved text,
/// with the response (and optional reaction glyph) to deliver on a match.
#[derive(Debug, Clone, PartialEq)]
pub struct RegexRule {
    pub pattern: String,
    pub reaction: Option<String>,
    pub response: String,
}

/// A keyword rule: a single lowercase token that must occur as a whole token
/// of the resolved text, with the response to deliver on a match.
#[derive(Debug, Clone, PartialEq)]
pub struct KeywordRule {
    pub keyword: String,
    pub reaction: Option<String>,
    pub response: String,
}

/// A known paste host: a domain and a URL template holding a `&filename&`
/// placeholder that the source path is substituted into.
#[derive(Debug, Clone, PartialEq)]
pub struct PasteSite {
    pub domain: String,
    pub format: String,
}

/// One rule group: the channels it applies to, its regex rules (evaluated
/// first, in order), its keyword rules (in order), and its paste-site table.
#[derive(Debug, Clone, PartialEq)]
pub struct Group {
    pub channels: Vec<String>,
    pub regex: Vec<RegexRule>,
    pub keywords: Vec<KeywordRule>,
    pub paste_sites: Vec<PasteSite>,
}

/// The whole configuration: an ordered sequence of groups; the first group
/// whose channel set holds the message's channel is the one consulted.
#[derive(Debug, Clone, PartialEq)]
pub struct Config {
    pub groups: Vec<Group>,
}

/// One incoming message: its channel, its raw text, and the proxy URLs of its
/// attachments, in order.
#[derive(Debug, Clone, PartialEq)]
pub struct Message {
    pub channel: String,
    pub content: String,
    pub attachments: Vec<String>,
}

pub struct RegexRuleV {
    pub pattern: Seq<char>,
    pub reaction: Option<Seq<char>>,
    pub response: Seq<char>,
}

pub struct KeywordRuleV {
    pub keyword: Seq<char>,
    pub reaction: Option<Seq<char>>,
    pub response: Seq<char>,
}

pub struct PasteSiteV {
    pub domain: Seq<char>,
    pub format: Seq<char>,
}

pub struct GroupV {
    pub channels: Seq<Seq<char>>,
    pub regex: Seq<RegexRuleV>,
    pub keywords: Seq<KeywordRuleV>,
    pub paste_sites: Seq<PasteSiteV>,
}

pub struct ConfigV {
    pub groups: Seq<GroupV>,
}

pub struct MessageV {
    pub channel: Seq<char>,
    pub content: Seq<char>,
    pub attachments: Seq<Seq<char>>,
}

impl View for RegexRule {
    type V = RegexRuleV;

    open spec fn view(&self) -> RegexRuleV {
        RegexRuleV {
            pattern: self.pattern@,
            reaction: self.reaction.deep_view(),
            response: self.response@,
        }
    }
}

impl DeepView for RegexRule {
    type V = RegexRuleV;

    open spec fn deep_view(&self) -> RegexRuleV {
        self.view()
    }
}

impl View for KeywordRule {
    type V = KeywordRuleV;

    open spec fn view(&self) -> KeywordRuleV {
        KeywordRuleV {
            keyword: self.keyword@,
            reaction: self.reaction.deep_view(),
            response: self.response@,
        }
    }
}

impl DeepView for KeywordRule {
    type V = KeywordRuleV;

    open spec fn deep_view(&self) -> KeywordRuleV {
        self.view()
    }
}

impl View for PasteSite {
    type V = PasteSiteV;

    open spec fn view(&self) -> PasteSiteV {
        PasteSiteV { domain: self.domain@, format: self.format@ }
    }
}

impl DeepView for PasteSite {
    type V = PasteSiteV;

    open spec fn deep_view(&self) -> PasteSiteV {
        self.view()
    }
}

impl View for Group {
    type V = GroupV;

    open spec fn view(&self) -> GroupV {
        GroupV {
            channels: self.channels.deep_view(),
            regex: self.regex.deep_view(),
            keywords: self.keywords.deep_view(),
            paste_sites: self.paste_sites.deep_view(),
        }
    }
}

impl DeepView for Group {
    type V = GroupV;

    open spec fn deep_view(&self) -> GroupV {
        self.view()
    }
}

impl View for Config {
    type V = ConfigV;

    open spec fn view(&self) -> ConfigV {
        ConfigV { groups: self.groups.deep_view() }
    }
}

impl View for Message {
    type V = MessageV;

    open spec fn view(&self) -> MessageV {
        MessageV {
            channel: self.channel@,
            content: self.content@,
            attachments: self.attachments.deep_view(),
        }
    }
}

/// The channel set of `g` holds `channel`.
pub open spec fn group_has_channel(g: GroupV, channel: Seq<char>) -> bool {
    exists|k: int| 0 <= k < g.channels.len() && g.channels[k] == channel
}

/// The index of the first group whose channel set holds `channel`, scanning
/// from position `i`.
pub open spec fn group_scan(groups: Seq<GroupV>, channel: Seq<char>, i: int) -> Option<int>
    decreases groups.len() - i when 0 <= i <= groups.len()
{
    if i >= groups.len() {
        None
    } else if group_has_channel(groups[i], channel) {
        Some(i)
    } else {
        group_scan(groups, channel, i + 1)
    }
}

/// The scan finds the first matching index: what it returns matches, and no
/// earlier position does.
pub proof fn lemma_group_scan_first(groups: Seq<GroupV>, channel: Seq<char>, i: int)
    requires
        0 <= i <= groups.len(),
    ensures
        match group_scan(groups, channel, i) {
            Some(k) => i <= k < groups.len() && group_has_channel(groups[k], channel)
                && forall|j: int| i <= j < k ==> !group_has_channel(groups[j], channel),
            None => forall|j: int|
                i <= j < groups.len() ==> !group_has_channel(groups[j], channel),
        },
    decreases groups.len() - i,
{
    if i < groups.len() && !group_has_channel(groups[i], channel) {
        lemma_group_scan_first(groups, channel, i + 1);
    }
}

/// Does the string `c` occur in `chs`?
fn vec_contains_string(chs: &Vec<String>, c: &String) -> (r: bool)
    ensures
        r == exists|k: int| 0 <= k < chs.deep_view().len() && chs.deep_view()[k] == c@,
{
    let n = chs.len();
    let mut k: usize = 0;
    while k < n
        invariant
            n == chs.len(),
            k <= n,
            chs.deep_view().len() == n,
            forall|j: int| 0 <= j < k ==> chs.deep_view()[j] != c@,
            forall|j: int| 0 <= j < n ==> chs.deep_view()[j] == chs[j]@,
        decreases n - k,
    {
        if chs[k].eq(c) {
            assert(chs.deep_view()[k as int] == c@);
            return true;
        }
        k += 1;
    }
    false
}

/// Select the group for a channel: the index of the first group, in
/// configured order, whose channel set holds `channel`.
pub fn select_group(cfg: &Config, channel: &String) -> (r: Option<usize>)
    ensures
        match r {
            Some(i) => i < cfg@.groups.len() && Some(i as int) == group_scan(
                cfg@.groups,
                channel@,
                0,
            ),
            None => group_scan(cfg@.groups, channel@, 0) is None,
        },
{
    let n = cfg.groups.len();
    let mut i: usize = 0;
    while i < n
        invariant
            n == cfg.groups.len(),
            i <= n,
            cfg@.groups.len() == n,
            forall|j: int| 0 <= j < i ==> !group_has_channel(cfg@.groups[j], channel@),
            forall|j: int| 0 <= j < n ==> cfg@.groups[j] == cfg.groups[j]@,
        decreases n - i,
    {
        if vec_contains_string(&cfg.groups[i].channels, channel) {
            proof {
                let chsd = cfg.groups@[i as int].channels.deep_view();
                let k = choose|k: int| 0 <= k < chsd.len() && chsd[k] == channel@;
                assert(cfg@.groups[i as int].channels[k] == channel@);
                assert(group_has_channel(cfg@.groups[i as int], channel@));
                lemma_group_scan_first(cfg@.groups, channel@, 0);
            }
            return Some(i);
        }
        i += 1;
    }
    proof {
        lemma_group_scan_first(cfg@.groups, channel@, 0);
    }
    None
}

} // verus!
