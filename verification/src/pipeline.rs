//! The pipeline orchestrator: selects the group for a message's channel,
//! extracts a content locator, plans the paste or image fetch, and folds the
//! fetch results back into a final outcome. The caller performs the fetches
//! and the character recognition and feeds their results in as plain values.

use vstd::prelude::*;
use crate::config::{
    group_has_channel, group_scan, lemma_group_scan_first, Config, ConfigV, Group, GroupV,
    Message, MessageV,
};
use crate::extract::{extract, extract_spec, Locator, LocatorV};
use crate::ocr::{
    content_type_is_image, content_type_is_text, is_image_content_type, is_text_content_type,
    reencode_tiff, tiff_encodable, tiff_of,
};
use crate::paste::{paste_decision_spec, paste_plan, PasteDecision, PasteDecisionV};
use crate::rules::{match_rules, match_spec, MatchOutcome, MatchOutcomeV};

verus! {

/// The pipeline's error and signal taxonomy. Only `NoGroupForChannel` and
/// `Configuration` escape from the pipeline's own functions; the remaining
/// variants name the soft signals and fetch-time failures that drive the
/// fallback chain, for the caller to log when it observes them.
#[derive(Debug, Clone, Copy, PartialEq, Eq, Structural)]
pub enum MessageError {
    /// No configured group's channel set holds the message's channel.
    NoGroupForChannel,
    /// A malformed regex pattern in the configuration, surfaced at the point
    /// of first use.
    Configuration,
    /// The URL belongs to no configured paste site.
    NotPaste,
    /// A fetched resource declared a content type this stage does not accept.
    BadType,
    /// A network-level failure, reported by the caller performing the fetch.
    Transport,
    /// Malformed image bytes: the decode or re-encode step failed.
    Decode,
}

pub open spec fn describe_spec(e: MessageError) -> Seq<char> {
    match e {
        MessageError::NoGroupForChannel => "no group is configured for this channel"@,
        MessageError::Configuration => "malformed regex pattern in configuration"@,
        MessageError::NotPaste => "the URL belongs to no configured paste site"@,
        MessageError::BadType => "the resource declared an unacceptable content type"@,
        MessageError::Transport => "the fetch failed"@,
        MessageError::Decode => "the image bytes could not be decoded"@,
    }
}

impl MessageError {
    /// A short human-readable description of the error.
    pub fn describe(&self) -> (r: &'static str)
        ensures
            r@ == describe_spec(*self),
    {
        match self {
            MessageError::NoGroupForChannel => "no group is configured for this channel",
            MessageError::Configuration => "malformed regex pattern in configuration",
            MessageError::NotPaste => "the URL belongs to no configured paste site",
            MessageError::BadType => "the resource declared an unacceptable content type",
            MessageError::Transport => "the fetch failed",
            MessageError::Decode => "the image bytes could not be decoded",
        }
    }
}

/// Copy an optional string; the view is unchanged.
pub(crate) fn clone_opt_string(o: &Option<String>) -> (r: Option<String>)
    ensures
        r.deep_view() == o.deep_view(),
{
    match o {
        Some(s) => Some(s.clone()),
        None => None,
    }
}

/// A fetched resource decoded as text: the declared content type, when the
/// response carried one, and the body.
#[derive(Debug, Clone, PartialEq)]
pub struct TextResponse {
    pub content_type: Option<String>,
    pub body: String,
}

pub struct TextResponseV {
    pub content_type: Option<Seq<char>>,
    pub body: Seq<char>,
}

impl View for TextResponse {
    type V = TextResponseV;

    open spec fn view(&self) -> TextResponseV {
        TextResponseV { content_type: self.content_type.deep_view(), body: self.body@ }
    }
}

impl DeepView for TextResponse {
    type V = TextResponseV;

    open spec fn deep_view(&self) -> TextResponseV {
        self.view()
    }
}

/// A fetched resource kept as raw bytes: the declared content type, when the
/// response carried one, and the body.
#[derive(Debug, Clone, PartialEq)]
pub struct BytesResponse {
    pub content_type: Option<String>,
    pub body: Vec<u8>,
}

pub struct BytesResponseV {
    pub content_type: Option<Seq<char>>,
    pub body: Seq<u8>,
}

impl View for BytesResponse {
    type V = BytesResponseV;

    open spec fn view(&self) -> BytesResponseV {
        BytesResponseV { content_type: self.content_type.deep_view(), body: self.body@ }
    }
}

impl DeepView for BytesResponse {
    type V = BytesResponseV;

    open spec fn deep_view(&self) -> BytesResponseV {
        self.view()
    }
}

/// What the orchestrator asks of its caller next. The caller performs the
/// named outside work and feeds the result into the matching `pipeline_*`
/// continuation.
#[derive(Debug, Clone, PartialEq)]
pub enum Step {
    /// The invocation is finished with this outcome.
    Done(Option<MatchOutcome>),
    /// Fetch `fetch_url`, decode as text, and continue with
    /// `pipeline_paste_reply`; `remote_url` is the original locator, kept for
    /// the image fallback.
    FetchText { fetch_url: String, remote_url: String },
    /// Fetch `url` as raw bytes and continue with `pipeline_image_reply`.
    FetchImage { url: String },
    /// Run character recognition on this TIFF image and continue with
    /// `pipeline_ocr_reply`.
    RunOcr { tiff: Vec<u8> },
}

pub enum StepV {
    Done(Option<MatchOutcomeV>),
    FetchText { fetch_url: Seq<char>, remote_url: Seq<char> },
    FetchImage { url: Seq<char> },
    RunOcr { tiff: Seq<u8> },
}

impl View for Step {
    type V = StepV;

    open spec fn view(&self) -> StepV {
        match self {
            Step::Done(o) => StepV::Done(o.deep_view()),
            Step::FetchText { fetch_url, remote_url } => StepV::FetchText {
                fetch_url: fetch_url@,
                remote_url: remote_url@,
            },
            Step::FetchImage { url } => StepV::FetchImage { url: url@ },
            Step::RunOcr { tiff } => StepV::RunOcr { tiff: tiff@ },
        }
    }
}

/// The pipeline's first move for a message: select the group for its channel
/// (first in configured order), extract a locator, and either finish on
/// inline or empty content or ask for the paste or image fetch.
pub open spec fn begin_spec(cfg: ConfigV, m: MessageV) -> Result<(int, StepV), MessageError> {
    match group_scan(cfg.groups, m.channel, 0) {
        None => Err(MessageError::NoGroupForChannel),
        Some(gi) => {
            let g = cfg.groups[gi];
            match extract_spec(m) {
                LocatorV::Empty => Ok((gi, StepV::Done(None))),
                LocatorV::InlineText(t) => match match_spec(g, t) {
                    Err(e) => Err(e),
                    Ok(o) => Ok((gi, StepV::Done(o))),
                },
                LocatorV::RemoteUrl(u) => match paste_decision_spec(g, u) {
                    PasteDecisionV::Fetch(fu) => Ok(
                        (gi, StepV::FetchText { fetch_url: fu, remote_url: u }),
                    ),
                    PasteDecisionV::NotPaste => Ok((gi, StepV::FetchImage { url: u })),
                    PasteDecisionV::BadUrl => Ok((gi, StepV::FetchImage { url: u })),
                },
            }
        },
    }
}

/// Begin the pipeline for a message under a configuration. Returns the index
/// of the selected group together with the first step, or the terminal error
/// when no group covers the channel or a malformed pattern is reached.
pub fn pipeline_begin(cfg: &Config, msg: &Message) -> (r: Result<(usize, Step), MessageError>)
    ensures
        match r {
            Ok(p) => begin_spec(cfg@, msg@) == Ok::<(int, StepV), MessageError>(
                (p.0 as int, p.1@),
            ),
            Err(e) => begin_spec(cfg@, msg@) == Err::<(int, StepV), MessageError>(e),
        },
{
    let gi = match crate::config::select_group(cfg, &msg.channel) {
        Some(gi) => gi,
        None => {
            return Err(MessageError::NoGroupForChannel);
        },
    };
    let group = &cfg.groups[gi];
    match extract(msg) {
        Locator::Empty => Ok((gi, Step::Done(None))),
        Locator::InlineText(t) => match match_rules(t.as_str(), group) {
            Err(e) => Err(e),
            Ok(o) => Ok((gi, Step::Done(o))),
        },
        Locator::RemoteUrl(u) => match paste_plan(group, &u) {
            PasteDecision::Fetch(fu) => Ok(
                (gi, Step::FetchText { fetch_url: fu, remote_url: u }),
            ),
            PasteDecision::NotPaste => Ok((gi, Step::FetchImage { url: u })),
            PasteDecision::BadUrl => Ok((gi, Step::FetchImage { url: u })),
        },
    }
}

/// The pipeline's move after the paste fetch: accept a `text/plain` body and
/// finish with the matcher's outcome on it — a successful paste fetch
/// suppresses the image fallback whatever the matcher says — and on any
/// other declared type, a missing header, or a failed fetch, fall through to
/// the image fetch on the original URL.
pub open spec fn paste_reply_spec(
    g: GroupV,
    remote: Seq<char>,
    reply: Option<TextResponseV>,
) -> Result<StepV, MessageError> {
    match reply {
        Some(resp) => match resp.content_type {
            Some(ct) => if is_text_content_type(ct) {
                match match_spec(g, resp.body) {
                    Err(e) => Err(e),
                    Ok(o) => Ok(StepV::Done(o)),
                }
            } else {
                Ok(StepV::FetchImage { url: remote })
            },
            None => Ok(StepV::FetchImage { url: remote }),
        },
        None => Ok(StepV::FetchImage { url: remote }),
    }
}

/// Continue after the paste fetch; `reply` is `None` on a network failure.
pub fn pipeline_paste_reply(
    group: &Group,
    remote_url: &String,
    reply: Option<TextResponse>,
) -> (r: Result<Step, MessageError>)
    ensures
        match r {
            Ok(step) => paste_reply_spec(group@, remote_url@, reply.deep_view())
                == Ok::<StepV, MessageError>(step@),
            Err(e) => paste_reply_spec(group@, remote_url@, reply.deep_view())
                == Err::<StepV, MessageError>(e),
        },
{
    match reply {
        Some(resp) => match resp.content_type {
            Some(ct) => {
                if content_type_is_text(ct.as_str()) {
                    match match_rules(resp.body.as_str(), group) {
                        Err(e) => Err(e),
                        Ok(o) => Ok(Step::Done(o)),
                    }
                } else {
                    Ok(Step::FetchImage { url: remote_url.clone() })
                }
            },
            None => Ok(Step::FetchImage { url: remote_url.clone() }),
        },
        None => Ok(Step::FetchImage { url: remote_url.clone() }),
    }
}

/// The pipeline's move after the image fetch: accept a declared JPEG or PNG
/// body that decodes and re-encodes for recognition; any other declared
/// type, a missing header, a failed fetch, or undecodable bytes ends the
/// invocation with no outcome rather than an error.
pub open spec fn image_reply_spec(reply: Option<BytesResponseV>) -> StepV {
    match reply {
        Some(resp) => match resp.content_type {
            Some(ct) => if is_image_content_type(ct) {
                if tiff_encodable(resp.body) {
                    StepV::RunOcr { tiff: tiff_of(resp.body) }
                } else {
                    StepV::Done(None)
                }
            } else {
                StepV::Done(None)
            },
            None => StepV::Done(None),
        },
        None => StepV::Done(None),
    }
}

/// Continue after the image fetch; `reply` is `None` on a network failure.
pub fn pipeline_image_reply(reply: Option<BytesResponse>) -> (r: Step)
    ensures
        r@ == image_reply_spec(reply.deep_view()),
{
    match reply {
        Some(resp) => match resp.content_type {
            Some(ct) => {
                if content_type_is_image(ct.as_str()) {
                    match reencode_tiff(&resp.body) {
                        Some(tiff) => Step::RunOcr { tiff },
                        None => Step::Done(None),
                    }
                } else {
                    Step::Done(None)
                }
            },
            None => Step::Done(None),
        },
        None => Step::Done(None),
    }
}

/// The pipeline's last move: the matcher's outcome on the recognized text,
/// or no outcome when recognition failed.
pub open spec fn ocr_reply_spec(g: GroupV, text: Option<Seq<char>>) -> Result<
    StepV,
    MessageError,
> {
    match text {
        Some(t) => match match_spec(g, t) {
            Err(e) => Err(e),
            Ok(o) => Ok(StepV::Done(o)),
        },
        None => Ok(StepV::Done(None)),
    }
}

/// Continue after character recognition; `text` is `None` when the engine
/// failed.
pub fn pipeline_ocr_reply(group: &Group, text: Option<String>) -> (r: Result<
    Step,
    MessageError,
>)
    ensures
        match r {
            Ok(step) => ocr_reply_spec(group@, text.deep_view()) == Ok::<StepV, MessageError>(
                step@,
            ),
            Err(e) => ocr_reply_spec(group@, text.deep_view()) == Err::<StepV, MessageError>(e),
        },
{
    match text {
        Some(t) => match match_rules(t.as_str(), group) {
            Err(e) => Err(e),
            Ok(o) => Ok(Step::Done(o)),
        },
        None => Ok(Step::Done(None)),
    }
}

/// The event handler's state: the configuration loaded at startup, shared
/// read-only by every invocation.
#[derive(Debug, Clone)]
pub struct Handler {
    pub cfg: Config,
}

impl Handler {
    /// Begin the pipeline for one message under this handler's configuration.
    pub fn begin(&self, msg: &Message) -> (r: Result<(usize, Step), MessageError>)
        ensures
            match r {
                Ok(p) => begin_spec(self.cfg@, msg@) == Ok::<(int, StepV), MessageError>(
                    (p.0 as int, p.1@),
                ),
                Err(e) => begin_spec(self.cfg@, msg@) == Err::<(int, StepV), MessageError>(e),
            },
    {
        pipeline_begin(&self.cfg, msg)
    }
}

/// Law: a paste fetch that comes back with a `text/plain` content type ends
/// the invocation — with the matcher's outcome or a configuration error —
/// and never falls through to the image fetch, whether or not a rule
/// matched.
pub proof fn lemma_paste_success_suppresses_image(
    g: GroupV,
    remote: Seq<char>,
    resp: TextResponseV,
)
    requires
        resp.content_type matches Some(ct) && is_text_content_type(ct),
    ensures
        paste_reply_spec(g, remote, Some(resp)) matches Ok(s) ==> s is Done,
{
}

/// Law: when no group's channel set holds the message's channel, the
/// pipeline ends at once with `NoGroupForChannel`; no fetch is asked for and
/// no outcome is produced.
pub proof fn lemma_no_group_terminal(cfg: ConfigV, m: MessageV)
    requires
        forall|i: int|
            0 <= i < cfg.groups.len() ==> !group_has_channel(cfg.groups[i], m.channel),
    ensures
        begin_spec(cfg, m) == Err::<(int, StepV), MessageError>(MessageError::NoGroupForChannel),
{
    lemma_group_scan_first(cfg.groups, m.channel, 0);
}

} // verus!
