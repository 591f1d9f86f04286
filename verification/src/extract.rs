//! The content extractor: pure inspection of a message that yields either a
//! remote content locator (a URL), the inline text itself, or nothing.

use vstd::prelude::*;
use vstd::string::StrSliceExecFns;
use vstd::string::StringExecFns;
use crate::config::{Message, MessageV};
use crate::text::{matches_at, occurs_at};

verus! {

/// Zero or one candidate source of content for a message: a remote URL to
/// fetch, the message's own text, or nothing at all.
#[derive(Debug, Clone, PartialEq)]
pub enum Locator {
    RemoteUrl(String),
    InlineText(String),
    Empty,
}

pub enum LocatorV {
    RemoteUrl(Seq<char>),
    InlineText(Seq<char>),
    Empty,
}

impl View for Locator {
    type V = LocatorV;

    open spec fn view(&self) -> LocatorV {
        match self {
            Locator::RemoteUrl(u) => LocatorV::RemoteUrl(u@),
            Locator::InlineText(t) => LocatorV::InlineText(t@),
            Locator::Empty => LocatorV::Empty,
        }
    }
}

/// An HTTP or HTTPS URL begins at position `i` of `s`.
pub open spec fn url_start_at(s: Seq<char>, i: int) -> bool {
    matches_at(s, "http://"@, i) || matches_at(s, "https://"@, i)
}

/// The position of the first URL start in `s` at or after `i`, if any.
pub open spec fn first_url_start(s: Seq<char>, i: int) -> Option<int>
    decreases s.len() - i when 0 <= i <= s.len()
{
    if i >= s.len() {
        None
    } else if url_start_at(s, i) {
        Some(i)
    } else {
        first_url_start(s, i + 1)
    }
}

/// The first URL start is exactly that: a start position, with none earlier.
pub proof fn lemma_first_url_start(s: Seq<char>, i: int)
    requires
        0 <= i <= s.len(),
    ensures
        match first_url_start(s, i) {
            Some(k) => i <= k < s.len() && url_start_at(s, k) && forall|j: int|
                i <= j < k ==> !url_start_at(s, j),
            None => forall|j: int| i <= j < s.len() ==> !url_start_at(s, j),
        },
    decreases s.len() - i,
{
    if i < s.len() && !url_start_at(s, i) {
        lemma_first_url_start(s, i + 1);
    }
}

/// What the extractor yields for a message: the first attachment's URL when
/// there is one; else, for non-empty text, the text from the first URL start
/// onward if there is any, and the whole text otherwise; else nothing.
pub open spec fn extract_spec(m: MessageV) -> LocatorV {
    if m.attachments.len() > 0 {
        LocatorV::RemoteUrl(m.attachments[0])
    } else if m.content.len() > 0 {
        match first_url_start(m.content, 0) {
            Some(i) => LocatorV::RemoteUrl(m.content.skip(i)),
            None => LocatorV::InlineText(m.content),
        }
    } else {
        LocatorV::Empty
    }
}

proof fn lemma_first_url_start_step(s: Seq<char>, i: int)
    requires
        0 <= i <= s.len(),
        forall|j: int| 0 <= j < i ==> !url_start_at(s, j),
    ensures
        first_url_start(s, 0) == first_url_start(s, i),
    decreases i,
{
    if i > 0 {
        lemma_first_url_start_step(s, i - 1);
    }
}

/// Find the first position of `s` where an HTTP or HTTPS URL begins.
fn find_url_start(s: &str) -> (r: Option<usize>)
    ensures
        match r {
            Some(i) => first_url_start(s@, 0) == Some(i as int),
            None => first_url_start(s@, 0) is None,
        },
{
    let s_len = s.unicode_len();
    let mut i: usize = 0;
    while i < s_len
        invariant
            s_len == s@.len(),
            i <= s_len,
            forall|j: int| 0 <= j < i ==> !url_start_at(s@, j),
        decreases s_len - i,
    {
        proof {
            reveal_strlit("http://");
            reveal_strlit("https://");
        }
        let http_here = s_len - i >= 7 && occurs_at(s, "http://", i);
        let https_here = s_len - i >= 8 && occurs_at(s, "https://", i);
        if http_here || https_here {
            proof {
                assert(url_start_at(s@, i as int));
                lemma_first_url_start_step(s@, i as int);
            }
            return Some(i);
        }
        proof {
            assert(!url_start_at(s@, i as int));
        }
        i += 1;
    }
    proof {
        lemma_first_url_start_step(s@, s_len as int);
    }
    None
}

/// Extract a content locator from a message: the first attachment's proxy URL
/// takes unconditional precedence; otherwise the first URL substring of the
/// text; otherwise the raw text itself; otherwise nothing. Performs no I/O.
pub fn extract(msg: &Message) -> (r: Locator)
    ensures
        r@ == extract_spec(msg@),
{
    if msg.attachments.len() > 0 {
        return Locator::RemoteUrl(msg.attachments[0].clone());
    }
    let content_len = msg.content.as_str().unicode_len();
    if content_len > 0 {
        match find_url_start(msg.content.as_str()) {
            Some(i) => {
                proof {
                    lemma_first_url_start(msg.content@, 0);
                }
                let tail = msg.content.as_str().substring_char(i, content_len);
                proof {
                    assert(msg.content@.subrange(i as int, content_len as int) =~= msg.content@
                        .skip(i as int));
                }
                Locator::RemoteUrl(String::from_str(tail))
            },
            None => Locator::InlineText(msg.content.clone()),
        }
    } else {
        Locator::Empty
    }
}

/// Law: for every message with at least one attachment, the extractor selects
/// the first attachment's URL, whatever the text holds.
pub proof fn lemma_attachment_precedence(m: MessageV)
    requires
        m.attachments.len() > 0,
    ensures
        extract_spec(m) == LocatorV::RemoteUrl(m.attachments[0]),
{
}

/// Law: for every non-empty message text without attachments that holds a URL
/// start, the extracted locator is exactly the text from the first URL start
/// to the end.
pub proof fn lemma_url_extraction(m: MessageV, i: int)
    requires
        m.attachments.len() == 0,
        m.content.len() > 0,
        0 <= i,
        url_start_at(m.content, i),
    ensures
        exists|k: int|
            {
                &&& 0 <= k <= i
                &&& url_start_at(m.content, k)
                &&& (forall|j: int| 0 <= j < k ==> !url_start_at(m.content, j))
                &&& extract_spec(m) == LocatorV::RemoteUrl(m.content.skip(k))
            },
{
    reveal_strlit("http://");
    reveal_strlit("https://");
    lemma_first_url_start(m.content, 0);
    match first_url_start(m.content, 0) {
        Some(k) => {
            assert(k <= i) by {
                if k > i {
                    assert(!url_start_at(m.content, i));
                }
            }
            assert(0 <= k <= i && url_start_at(m.content, k) && (forall|j: int|
                0 <= j < k ==> !url_start_at(m.content, j)) && extract_spec(m)
                == LocatorV::RemoteUrl(m.content.skip(k)));
        },
        None => {
            assert(!url_start_at(m.content, i));
            assert(false);
        },
    }
}

} // verus!
