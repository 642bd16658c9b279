//! The Markdown events that the dashboard parser reads, as plain values.
//! CommonMark itself is parsed by `pulldown_cmark`.
use pulldown_cmark::{Event, Options, Parser, Tag, TagEnd};
use vstd::prelude::*;

verus! {

/// One event of the CommonMark event stream, reduced to what the dashboard
/// parser distinguishes.
#[derive(Debug, Clone, PartialEq, Eq)]
pub enum MdEvent {
    /// Start of a heading of the given level (1 to 6).
    HeadingStart(u8),
    /// Start of a list item.
    ItemStart,
    /// End of a list item.
    ItemEnd,
    /// A text node.
    Text(String),
    /// An inline code span, without its backticks.
    Code(String),
    /// An inline HTML node, such as `<!-- comment -->`.
    InlineHtml(String),
    /// Any other event.
    Other,
}

/// The value of an [`MdEvent`], with strings as character sequences.
pub enum MdEventView {
    HeadingStart(u8),
    ItemStart,
    ItemEnd,
    Text(Seq<char>),
    Code(Seq<char>),
    InlineHtml(Seq<char>),
    Other,
}

impl View for MdEvent {
    type V = MdEventView;

    open spec fn view(&self) -> MdEventView {
        match self {
            MdEvent::HeadingStart(l) => MdEventView::HeadingStart(*l),
            MdEvent::ItemStart => MdEventView::ItemStart,
            MdEvent::ItemEnd => MdEventView::ItemEnd,
            MdEvent::Text(s) => MdEventView::Text(s@),
            MdEvent::Code(s) => MdEventView::Code(s@),
            MdEvent::InlineHtml(s) => MdEventView::InlineHtml(s@),
            MdEvent::Other => MdEventView::Other,
        }
    }
}

/// The values of a sequence of events.
pub open spec fn events_view(v: Seq<MdEvent>) -> Seq<MdEventView> {
    v.map_values(|e: MdEvent| e@)
}

/// The event stream that `pulldown_cmark` produces for a document with no
/// extensions enabled.
pub uninterp spec fn markdown_events(body: Seq<char>) -> Seq<MdEventView>;

/// Parses `body` with `pulldown_cmark::Parser::new_ext(body, Options::empty())`
/// and converts each event, one variant to one variant. Trusted: the result is
/// the named stream `markdown_events` of the body's characters; CommonMark
/// parsing is not restated here.
#[verifier::external_body]
pub(crate) fn markdown_events_of(body: &str) -> (events: Vec<MdEvent>)
    ensures
        events_view(events@) == markdown_events(body@),
{
    let mut out = Vec::new();
    for ev in Parser::new_ext(body, Options::empty()) {
        out.push(match ev {
            Event::Start(Tag::Heading { level, .. }) => MdEvent::HeadingStart(level as u8),
            Event::Start(Tag::Item) => MdEvent::ItemStart,
            Event::End(TagEnd::Item) => MdEvent::ItemEnd,
            Event::Text(t) => MdEvent::Text(t.into_string()),
            Event::Code(c) => MdEvent::Code(c.into_string()),
            Event::InlineHtml(h) => MdEvent::InlineHtml(h.into_string()),
            _ => MdEvent::Other,
        });
    }
    out
}

} // verus!
