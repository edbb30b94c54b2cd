//! Markdown events: the parser's output, held as plain values.
//!
//! Parsing is done by `pulldown_cmark`; its events are carried into the library
//! as [`MdEvent`] values, which the renderer consumes.

use vstd::prelude::*;
use pulldown_cmark::{CodeBlockKind, Event, Options, Parser, Tag};

verus! {

/// Parser option: GitHub-style tables.
pub const OPTION_TABLES: u32 = 2;

/// Parser option: footnotes.
pub const OPTION_FOOTNOTES: u32 = 4;

/// Parser option: `~~strikethrough~~`.
pub const OPTION_STRIKETHROUGH: u32 = 8;

/// Parser option: `- [x]` task lists.
pub const OPTION_TASKLISTS: u32 = 16;

/// Parser option: smart quotes and dashes.
pub const OPTION_SMART_PUNCTUATION: u32 = 32;

/// The extensions the renderer enables: tables, footnotes, strikethrough,
/// task lists and smart punctuation.
pub const MARKDOWN_OPTIONS: u32 = OPTION_TABLES | OPTION_FOOTNOTES | OPTION_STRIKETHROUGH
    | OPTION_TASKLISTS | OPTION_SMART_PUNCTUATION;

/// A Markdown element that opens and closes around its content.
pub enum MdTag {
    Paragraph,
    /// A heading of level 1 to 6.
    Heading(u8),
    BlockQuote,
    /// A code block: `Some(info)` when fenced (the info string may be empty),
    /// `None` when indented.
    CodeBlock(Option<String>),
    /// A list: `Some(n)` when ordered and starting at `n`.
    List(Option<u64>),
    Item,
    FootnoteDefinition(String),
    Table,
    TableHead,
    TableRow,
    TableCell,
    Emphasis,
    Strong,
    Strikethrough,
    /// A link to the given destination.
    Link(String),
    Image,
}

/// One event of a Markdown parse.
pub enum MdEvent {
    Start(MdTag),
    End(MdTag),
    Text(String),
    Code(String),
    Html(String),
    FootnoteReference(String),
    SoftBreak,
    HardBreak,
    Rule,
    TaskListMarker(bool),
}

/// The mathematical value of an [`MdTag`].
pub enum TagView {
    Paragraph,
    Heading(u8),
    BlockQuote,
    CodeBlock(Option<Seq<char>>),
    List(Option<u64>),
    Item,
    FootnoteDefinition(Seq<char>),
    Table,
    TableHead,
    TableRow,
    TableCell,
    Emphasis,
    Strong,
    Strikethrough,
    Link(Seq<char>),
    Image,
}

/// The mathematical value of an [`MdEvent`].
pub enum EventView {
    Start(TagView),
    End(TagView),
    Text(Seq<char>),
    Code(Seq<char>),
    Html(Seq<char>),
    FootnoteReference(Seq<char>),
    SoftBreak,
    HardBreak,
    Rule,
    TaskListMarker(bool),
}

impl View for MdTag {
    type V = TagView;

    open spec fn view(&self) -> TagView {
        match self {
            MdTag::Paragraph => TagView::Paragraph,
            MdTag::Heading(l) => TagView::Heading(*l),
            MdTag::BlockQuote => TagView::BlockQuote,
            MdTag::CodeBlock(None) => TagView::CodeBlock(None),
            MdTag::CodeBlock(Some(l)) => TagView::CodeBlock(Some(l@)),
            MdTag::List(n) => TagView::List(*n),
            MdTag::Item => TagView::Item,
            MdTag::FootnoteDefinition(n) => TagView::FootnoteDefinition(n@),
            MdTag::Table => TagView::Table,
            MdTag::TableHead => TagView::TableHead,
            MdTag::TableRow => TagView::TableRow,
            MdTag::TableCell => TagView::TableCell,
            MdTag::Emphasis => TagView::Emphasis,
            MdTag::Strong => TagView::Strong,
            MdTag::Strikethrough => TagView::Strikethrough,
            MdTag::Link(d) => TagView::Link(d@),
            MdTag::Image => TagView::Image,
        }
    }
}

impl View for MdEvent {
    type V = EventView;

    open spec fn view(&self) -> EventView {
        match self {
            MdEvent::Start(t) => EventView::Start(t@),
            MdEvent::End(t) => EventView::End(t@),
            MdEvent::Text(s) => EventView::Text(s@),
            MdEvent::Code(s) => EventView::Code(s@),
            MdEvent::Html(s) => EventView::Html(s@),
            MdEvent::FootnoteReference(s) => EventView::FootnoteReference(s@),
            MdEvent::SoftBreak => EventView::SoftBreak,
            MdEvent::HardBreak => EventView::HardBreak,
            MdEvent::Rule => EventView::Rule,
            MdEvent::TaskListMarker(b) => EventView::TaskListMarker(*b),
        }
    }
}

/// The views of a sequence of events.
pub open spec fn event_views(es: Seq<MdEvent>) -> Seq<EventView> {
    es.map_values(|e: MdEvent| e@)
}

/// The events that `pulldown_cmark` produces for `markdown` under the option bits `options`.
pub uninterp spec fn markdown_events(markdown: Seq<char>, options: u32) -> Seq<EventView>;

/// An event with the details of its tag left out.
pub enum EventHead {
    Start,
    End,
    Text(String),
    Code(String),
    Html(String),
    FootnoteReference(String),
    SoftBreak,
    HardBreak,
    Rule,
    TaskListMarker(bool),
}

/// The mathematical value of an [`EventHead`].
pub enum HeadView {
    Start,
    End,
    Text(Seq<char>),
    Code(Seq<char>),
    Html(Seq<char>),
    FootnoteReference(Seq<char>),
    SoftBreak,
    HardBreak,
    Rule,
    TaskListMarker(bool),
}

impl View for EventHead {
    type V = HeadView;

    open spec fn view(&self) -> HeadView {
        match self {
            EventHead::Start => HeadView::Start,
            EventHead::End => HeadView::End,
            EventHead::Text(s) => HeadView::Text(s@),
            EventHead::Code(s) => HeadView::Code(s@),
            EventHead::Html(s) => HeadView::Html(s@),
            EventHead::FootnoteReference(s) => HeadView::FootnoteReference(s@),
            EventHead::SoftBreak => HeadView::SoftBreak,
            EventHead::HardBreak => HeadView::HardBreak,
            EventHead::Rule => HeadView::Rule,
            EventHead::TaskListMarker(b) => HeadView::TaskListMarker(*b),
        }
    }
}

/// An event without the details of its tag.
pub open spec fn head_of(e: EventView) -> HeadView {
    match e {
        EventView::Start(_) => HeadView::Start,
        EventView::End(_) => HeadView::End,
        EventView::Text(s) => HeadView::Text(s),
        EventView::Code(s) => HeadView::Code(s),
        EventView::Html(s) => HeadView::Html(s),
        EventView::FootnoteReference(s) => HeadView::FootnoteReference(s),
        EventView::SoftBreak => HeadView::SoftBreak,
        EventView::HardBreak => HeadView::HardBreak,
        EventView::Rule => HeadView::Rule,
        EventView::TaskListMarker(b) => HeadView::TaskListMarker(b),
    }
}

/// Whether a tag is one of those carried by [`markdown_block_tags`].
pub open spec fn is_block_tag(t: TagView) -> bool {
    ||| t is Paragraph
    ||| t is Heading
    ||| t is BlockQuote
    ||| t is CodeBlock
    ||| t is List
    ||| t is Item
}

/// The tag of a start or end event when it is a block tag.
pub open spec fn block_tag_of(e: EventView) -> Option<TagView> {
    match e {
        EventView::Start(t) => if is_block_tag(t) { Some(t) } else { None },
        EventView::End(t) => if is_block_tag(t) { Some(t) } else { None },
        _ => None,
    }
}

/// The tag of a start or end event when it is not a block tag.
pub open spec fn other_tag_of(e: EventView) -> Option<TagView> {
    match e {
        EventView::Start(t) => if is_block_tag(t) { None } else { Some(t) },
        EventView::End(t) => if is_block_tag(t) { None } else { Some(t) },
        _ => None,
    }
}

/// The views of optional tags.
pub open spec fn opt_tag_views(ts: Seq<Option<MdTag>>) -> Seq<Option<TagView>> {
    ts.map_values(|t: Option<MdTag>| opt_tag_view(t))
}

/// The event heads that `pulldown_cmark::Parser::new_ext` yields for `markdown`.
///
/// Trusted: the parser is called with the option bits given; each event is
/// copied into an [`EventHead`] variant for variant, its text copied into a `String`.
#[verifier::external_body]
fn markdown_heads(markdown: &str, options: u32) -> (heads: Vec<EventHead>)
    ensures
        heads@.map_values(|h: EventHead| h@) == markdown_events(markdown@, options).map_values(
            |e: EventView| head_of(e),
        ),
{
    let mut heads = Vec::new();
    for e in Parser::new_ext(markdown, Options::from_bits_truncate(options)) {
        heads.push(match e {
            Event::Start(_) => EventHead::Start, Event::End(_) => EventHead::End,
            Event::Text(s) => EventHead::Text(s.to_string()),
            Event::Code(s) => EventHead::Code(s.to_string()),
            Event::Html(s) => EventHead::Html(s.to_string()),
            Event::FootnoteReference(s) => EventHead::FootnoteReference(s.to_string()),
            Event::SoftBreak => EventHead::SoftBreak,
            Event::HardBreak => EventHead::HardBreak,
            Event::Rule => EventHead::Rule,
            Event::TaskListMarker(b) => EventHead::TaskListMarker(b),
        });
    }
    heads
}

/// The block tags of the events that `pulldown_cmark::Parser::new_ext` yields for `markdown`.
///
/// Trusted: same parse as [`markdown_heads`]; a start or end event whose tag is a
/// paragraph, heading, block quote, code block, list or item gives that tag
/// (a heading's level as its number, a fenced block's info string as text),
/// every other event gives `None`.
#[verifier::external_body]
fn markdown_block_tags(markdown: &str, options: u32) -> (tags: Vec<Option<MdTag>>)
    ensures
        opt_tag_views(tags@) == markdown_events(markdown@, options).map_values(
            |e: EventView| block_tag_of(e),
        ),
{
    Parser::new_ext(markdown, Options::from_bits_truncate(options)).map(|e| match e {
        Event::Start(t) | Event::End(t) => match t {
            Tag::Paragraph => Some(MdTag::Paragraph),
            Tag::Heading(level, _, _) => Some(MdTag::Heading(level as u8)),
            Tag::BlockQuote => Some(MdTag::BlockQuote),
            Tag::CodeBlock(CodeBlockKind::Indented) => Some(MdTag::CodeBlock(None)),
            Tag::CodeBlock(CodeBlockKind::Fenced(l)) => Some(MdTag::CodeBlock(Some(l.to_string()))),
            Tag::List(start) => Some(MdTag::List(start)),
            Tag::Item => Some(MdTag::Item),
            _ => None,
        },
        _ => None,
    }).collect()
}

/// The other tags of the events that `pulldown_cmark::Parser::new_ext` yields for `markdown`.
///
/// Trusted: same parse as [`markdown_heads`]; a start or end event whose tag is not
/// a block tag gives that tag (a footnote's label and a link's destination as
/// text), every other event gives `None`.
#[verifier::external_body]
fn markdown_other_tags(markdown: &str, options: u32) -> (tags: Vec<Option<MdTag>>)
    ensures
        opt_tag_views(tags@) == markdown_events(markdown@, options).map_values(
            |e: EventView| other_tag_of(e),
        ),
{
    Parser::new_ext(markdown, Options::from_bits_truncate(options)).map(|e| match e {
        Event::Start(t) | Event::End(t) => Some(match t {
            Tag::FootnoteDefinition(n) => MdTag::FootnoteDefinition(n.to_string()),
            Tag::Table(_) => MdTag::Table, Tag::TableHead => MdTag::TableHead,
            Tag::TableRow => MdTag::TableRow, Tag::TableCell => MdTag::TableCell,
            Tag::Emphasis => MdTag::Emphasis, Tag::Strong => MdTag::Strong,
            Tag::Strikethrough => MdTag::Strikethrough,
            Tag::Link(_, dest, _) => MdTag::Link(dest.to_string()),
            Tag::Image(..) => MdTag::Image,
            _ => return None,
        }),
        _ => None,
    }).collect()
}

/// The view of an optional tag.
pub open spec fn opt_tag_view(t: Option<MdTag>) -> Option<TagView> {
    match t {
        Some(t) => Some(t@),
        None => None,
    }
}

/// Reassembles an event from its head and the tag that one of the two tag lists holds.
pub open spec fn assemble(h: HeadView, b: Option<TagView>, o: Option<TagView>) -> EventView {
    let t = match b {
        Some(t) => t,
        None => o->0,
    };
    match h {
        HeadView::Start => EventView::Start(t),
        HeadView::End => EventView::End(t),
        HeadView::Text(s) => EventView::Text(s),
        HeadView::Code(s) => EventView::Code(s),
        HeadView::Html(s) => EventView::Html(s),
        HeadView::FootnoteReference(s) => EventView::FootnoteReference(s),
        HeadView::SoftBreak => EventView::SoftBreak,
        HeadView::HardBreak => EventView::HardBreak,
        HeadView::Rule => EventView::Rule,
        HeadView::TaskListMarker(b) => EventView::TaskListMarker(b),
    }
}

/// An event is recovered from its head and its tag.
proof fn lemma_assemble(e: EventView)
    ensures
        assemble(head_of(e), block_tag_of(e), other_tag_of(e)) == e,
{
}

fn assemble_event(h: EventHead, b: Option<MdTag>, o: Option<MdTag>) -> (e: MdEvent)
    requires
        (h@ is Start || h@ is End) ==> (b is Some || o is Some),
    ensures
        e@ == assemble(h@, opt_tag_view(b), opt_tag_view(o)),
{
    let t = match b {
        Some(t) => Some(t),
        None => o,
    };
    match h {
        EventHead::Start => match t {
            Some(t) => MdEvent::Start(t),
            None => MdEvent::Rule,
        },
        EventHead::End => match t {
            Some(t) => MdEvent::End(t),
            None => MdEvent::Rule,
        },
        EventHead::Text(s) => MdEvent::Text(s),
        EventHead::Code(s) => MdEvent::Code(s),
        EventHead::Html(s) => MdEvent::Html(s),
        EventHead::FootnoteReference(s) => MdEvent::FootnoteReference(s),
        EventHead::SoftBreak => MdEvent::SoftBreak,
        EventHead::HardBreak => MdEvent::HardBreak,
        EventHead::Rule => MdEvent::Rule,
        EventHead::TaskListMarker(b) => MdEvent::TaskListMarker(b),
    }
}

/// Parses `markdown` with the renderer's extensions (tables, footnotes,
/// strikethrough, task lists, smart punctuation) into its sequence of events.
pub fn parse_markdown(markdown: &str) -> (events: Vec<MdEvent>)
    ensures
        event_views(events@) == markdown_events(markdown@, MARKDOWN_OPTIONS),
{
    let ghost evs = markdown_events(markdown@, MARKDOWN_OPTIONS);
    let mut heads = markdown_heads(markdown, MARKDOWN_OPTIONS);
    let mut blocks = markdown_block_tags(markdown, MARKDOWN_OPTIONS);
    let mut others = markdown_other_tags(markdown, MARKDOWN_OPTIONS);
    assert(heads@.len() == evs.len() && blocks@.len() == evs.len() && others@.len() == evs.len()) by {
        assert(heads@.map_values(|h: EventHead| h@).len() == heads@.len());
        assert(opt_tag_views(blocks@).len() == blocks@.len());
        assert(opt_tag_views(others@).len() == others@.len());
    }
    assert forall|i: int| 0 <= i < heads@.len() implies (#[trigger] heads@[i])@ == head_of(evs[i]) by {
        assert(heads@.map_values(|h: EventHead| h@)[i] == evs.map_values(|e: EventView| head_of(e))[i]);
    }
    assert forall|i: int| 0 <= i < heads@.len() implies opt_tag_view(#[trigger] blocks@[i]) == block_tag_of(evs[i]) by {
        assert(opt_tag_views(blocks@)[i] == evs.map_values(|e: EventView| block_tag_of(e))[i]);
    }
    assert forall|i: int| 0 <= i < heads@.len() implies opt_tag_view(#[trigger] others@[i]) == other_tag_of(evs[i]) by {
        assert(opt_tag_views(others@)[i] == evs.map_values(|e: EventView| other_tag_of(e))[i]);
    }
    // Events are taken from the back, then put back in order.
    let mut reversed: Vec<MdEvent> = Vec::new();
    while heads.len() > 0
        invariant
            heads@.len() + reversed@.len() == evs.len(),
            blocks@.len() == heads@.len(),
            others@.len() == heads@.len(),
            forall|i: int| 0 <= i < heads@.len() ==> (#[trigger] heads@[i])@ == head_of(evs[i]),
            forall|i: int| 0 <= i < heads@.len() ==> opt_tag_view(#[trigger] blocks@[i]) == block_tag_of(evs[i]),
            forall|i: int| 0 <= i < heads@.len() ==> opt_tag_view(#[trigger] others@[i]) == other_tag_of(evs[i]),
            forall|j: int| 0 <= j < reversed@.len() ==> (#[trigger] reversed@[j])@ == evs[evs.len() - 1 - j],
        decreases heads@.len(),
    {
        let ghost k = heads@.len() - 1;
        let h = heads.pop().unwrap();
        let b = blocks.pop().unwrap();
        let o = others.pop().unwrap();
        proof {
            lemma_assemble(evs[k]);
        }
        let e = assemble_event(h, b, o);
        reversed.push(e);
    }
    let mut events: Vec<MdEvent> = Vec::new();
    while reversed.len() > 0
        invariant
            events@.len() + reversed@.len() == evs.len(),
            forall|j: int| 0 <= j < reversed@.len() ==> (#[trigger] reversed@[j])@ == evs[evs.len() - 1 - j],
            forall|i: int| 0 <= i < events@.len() ==> (#[trigger] events@[i])@ == evs[i],
        decreases reversed@.len(),
    {
        let e = reversed.pop().unwrap();
        events.push(e);
    }
    assert(event_views(events@) =~= evs);
    events
}

} // verus!
