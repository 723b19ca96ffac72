//! Markdown events: what the markdown parser reports, held as plain values.
use vstd::prelude::*;
use pulldown_cmark::{CodeBlockKind, Event, Options, Parser, Tag, TagEnd};
use pulldown_cmark::HeadingLevel as CmarkLevel;

verus! {

/// Heading levels, `#` to `######`.
#[derive(Debug, Clone, Copy, PartialEq, Eq, Structural)]
pub enum HeadingLevel {
    H1,
    H2,
    H3,
    H4,
    H5,
    H6,
}

/// How a code block was written.
#[derive(Debug, Clone, PartialEq, Eq)]
pub enum CodeKind {
    Indented,
    /// Fenced, with the info string that follows the opening fence (possibly empty).
    Fenced(String),
}

/// The start of a markdown element.
#[derive(Debug, Clone, PartialEq, Eq)]
pub enum MdTag {
    Paragraph,
    Heading(HeadingLevel),
    BlockQuote,
    CodeBlock(CodeKind),
    /// A list; the number of its first item when it is ordered.
    List(Option<u64>),
    Item,
    Table,
    TableHead,
    TableRow,
    TableCell,
    Emphasis,
    Strong,
    Strikethrough,
    /// A link, with its destination.
    Link(String),
    /// An image, with its source.
    Image(String),
    MetadataBlock,
    /// An element that the viewer does not render specially.
    Other,
}

/// The end of a markdown element.
#[derive(Debug, Clone, Copy, PartialEq, Eq, Structural)]
pub enum MdTagEnd {
    Paragraph,
    Heading(HeadingLevel),
    BlockQuote,
    CodeBlock,
    List,
    Item,
    Table,
    TableHead,
    TableRow,
    TableCell,
    Emphasis,
    Strong,
    Strikethrough,
    Link,
    Image,
    MetadataBlock,
    Other,
}

/// One markdown event.
#[derive(Debug, Clone, PartialEq, Eq)]
pub enum MdEvent {
    Start(MdTag),
    End(MdTagEnd),
    Text(String),
    /// Inline code.
    Code(String),
    SoftBreak,
    HardBreak,
    /// A thematic break (horizontal rule).
    Rule,
    /// A task list checkbox; `true` when checked.
    TaskListMarker(bool),
    /// An event that the viewer ignores.
    Other,
}

pub enum CodeKindV {
    Indented,
    Fenced(Seq<char>),
}

pub enum TagV {
    Paragraph,
    Heading(HeadingLevel),
    BlockQuote,
    CodeBlock(CodeKindV),
    List(Option<u64>),
    Item,
    Table,
    TableHead,
    TableRow,
    TableCell,
    Emphasis,
    Strong,
    Strikethrough,
    Link(Seq<char>),
    Image(Seq<char>),
    MetadataBlock,
    Other,
}

pub enum EventV {
    Start(TagV),
    End(MdTagEnd),
    Text(Seq<char>),
    Code(Seq<char>),
    SoftBreak,
    HardBreak,
    Rule,
    TaskListMarker(bool),
    Other,
}

impl View for CodeKind {
    type V = CodeKindV;

    open spec fn view(&self) -> CodeKindV {
        match self {
            CodeKind::Indented => CodeKindV::Indented,
            CodeKind::Fenced(s) => CodeKindV::Fenced(s@),
        }
    }
}

impl View for MdTag {
    type V = TagV;

    open spec fn view(&self) -> TagV {
        match self {
            MdTag::Paragraph => TagV::Paragraph,
            MdTag::Heading(l) => TagV::Heading(*l),
            MdTag::BlockQuote => TagV::BlockQuote,
            MdTag::CodeBlock(k) => TagV::CodeBlock(k@),
            MdTag::List(n) => TagV::List(*n),
            MdTag::Item => TagV::Item,
            MdTag::Table => TagV::Table,
            MdTag::TableHead => TagV::TableHead,
            MdTag::TableRow => TagV::TableRow,
            MdTag::TableCell => TagV::TableCell,
            MdTag::Emphasis => TagV::Emphasis,
            MdTag::Strong => TagV::Strong,
            MdTag::Strikethrough => TagV::Strikethrough,
            MdTag::Link(u) => TagV::Link(u@),
            MdTag::Image(u) => TagV::Image(u@),
            MdTag::MetadataBlock => TagV::MetadataBlock,
            MdTag::Other => TagV::Other,
        }
    }
}

impl View for MdEvent {
    type V = EventV;

    open spec fn view(&self) -> EventV {
        match self {
            MdEvent::Start(t) => EventV::Start(t@),
            MdEvent::End(t) => EventV::End(*t),
            MdEvent::Text(s) => EventV::Text(s@),
            MdEvent::Code(s) => EventV::Code(s@),
            MdEvent::SoftBreak => EventV::SoftBreak,
            MdEvent::HardBreak => EventV::HardBreak,
            MdEvent::Rule => EventV::Rule,
            MdEvent::TaskListMarker(b) => EventV::TaskListMarker(*b),
            MdEvent::Other => EventV::Other,
        }
    }
}

pub open spec fn events_view(v: Seq<MdEvent>) -> Seq<EventV> {
    v.map_values(|e: MdEvent| e@)
}

// ---------------------------------------------------------------------------
// The markdown parser.

// pulldown-cmark's event types, opaque here: they only pass from the parser to
// the converters below.
#[verifier::external_type_specification]
#[verifier::external_body]
pub struct ExCmarkEvent<'a>(Event<'a>);

#[verifier::external_type_specification]
#[verifier::external_body]
pub struct ExCmarkTag<'a>(Tag<'a>);

#[verifier::external_type_specification]
#[verifier::external_body]
pub struct ExCmarkTagEnd(TagEnd);

#[verifier::external_type_specification]
#[verifier::external_body]
pub struct ExCmarkHeadingLevel(CmarkLevel);

/// Name for the events that pulldown-cmark reports for a markdown text, parsed
/// with tables, strikethrough, task lists and YAML front matter enabled.
pub uninterp spec fn spec_markdown_events(content: Seq<char>) -> Seq<EventV>;

/// Parses `content` with pulldown-cmark's `Parser::new_ext` (tables, strikethrough,
/// task lists and YAML-style metadata blocks enabled) and collects its events.
/// Claimed: the events are a function of the text (named above). Nothing is
/// claimed of what they are.
#[verifier::external_body]
pub fn markdown_events(content: &str) -> (r: Vec<MdEvent>)
    ensures
        events_view(r@) == spec_markdown_events(content@),
{
    let mut opts = Options::empty();
    opts.insert(Options::ENABLE_TABLES);
    opts.insert(Options::ENABLE_STRIKETHROUGH);
    opts.insert(Options::ENABLE_TASKLISTS);
    opts.insert(Options::ENABLE_YAML_STYLE_METADATA_BLOCKS);
    Parser::new_ext(content, opts).map(event_from_cmark).collect()
}

/// Converts one pulldown-cmark event to the library's event, variant for variant;
/// the events the viewer does not handle become `Other`. Used by `markdown_events` alone.
#[verifier::external_body]
fn event_from_cmark(e: Event<'_>) -> MdEvent {
    match e {
        Event::Start(t) => MdEvent::Start(tag_from_cmark(t)),
        Event::End(t) => MdEvent::End(tag_end_from_cmark(t)),
        Event::Text(s) => MdEvent::Text(s.to_string()),
        Event::Code(s) => MdEvent::Code(s.to_string()),
        Event::SoftBreak => MdEvent::SoftBreak,
        Event::HardBreak => MdEvent::HardBreak,
        Event::Rule => MdEvent::Rule,
        Event::TaskListMarker(b) => MdEvent::TaskListMarker(b),
        _ => MdEvent::Other,
    }
}

/// Converts a pulldown-cmark start tag, variant for variant; the others become `Other`.
#[verifier::external_body]
fn tag_from_cmark(t: Tag<'_>) -> MdTag {
    match t {
        Tag::Paragraph => MdTag::Paragraph, Tag::BlockQuote(_) => MdTag::BlockQuote,
        Tag::Heading { level, .. } => MdTag::Heading(level_from_cmark(level)),
        Tag::CodeBlock(CodeBlockKind::Indented) => MdTag::CodeBlock(CodeKind::Indented),
        Tag::CodeBlock(CodeBlockKind::Fenced(l)) => MdTag::CodeBlock(CodeKind::Fenced(l.to_string())),
        Tag::List(n) => MdTag::List(n), Tag::Item => MdTag::Item, Tag::Table(_) => MdTag::Table,
        Tag::TableHead => MdTag::TableHead, Tag::TableRow => MdTag::TableRow,
        Tag::TableCell => MdTag::TableCell,
        t => inline_tag_from_cmark(t),
    }
}

/// Converts the pulldown-cmark start tags of inline elements and of front matter,
/// variant for variant; the others become `Other`. Used by `tag_from_cmark` alone.
#[verifier::external_body]
fn inline_tag_from_cmark(t: Tag<'_>) -> MdTag {
    match t {
        Tag::Emphasis => MdTag::Emphasis,
        Tag::Strong => MdTag::Strong,
        Tag::Strikethrough => MdTag::Strikethrough,
        Tag::Link { dest_url, .. } => MdTag::Link(dest_url.to_string()),
        Tag::Image { dest_url, .. } => MdTag::Image(dest_url.to_string()),
        Tag::MetadataBlock(_) => MdTag::MetadataBlock,
        _ => MdTag::Other,
    }
}

/// Converts a pulldown-cmark end tag, variant for variant; the others become `Other`.
#[verifier::external_body]
fn tag_end_from_cmark(t: TagEnd) -> MdTagEnd {
    match t {
        TagEnd::Paragraph => MdTagEnd::Paragraph, TagEnd::BlockQuote(_) => MdTagEnd::BlockQuote,
        TagEnd::Heading(l) => MdTagEnd::Heading(level_from_cmark(l)),
        TagEnd::CodeBlock => MdTagEnd::CodeBlock, TagEnd::List(_) => MdTagEnd::List,
        TagEnd::Item => MdTagEnd::Item, TagEnd::Table => MdTagEnd::Table,
        TagEnd::TableHead => MdTagEnd::TableHead, TagEnd::TableRow => MdTagEnd::TableRow,
        TagEnd::TableCell => MdTagEnd::TableCell, TagEnd::Emphasis => MdTagEnd::Emphasis,
        TagEnd::Strong => MdTagEnd::Strong, TagEnd::Strikethrough => MdTagEnd::Strikethrough,
        TagEnd::Link => MdTagEnd::Link, TagEnd::Image => MdTagEnd::Image,
        TagEnd::MetadataBlock(_) => MdTagEnd::MetadataBlock,
        _ => MdTagEnd::Other,
    }
}

/// Converts a pulldown-cmark heading level, variant for variant.
#[verifier::external_body]
fn level_from_cmark(l: CmarkLevel) -> HeadingLevel {
    match l {
        CmarkLevel::H1 => HeadingLevel::H1,
        CmarkLevel::H2 => HeadingLevel::H2,
        CmarkLevel::H3 => HeadingLevel::H3,
        CmarkLevel::H4 => HeadingLevel::H4,
        CmarkLevel::H5 => HeadingLevel::H5,
        CmarkLevel::H6 => HeadingLevel::H6,
    }
}

} // verus!
