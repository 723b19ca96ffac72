use vstd::prelude::*;
use crate::markdown::events::{events_view, markdown_events, spec_markdown_events, EventV, MdEvent, MdTag, TagV};
use crate::markdown::renderer::{
    headings_view, links_view, render_events, rendered, HeadingInfo, HeadingV, ImageSet, LinkInfo, LinkV,
};
use crate::markdown::theme::Theme;
use crate::strings::{
    chars_of, split_lines, split_lines_of, starts_with, starts_with_chars, string_of, trim, trim_chars,
    trim_start_matches,
};
use crate::text::{LineView, StyledText};

verus! {

/// A parsed markdown document: its styled text, its source, its title (the first
/// `# ` heading), and the headings and links found in it.
#[derive(Debug, Clone, PartialEq, Eq)]
pub struct MarkdownDocument {
    pub text: StyledText,
    pub source: String,
    pub title: Option<String>,
    pub headings: Vec<HeadingInfo>,
    pub links: Vec<LinkInfo>,
}

pub struct DocumentV {
    pub text: Seq<LineView>,
    pub source: Seq<char>,
    pub title: Option<Seq<char>>,
    pub headings: Seq<HeadingV>,
    pub links: Seq<LinkV>,
}

impl View for MarkdownDocument {
    type V = DocumentV;

    open spec fn view(&self) -> DocumentV {
        DocumentV {
            text: self.text@,
            source: self.source@,
            title: match self.title { Some(t) => Some(t@), None => None },
            headings: headings_view(self.headings@),
            links: links_view(self.links@),
        }
    }
}

/// `"# "`
pub open spec fn hash_space() -> Seq<char> {
    seq!['#', ' ']
}

/// The text of the first line that starts, once trimmed, with `"# "`: the trimmed
/// line without its leading `"# "` markers.
pub open spec fn first_heading_in(ls: Seq<Seq<char>>) -> Option<Seq<char>>
    decreases ls.len(),
{
    if ls.len() == 0 {
        None
    } else if starts_with(trim(ls[0]), hash_space()) {
        Some(trim_start_matches(trim(ls[0]), hash_space()))
    } else {
        first_heading_in(ls.drop_first())
    }
}

/// The title of a markdown text: its first `# ` heading line.
pub open spec fn title_of(content: Seq<char>) -> Option<Seq<char>> {
    first_heading_in(split_lines(content))
}

/// The document that a markdown text renders to.
pub open spec fn parsed(content: Seq<char>, theme: Theme, imgs: Seq<(Seq<char>, Seq<LineView>)>) -> DocumentV {
    let out = rendered(spec_markdown_events(content), theme, imgs);
    DocumentV {
        text: out.text,
        source: content,
        title: title_of(content),
        headings: out.headings,
        links: out.links,
    }
}

/// Parses and renders markdown text.
pub fn parse(content: &str, theme: &Theme, images: &ImageSet) -> (r: MarkdownDocument)
    ensures
        r@ == parsed(content@, *theme, images@),
{
    let out = crate::markdown::renderer::render(content, theme, images);
    let title = extract_first_heading(content);
    let r = MarkdownDocument {
        text: out.text,
        source: string_of(chars_of(content).as_slice()),
        title,
        headings: out.headings,
        links: out.links,
    };
    r
}

fn strip_hash_markers(s: &Vec<char>) -> (r: Vec<char>)
    ensures
        r@ == trim_start_matches(s@, hash_space()),
{
    let p = vec!['#', ' '];
    assert(p@ =~= hash_space());
    let mut k: usize = 0;
    assert(s@.skip(0) == s@);
    while k < s.len() && s.len() - k >= 2 && s[k] == '#' && s[k + 1] == ' '
        invariant
            k <= s@.len(),
            trim_start_matches(s@, hash_space()) == trim_start_matches(s@.skip(k as int), hash_space()),
        decreases s@.len() - k,
    {
        proof {
            let t = s@.skip(k as int);
            assert(t.take(2) =~= hash_space());
            assert(t.skip(2) =~= s@.skip(k + 2));
        }
        k = k + 2;
    }
    proof {
        let t = s@.skip(k as int);
        if t.len() >= 2 {
            assert(t[0] == s@[k as int] && t[1] == s@[k + 1]);
            if t.take(2) == hash_space() {
                assert(t.take(2)[0] == '#' && t.take(2)[1] == ' ');
            }
        }
    }
    let mut r: Vec<char> = Vec::new();
    let mut i: usize = k;
    while i < s.len()
        invariant
            k <= i <= s@.len(),
            r@ == s@.subrange(k as int, i as int),
        decreases s@.len() - i,
    {
        r.push(s[i]);
        i = i + 1;
    }
    assert(r@ =~= s@.skip(k as int));
    r
}

/// The text of the first line that starts (once trimmed) with `"# "`.
pub fn extract_first_heading(content: &str) -> (r: Option<String>)
    ensures
        match r {
            Some(t) => title_of(content@) == Some(t@),
            None => title_of(content@) is None,
        },
{
    let cs = chars_of(content);
    let ls = split_lines_of(cs.as_slice());
    let ghost lv = ls@.map_values(|l: Vec<char>| l@);
    let hs = vec!['#', ' '];
    assert(hs@ =~= hash_space());
    let mut i: usize = 0;
    assert(lv.skip(0) == lv);
    while i < ls.len()
        invariant
            i <= ls@.len(),
            lv == ls@.map_values(|l: Vec<char>| l@),
            lv == split_lines(content@),
            hs@ == hash_space(),
            first_heading_in(lv) == first_heading_in(lv.skip(i as int)),
        decreases ls@.len() - i,
    {
        let t = trim_chars(ls[i].as_slice());
        proof {
            assert(lv.skip(i as int)[0] == ls@[i as int]@);
            assert(lv.skip(i as int).drop_first() == lv.skip(i + 1 as int));
        }
        if starts_with_chars(t.as_slice(), hs.as_slice()) {
            let h = strip_hash_markers(&t);
            return Some(string_of(h.as_slice()));
        }
        i = i + 1;
    }
    None
}

/// The sources of the images in a list of events, in order.
pub open spec fn image_urls(events: Seq<EventV>) -> Seq<Seq<char>>
    decreases events.len(),
{
    if events.len() == 0 {
        seq![]
    } else {
        let rest = image_urls(events.drop_last());
        match events.last() {
            EventV::Start(TagV::Image(u)) => rest.push(u),
            _ => rest,
        }
    }
}

/// The sources of the images of a markdown text, in order, so that the images
/// can be loaded before the text is rendered.
pub fn image_sources(content: &str) -> (r: Vec<String>)
    ensures
        r@.map_values(|s: String| s@) == image_urls(spec_markdown_events(content@)),
{
    let events = markdown_events(content);
    image_sources_of(&events)
}

/// The sources of the images among the events, in order.
pub fn image_sources_of(events: &Vec<MdEvent>) -> (r: Vec<String>)
    ensures
        r@.map_values(|s: String| s@) == image_urls(events_view(events@)),
{
    let ghost ev = events_view(events@);
    let mut r: Vec<String> = Vec::new();
    let mut i: usize = 0;
    while i < events.len()
        invariant
            i <= events@.len(),
            ev == events_view(events@),
            r@.map_values(|s: String| s@) == image_urls(ev.take(i as int)),
        decreases events@.len() - i,
    {
        proof {
            assert(ev.take(i + 1 as int).drop_last() == ev.take(i as int));
            assert(ev.take(i + 1 as int).last() == events@[i as int]@);
        }
        match &events[i] {
            MdEvent::Start(MdTag::Image(u)) => {
                let ghost old_r = r@;
                r.push(u.clone());
                assert(r@.map_values(|s: String| s@) =~= old_r.map_values(|s: String| s@).push(u@));
            },
            _ => {},
        }
        i = i + 1;
    }
    assert(ev.take(events@.len() as int) == ev);
    r
}

} // verus!
