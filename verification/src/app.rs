//! The viewer's state and its reactions to keys and actions.
//!
//! The state holds the document, the viewport, the interaction mode, the search
//! and the stack of files left by following links. Reading files and opening
//! links in a browser are done by the caller: a reaction returns an [`Effect`]
//! that says what to do, and the caller hands back the file it read.
use vstd::prelude::*;
use crate::action::Action;
use crate::event::AppEvent;
use crate::input::{InputMap, KeyCode, KeyPress};
use crate::markdown::parser::{parse, parsed, DocumentV, MarkdownDocument};
use crate::markdown::renderer::{HeadingV, ImageSet};
use crate::markdown::theme::{default_theme, Theme};
use crate::strings::{chars_of, contains_chars, contains_sub, ends_with, ends_with_chars, string_of};
use crate::text::{line_chars, spans_view, text_contents, LineView, StyledLine};
use crate::ui::viewport::{
    clamped, max_scroll, scrolled_down, scrolled_to, scrolled_up, spec_wrapped_line_count, Viewport, ViewportView,
};

verus! {

/// Active interaction mode. Decides how key presses are routed.
#[derive(Debug, Clone, Copy, PartialEq, Eq, Structural)]
pub enum Mode {
    Normal,
    /// Key presses go into the search query; Enter commits, Esc cancels.
    Search,
    Help,
    Toc,
    LinkPicker,
}

impl Default for Mode {
    fn default() -> (r: Mode)
        ensures
            r == Mode::Normal,
    {
        Mode::Normal
    }
}

/// What the caller is to do after a reaction.
#[derive(Debug, Clone, PartialEq, Eq)]
pub enum Effect {
    /// Nothing to do.
    NoOp,
    /// Open the URL with the system's default handler.
    OpenExternal(String),
    /// Read the markdown file at this path, relative to the current file's directory,
    /// and show it with [`App::enter_document`].
    FollowLink(String),
    /// Read the file at this path and show it again at this scroll position with
    /// [`App::reopen`].
    Reopen(String, u16),
}

pub enum EffectV {
    NoOp,
    OpenExternal(Seq<char>),
    FollowLink(Seq<char>),
    Reopen(Seq<char>, u16),
}

impl View for Effect {
    type V = EffectV;

    open spec fn view(&self) -> EffectV {
        match self {
            Effect::NoOp => EffectV::NoOp,
            Effect::OpenExternal(u) => EffectV::OpenExternal(u@),
            Effect::FollowLink(u) => EffectV::FollowLink(u@),
            Effect::Reopen(p, s) => EffectV::Reopen(p@, *s),
        }
    }
}

struct FileStackEntry {
    path: String,
    scroll_offset: u16,
}

/// The viewer.
pub struct App {
    pub document: MarkdownDocument,
    pub viewport: Viewport,
    pub input_map: InputMap,
    pub theme: Theme,
    pub filename: String,
    pub file_path: Option<String>,
    mode: Mode,
    search_query: String,
    search_matches: Vec<usize>,
    search_index: usize,
    should_quit: bool,
    pub toc_index: usize,
    pub link_index: usize,
    file_stack: Vec<FileStackEntry>,
}

/// The state of the viewer.
#[verifier::ext_equal]
pub struct AppView {
    pub document: DocumentV,
    pub viewport: ViewportView,
    pub keys: Map<KeyPress, Action>,
    pub theme: Theme,
    pub filename: Seq<char>,
    pub file_path: Option<Seq<char>>,
    pub mode: Mode,
    pub search_query: Seq<char>,
    /// Indices of the lines that hold the query.
    pub search_matches: Seq<usize>,
    pub search_index: usize,
    pub should_quit: bool,
    pub toc_index: usize,
    pub link_index: usize,
    /// Files left by following links, with their scroll positions; the last is the latest.
    pub file_stack: Seq<(Seq<char>, u16)>,
}

impl View for App {
    type V = AppView;

    closed spec fn view(&self) -> AppView {
        AppView {
            document: self.document@,
            viewport: self.viewport@,
            keys: self.input_map@,
            theme: self.theme,
            filename: self.filename@,
            file_path: match self.file_path { Some(p) => Some(p@), None => None },
            mode: self.mode,
            search_query: self.search_query@,
            search_matches: self.search_matches@,
            search_index: self.search_index,
            should_quit: self.should_quit,
            toc_index: self.toc_index,
            link_index: self.link_index,
            file_stack: self.file_stack@.map_values(|e: FileStackEntry| (e.path@, e.scroll_offset)),
        }
    }
}

impl App {
    /// The numbers of headings, links and search matches are lengths of vectors,
    /// so they fit a `usize`; moving through them wraps around without overflow.
    pub proof fn lemma_counts_fit(&self)
        ensures
            self@.document.headings.len() <= usize::MAX,
            self@.document.links.len() <= usize::MAX,
            self@.search_matches.len() <= usize::MAX,
    {
        vstd::std_specs::vec::axiom_spec_len(&self.document.headings);
        vstd::std_specs::vec::axiom_spec_len(&self.document.links);
        vstd::std_specs::vec::axiom_spec_len(&self.search_matches);
    }
}

/// The entry after entry `i` of `n`, wrapping around: `(i + 1) % n`, computed
/// without overflow.
fn next_index(i: usize, n: usize) -> (r: usize)
    requires
        n > 0,
    ensures
        r == (i + 1) % (n as int),
{
    proof {
        vstd::arithmetic::div_mod::lemma_add_mod_noop_right(1, i as int, n as int);
    }
    (i % n + 1) % n
}

pub open spec fn with_viewport(v: AppView, vp: ViewportView) -> AppView {
    AppView { viewport: vp, ..v }
}

/// Scrolls to the current search match, if there is one.
pub open spec fn jumped(v: AppView) -> AppView {
    if v.search_index < v.search_matches.len() {
        with_viewport(v, scrolled_to(v.viewport, v.search_matches[v.search_index as int] as u16))
    } else {
        v
    }
}

/// The line of the first heading below line `cur`.
pub open spec fn next_heading_line(hs: Seq<HeadingV>, cur: int) -> Option<usize>
    decreases hs.len(),
{
    if hs.len() == 0 {
        None
    } else if hs[0].line > cur {
        Some(hs[0].line)
    } else {
        next_heading_line(hs.drop_first(), cur)
    }
}

/// The line of the last heading above line `cur`.
pub open spec fn prev_heading_line(hs: Seq<HeadingV>, cur: int) -> Option<usize>
    decreases hs.len(),
{
    if hs.len() == 0 {
        None
    } else if hs.last().line < cur {
        Some(hs.last().line)
    } else {
        prev_heading_line(hs.drop_last(), cur)
    }
}

pub open spec fn toggled(m: Mode, target: Mode) -> Mode {
    if m == target { Mode::Normal } else { target }
}

/// The effect of an action on the viewer, for a viewport of `vh` rows.
pub open spec fn acted(v: AppView, action: Action, vh: u16) -> AppView {
    let n_matches = v.search_matches.len();
    let cur = v.viewport.scroll_offset as int;
    match action {
        Action::Quit => AppView { should_quit: true, ..v },
        Action::ScrollUp(n) => with_viewport(v, scrolled_up(v.viewport, n)),
        Action::ScrollDown(n) => with_viewport(v, scrolled_down(v.viewport, n)),
        Action::PageUp => with_viewport(v, scrolled_up(v.viewport, vh / 2)),
        Action::PageDown => with_viewport(v, scrolled_down(v.viewport, vh / 2)),
        Action::Top => with_viewport(v, scrolled_to(v.viewport, 0)),
        Action::Bottom => with_viewport(v, scrolled_to(v.viewport, max_scroll(v.viewport.content_height, vh))),
        Action::ToggleHelp => AppView { mode: toggled(v.mode, Mode::Help), ..v },
        Action::EnterSearch => AppView {
            search_query: seq![],
            search_matches: seq![],
            search_index: 0,
            mode: Mode::Search,
            ..v
        },
        Action::SearchNext => if n_matches > 0 {
            jumped(AppView { search_index: ((v.search_index + 1) % (n_matches as int)) as usize, ..v })
        } else {
            v
        },
        Action::SearchPrev => if n_matches > 0 {
            jumped(AppView {
                search_index: if v.search_index == 0 { (n_matches - 1) as usize } else { (v.search_index - 1) as usize },
                ..v
            })
        } else {
            v
        },
        Action::NextHeading => match next_heading_line(v.document.headings, cur) {
            Some(l) => with_viewport(v, scrolled_to(v.viewport, l as u16)),
            None => v,
        },
        Action::PrevHeading => match prev_heading_line(v.document.headings, cur) {
            Some(l) => with_viewport(v, scrolled_to(v.viewport, l as u16)),
            None => v,
        },
        Action::ToggleToc => if v.mode == Mode::Toc {
            AppView { mode: Mode::Normal, ..v }
        } else {
            AppView { mode: Mode::Toc, toc_index: 0, ..v }
        },
        Action::ToggleLinkPicker => if v.mode == Mode::LinkPicker {
            AppView { mode: Mode::Normal, ..v }
        } else {
            AppView { mode: Mode::LinkPicker, link_index: 0, ..v }
        },
        Action::OpenLink => v,
        Action::GoBack => if v.file_stack.len() > 0 {
            AppView { file_stack: v.file_stack.drop_last(), ..v }
        } else {
            v
        },
    }
}

/// What the caller is to do after an action: only going back asks for something,
/// the file on top of the stack.
pub open spec fn action_effect(v: AppView, action: Action) -> EffectV {
    if action == Action::GoBack && v.file_stack.len() > 0 {
        EffectV::Reopen(v.file_stack.last().0, v.file_stack.last().1)
    } else {
        EffectV::NoOp
    }
}

/// Name for `str::to_lowercase` (full Unicode lowercasing) on a text.
pub uninterp spec fn spec_lowercase(s: Seq<char>) -> Seq<char>;

/// Calls `str::to_lowercase`. Claimed: the result is a function of the text (named above).
#[verifier::external_body]
fn lowercase(s: &[char]) -> (r: Vec<char>)
    ensures
        r@ == spec_lowercase(s@),
{
    String::from_iter(s).to_lowercase().chars().collect()
}

/// Indices of the lines whose text holds the query, ignoring case.
pub open spec fn search_hits(lines: Seq<LineView>, q: Seq<char>) -> Seq<usize>
    decreases lines.len(),
{
    if lines.len() == 0 {
        seq![]
    } else {
        let rest = search_hits(lines.drop_last(), q);
        if contains_sub(spec_lowercase(line_chars(lines.last().spans)), spec_lowercase(q)) {
            rest.push((lines.len() - 1) as usize)
        } else {
            rest
        }
    }
}

/// The search committed: the matching lines found anew, the first one current.
pub open spec fn searched(v: AppView) -> AppView {
    AppView {
        search_matches: if v.search_query.len() == 0 { seq![] } else { search_hits(v.document.text, v.search_query) },
        search_index: 0,
        ..v
    }
}

/// `"://"`
pub open spec fn scheme_sep() -> Seq<char> {
    seq![':', '/', '/']
}

/// A link to a local markdown file: no scheme, and a `.md` or `.markdown` ending.
pub open spec fn is_local_md(url: Seq<char>) -> bool {
    !contains_sub(url, scheme_sep())
        && (ends_with(url, seq!['.', 'm', 'd']) || ends_with(url, seq!['.', 'm', 'a', 'r', 'k', 'd', 'o', 'w', 'n']))
}

pub open spec fn is_char(k: KeyPress, c: char) -> bool {
    k.code == KeyCode::Char(c)
}

/// The effect of a key press, for a viewport of `vh` rows.
pub open spec fn keyed(v: AppView, k: KeyPress, vh: u16) -> AppView {
    let nh = v.document.headings.len();
    let nl = v.document.links.len();
    match v.mode {
        Mode::Normal => if v.keys.contains_key(k) { acted(v, v.keys[k], vh) } else { v },
        Mode::Search => match k.code {
            KeyCode::Enter => {
                let s = AppView { mode: Mode::Normal, ..searched(v) };
                if s.search_matches.len() > 0 { jumped(s) } else { s }
            },
            KeyCode::Esc => AppView { mode: Mode::Normal, ..v },
            KeyCode::Backspace => AppView {
                search_query: if v.search_query.len() > 0 { v.search_query.drop_last() } else { v.search_query },
                ..v
            },
            KeyCode::Char(c) => AppView { search_query: v.search_query.push(c), ..v },
            _ => v,
        },
        Mode::Help => AppView { mode: Mode::Normal, ..v },
        Mode::Toc => if k.code == KeyCode::Esc || is_char(k, 't') || is_char(k, 'q') {
            AppView { mode: Mode::Normal, ..v }
        } else if is_char(k, 'j') || k.code == KeyCode::Down {
            if nh > 0 { AppView { toc_index: ((v.toc_index + 1) % (nh as int)) as usize, ..v } } else { v }
        } else if is_char(k, 'k') || k.code == KeyCode::Up {
            if nh > 0 {
                AppView { toc_index: if v.toc_index == 0 { (nh - 1) as usize } else { (v.toc_index - 1) as usize }, ..v }
            } else {
                v
            }
        } else if k.code == KeyCode::Enter {
            if v.toc_index < nh {
                AppView {
                    mode: Mode::Normal,
                    viewport: scrolled_to(v.viewport, v.document.headings[v.toc_index as int].line as u16),
                    ..v
                }
            } else {
                v
            }
        } else {
            v
        },
        Mode::LinkPicker => if k.code == KeyCode::Esc || is_char(k, 'o') || is_char(k, 'q') {
            AppView { mode: Mode::Normal, ..v }
        } else if is_char(k, 'j') || k.code == KeyCode::Down {
            if nl > 0 { AppView { link_index: ((v.link_index + 1) % (nl as int)) as usize, ..v } } else { v }
        } else if is_char(k, 'k') || k.code == KeyCode::Up {
            if nl > 0 {
                AppView { link_index: if v.link_index == 0 { (nl - 1) as usize } else { (v.link_index - 1) as usize }, ..v }
            } else {
                v
            }
        } else if k.code == KeyCode::Enter {
            if v.link_index < nl { AppView { mode: Mode::Normal, ..v } } else { v }
        } else {
            v
        },
    }
}

/// What the caller is to do after a key press: an action's effect in normal mode,
/// or opening the selected link from the link picker (a local markdown file is
/// followed, anything else opened outside).
pub open spec fn key_effect(v: AppView, k: KeyPress) -> EffectV {
    match v.mode {
        Mode::Normal => if v.keys.contains_key(k) { action_effect(v, v.keys[k]) } else { EffectV::NoOp },
        Mode::LinkPicker => if !(k.code == KeyCode::Esc || is_char(k, 'o') || is_char(k, 'q'))
            && !(is_char(k, 'j') || k.code == KeyCode::Down)
            && !(is_char(k, 'k') || k.code == KeyCode::Up)
            && k.code == KeyCode::Enter
            && v.link_index < v.document.links.len()
        {
            let url = v.document.links[v.link_index as int].url;
            if is_local_md(url) { EffectV::FollowLink(url) } else { EffectV::OpenExternal(url) }
        } else {
            EffectV::NoOp
        },
        _ => EffectV::NoOp,
    }
}

/// A new document shown: the previous file (if any) and its scroll position go on
/// the stack, and the view starts at the top of the new one.
pub open spec fn entered(v: AppView, target: Seq<char>, doc: DocumentV) -> AppView {
    AppView {
        file_stack: match v.file_path {
            Some(p) => v.file_stack.push((p, v.viewport.scroll_offset)),
            None => v.file_stack,
        },
        document: doc,
        viewport: ViewportView { scroll_offset: 0, content_height: doc.text.len() as usize },
        filename: target,
        file_path: Some(target),
        ..v
    }
}

/// The frame prepared: the content measured wrapped at the width less 2, and the
/// scroll position clamped to the height less 3.
pub open spec fn framed(v: AppView, width: u16, height: u16) -> AppView {
    let vh: u16 = if height >= 3 { (height - 3) as u16 } else { 0 };
    let iw: u16 = if width >= 2 { (width - 2) as u16 } else { 0 };
    let measured = ViewportView {
        content_height: spec_wrapped_line_count(text_contents(v.document.text), iw),
        ..v.viewport
    };
    AppView { viewport: clamped(measured, vh), ..v }
}

/// A file shown again at a scroll position.
pub open spec fn reopened(v: AppView, path: Seq<char>, doc: DocumentV, scroll: u16) -> AppView {
    AppView {
        document: doc,
        viewport: ViewportView { scroll_offset: scroll, content_height: doc.text.len() as usize },
        filename: path,
        file_path: Some(path),
        ..v
    }
}

/// The document read anew, at the same scroll position.
pub open spec fn reloaded(v: AppView, doc: DocumentV) -> AppView {
    AppView {
        document: doc,
        viewport: ViewportView { scroll_offset: v.viewport.scroll_offset, content_height: doc.text.len() as usize },
        ..v
    }
}

/// `" — "`
pub open spec fn title_sep() -> Seq<char> {
    seq![' ', '\u{2014}', ' ']
}

/// Name for the directory that `Path::parent` gives for a path, as text.
pub uninterp spec fn spec_parent(path: Seq<char>) -> Option<Seq<char>>;

/// Calls `Path::parent` on the path and shows the result with `Path::display`.
/// Claimed: the result is a function of the path (named above).
#[verifier::external_body]
fn path_parent(path: &str) -> (r: Option<String>)
    ensures
        match r {
            Some(d) => spec_parent(path@) == Some(d@),
            None => spec_parent(path@) is None,
        },
{
    std::path::Path::new(path).parent().map(|d| d.display().to_string())
}

/// Name for the path that `Path::join` makes of a directory and a path, as text.
pub uninterp spec fn spec_join(dir: Seq<char>, path: Seq<char>) -> Seq<char>;

/// Calls `Path::join` and shows the result with `Path::display`. Claimed: the
/// result is a function of the two paths (named above).
#[verifier::external_body]
fn path_join(dir: &str, path: &str) -> (r: String)
    ensures
        r@ == spec_join(dir@, path@),
{
    std::path::Path::new(dir).join(path).display().to_string()
}

/// Where a relative link leads: next to the current file when it has a directory,
/// otherwise the link as written.
pub open spec fn link_target_of(file_path: Option<Seq<char>>, relative: Seq<char>) -> Seq<char> {
    match file_path {
        Some(p) => match spec_parent(p) {
            Some(d) => spec_join(d, relative),
            None => relative,
        },
        None => relative,
    }
}

/// Calls `String::push`. Claimed: the character is appended.
#[verifier::external_body]
fn string_push(s: &mut String, c: char)
    ensures
        final(s)@ == old(s)@.push(c),
{
    s.push(c);
}

/// Calls `String::pop`. Claimed: the last character, if any, is removed.
#[verifier::external_body]
fn string_pop(s: &mut String)
    ensures
        final(s)@ == (if old(s)@.len() > 0 { old(s)@.drop_last() } else { old(s)@ }),
{
    s.pop();
}

impl App {
    /// A builder with nothing set.
    pub fn builder() -> (r: AppBuilder)
        ensures
            r.file is None,
            r.content is None,
            r.theme is None,
    {
        AppBuilder { file: None, content: None, theme: None }
    }

    /// The file name, followed by the document's title when it has one.
    pub fn display_title(&self) -> (r: String)
        ensures
            r@ == match self@.document.title {
                Some(t) => self@.filename + title_sep() + t,
                None => self@.filename,
            },
    {
        match &self.document.title {
            Some(title) => {
                let mut v = chars_of(self.filename.as_str());
                v.push(' ');
                v.push('\u{2014}');
                v.push(' ');
                let t = chars_of(title.as_str());
                crate::strings::push_all(&mut v, t.as_slice());
                assert(v@ =~= self@.filename + title_sep() + title@);
                string_of(v.as_slice())
            },
            None => self.filename.clone(),
        }
    }

    pub fn is_searching(&self) -> (r: bool)
        ensures
            r == (self@.mode == Mode::Search),
    {
        self.mode == Mode::Search
    }

    pub fn search_query(&self) -> (r: &str)
        ensures
            r@ == self@.search_query,
    {
        self.search_query.as_str()
    }

    pub fn show_help(&self) -> (r: bool)
        ensures
            r == (self@.mode == Mode::Help),
    {
        self.mode == Mode::Help
    }

    pub fn show_toc(&self) -> (r: bool)
        ensures
            r == (self@.mode == Mode::Toc),
    {
        self.mode == Mode::Toc
    }

    pub fn show_link_picker(&self) -> (r: bool)
        ensures
            r == (self@.mode == Mode::LinkPicker),
    {
        self.mode == Mode::LinkPicker
    }

    /// The viewer has been asked to quit.
    pub fn should_quit(&self) -> (r: bool)
        ensures
            r == self@.should_quit,
    {
        self.should_quit
    }

    /// The interaction mode.
    pub fn mode(&self) -> (r: Mode)
        ensures
            r == self@.mode,
    {
        self.mode
    }

    /// Indices of the lines that match the committed search.
    pub fn search_matches(&self) -> (r: &Vec<usize>)
        ensures
            r@ == self@.search_matches,
    {
        &self.search_matches
    }

    /// Index of the current search match.
    pub fn search_index(&self) -> (r: usize)
        ensures
            r == self@.search_index,
    {
        self.search_index
    }

    /// The path of the file that a relative link leads to: the link joined to the
    /// current file's directory, or the link as written when there is none (content
    /// from stdin).
    pub fn link_target(&self, relative: &str) -> (r: String)
        ensures
            r@ == link_target_of(self@.file_path, relative@),
    {
        match &self.file_path {
            Some(p) => match path_parent(p.as_str()) {
                Some(d) => path_join(d.as_str(), relative),
                None => string_of(chars_of(relative).as_slice()),
            },
            None => string_of(chars_of(relative).as_slice()),
        }
    }

    /// Number of files that going back can return to.
    pub fn back_depth(&self) -> (r: usize)
        ensures
            r == self@.file_stack.len(),
    {
        self.file_stack.len()
    }

    fn set_viewport_scroll_to(&mut self, line: u16)
        ensures
            final(self)@ == with_viewport(old(self)@, scrolled_to(old(self)@.viewport, line)),
    {
        self.viewport.scroll_to_line(line);
    }

    /// Scrolls to the current search match.
    fn jump_to_match(&mut self)
        ensures
            final(self)@ == jumped(old(self)@),
    {
        if self.search_index < self.search_matches.len() {
            let line = self.search_matches[self.search_index];
            #[verifier::truncate]
            let l = line as u16;
            self.set_viewport_scroll_to(l);
        }
    }

    /// Finds anew the lines that hold the search query, ignoring case.
    fn update_search(&mut self)
        ensures
            final(self)@ == searched(old(self)@),
    {
        self.search_matches = Vec::new();
        self.search_index = 0;
        if self.search_query.as_str().is_empty() {
            assert(self@ =~= searched(old(self)@));
            return;
        }
        let q = lowercase(chars_of(self.search_query.as_str()).as_slice());
        let lines = &self.document.text.lines;
        let ghost lv = old(self)@.document.text;
        let mut hits: Vec<usize> = Vec::new();
        let mut i: usize = 0;
        while i < lines.len()
            invariant
                i <= lines@.len(),
                lv == crate::text::lines_view(lines@),
                q@ == spec_lowercase(old(self)@.search_query),
                hits@ == search_hits(lv.take(i as int), old(self)@.search_query),
            decreases lines@.len() - i,
        {
            let text = line_text(&lines[i]);
            let low = lowercase(text.as_slice());
            proof {
                assert(lv.take(i + 1 as int).drop_last() == lv.take(i as int));
                assert(lv.take(i + 1 as int).last() == lines@[i as int]@);
            }
            if contains_chars(low.as_slice(), q.as_slice()) {
                hits.push(i);
            }
            i = i + 1;
        }
        assert(lv.take(lines@.len() as int) == lv);
        self.search_matches = hits;
        assert(self@ =~= searched(old(self)@));
    }

    /// Reacts to an action, for a viewport of `viewport_height` rows.
    pub fn handle_action(&mut self, action: Action, viewport_height: u16) -> (r: Effect)
        ensures
            final(self)@ == acted(old(self)@, action, viewport_height),
            r@ == action_effect(old(self)@, action),
    {
        match action {
            Action::Quit => {
                self.should_quit = true;
            },
            Action::ScrollUp(n) => self.viewport.scroll_up(n),
            Action::ScrollDown(n) => self.viewport.scroll_down(n),
            Action::PageUp => self.viewport.page_up(viewport_height),
            Action::PageDown => self.viewport.page_down(viewport_height),
            Action::Top => self.viewport.scroll_to_top(),
            Action::Bottom => self.viewport.scroll_to_bottom(viewport_height),
            Action::ToggleHelp => {
                self.mode = if self.mode == Mode::Help { Mode::Normal } else { Mode::Help };
            },
            Action::EnterSearch => {
                self.search_query = String::new();
                self.search_matches = Vec::new();
                self.search_index = 0;
                self.mode = Mode::Search;
            },
            Action::SearchNext => {
                if self.search_matches.len() > 0 {
                    self.search_index = next_index(self.search_index, self.search_matches.len());
                    self.jump_to_match();
                }
            },
            Action::SearchPrev => {
                if self.search_matches.len() > 0 {
                    self.search_index = if self.search_index == 0 {
                        self.search_matches.len() - 1
                    } else {
                        self.search_index - 1
                    };
                    self.jump_to_match();
                }
            },
            Action::NextHeading => {
                let current = self.viewport.scroll_offset() as usize;
                match self.next_heading_after(current) {
                    Some(line) => {
                        #[verifier::truncate]
                        let l = line as u16;
                        self.set_viewport_scroll_to(l);
                    },
                    None => {},
                }
            },
            Action::PrevHeading => {
                let current = self.viewport.scroll_offset() as usize;
                match self.prev_heading_before(current) {
                    Some(line) => {
                        #[verifier::truncate]
                        let l = line as u16;
                        self.set_viewport_scroll_to(l);
                    },
                    None => {},
                }
            },
            Action::ToggleToc => {
                if self.mode == Mode::Toc {
                    self.mode = Mode::Normal;
                } else {
                    self.toc_index = 0;
                    self.mode = Mode::Toc;
                }
            },
            Action::ToggleLinkPicker => {
                if self.mode == Mode::LinkPicker {
                    self.mode = Mode::Normal;
                } else {
                    self.link_index = 0;
                    self.mode = Mode::LinkPicker;
                }
            },
            Action::OpenLink => {},
            Action::GoBack => {
                return self.navigate_back();
            },
        }
        assert(self@ =~= acted(old(self)@, action, viewport_height));
        Effect::NoOp
    }

    fn next_heading_after(&self, current: usize) -> (r: Option<usize>)
        ensures
            r == next_heading_line(self@.document.headings, current as int),
    {
        let hs = &self.document.headings;
        let ghost hv = self@.document.headings;
        let mut i: usize = 0;
        assert(hv.skip(0) == hv);
        while i < hs.len()
            invariant
                i <= hs@.len(),
                hv == crate::markdown::renderer::headings_view(hs@),
                hv == self@.document.headings,
                next_heading_line(hv, current as int) == next_heading_line(hv.skip(i as int), current as int),
            decreases hs@.len() - i,
        {
            assert(hv.skip(i as int)[0] == hs@[i as int]@);
            assert(hv.skip(i as int).drop_first() == hv.skip(i + 1 as int));
            if hs[i].line > current {
                assert(hv.skip(i as int).len() > 0);
                assert(hv.skip(i as int)[0].line == hs[i as int].line);
                return Some(hs[i].line);
            }
            i = i + 1;
        }
        None
    }

    fn prev_heading_before(&self, current: usize) -> (r: Option<usize>)
        ensures
            r == prev_heading_line(self@.document.headings, current as int),
    {
        let hs = &self.document.headings;
        let ghost hv = self@.document.headings;
        let mut i: usize = hs.len();
        assert(hv.take(hv.len() as int) == hv);
        while i > 0
            invariant
                i <= hs@.len(),
                hv == crate::markdown::renderer::headings_view(hs@),
                hv == self@.document.headings,
                prev_heading_line(hv, current as int) == prev_heading_line(hv.take(i as int), current as int),
            decreases i,
        {
            assert(hv.take(i as int).last() == hs@[i - 1]@);
            assert(hv.take(i as int).drop_last() == hv.take(i - 1));
            if hs[i - 1].line < current {
                assert(hv.take(i as int).len() > 0);
                assert(hv.take(i as int).last().line == hs[i - 1].line);
                return Some(hs[i - 1].line);
            }
            i = i - 1;
        }
        None
    }

    /// Going back: the latest file is taken off the stack, for the caller to read.
    fn navigate_back(&mut self) -> (r: Effect)
        ensures
            final(self)@ == acted(old(self)@, Action::GoBack, 0),
            r@ == action_effect(old(self)@, Action::GoBack),
    {
        match self.file_stack.pop() {
            Some(entry) => {
                assert(self@ =~= acted(old(self)@, Action::GoBack, 0));
                Effect::Reopen(entry.path, entry.scroll_offset)
            },
            None => Effect::NoOp,
        }
    }

    /// The selected link: a local markdown file is to be followed, anything else
    /// opened outside. The mode returns to normal once there is a link.
    fn open_selected_link(&mut self) -> (r: Effect)
        ensures
            final(self)@ == (if old(self)@.link_index < old(self)@.document.links.len() {
                AppView { mode: Mode::Normal, ..old(self)@ }
            } else {
                old(self)@
            }),
            r@ == (if old(self)@.link_index < old(self)@.document.links.len() {
                let url = old(self)@.document.links[old(self)@.link_index as int].url;
                if is_local_md(url) { EffectV::FollowLink(url) } else { EffectV::OpenExternal(url) }
            } else {
                EffectV::NoOp
            }),
    {
        if self.link_index >= self.document.links.len() {
            return Effect::NoOp;
        }
        let url = self.document.links[self.link_index].url.clone();
        let u = chars_of(url.as_str());
        let sep = vec![':', '/', '/'];
        let md = vec!['.', 'm', 'd'];
        let markdown = vec!['.', 'm', 'a', 'r', 'k', 'd', 'o', 'w', 'n'];
        assert(sep@ =~= scheme_sep());
        assert(md@ =~= seq!['.', 'm', 'd']);
        assert(markdown@ =~= seq!['.', 'm', 'a', 'r', 'k', 'd', 'o', 'w', 'n']);
        let local = !contains_chars(u.as_slice(), sep.as_slice())
            && (ends_with_chars(u.as_slice(), md.as_slice()) || ends_with_chars(u.as_slice(), markdown.as_slice()));
        self.mode = Mode::Normal;
        assert(self@ =~= AppView { mode: Mode::Normal, ..old(self)@ });
        if local { Effect::FollowLink(url) } else { Effect::OpenExternal(url) }
    }

    /// Reacts to a key press, for a viewport of `viewport_height` rows.
    pub fn handle_key(&mut self, key: KeyPress, viewport_height: u16) -> (r: Effect)
        ensures
            final(self)@ == keyed(old(self)@, key, viewport_height),
            r@ == key_effect(old(self)@, key),
    {
        match self.mode {
            Mode::Normal => {
                match self.input_map.resolve(&key) {
                    Some(action) => {
                        return self.handle_action(action, viewport_height);
                    },
                    None => {},
                }
            },
            Mode::Search => {
                match key.code {
                    KeyCode::Enter => {
                        self.update_search();
                        self.mode = Mode::Normal;
                        if self.search_matches.len() > 0 {
                            self.jump_to_match();
                        }
                    },
                    KeyCode::Esc => {
                        self.mode = Mode::Normal;
                    },
                    KeyCode::Backspace => {
                        string_pop(&mut self.search_query);
                    },
                    KeyCode::Char(c) => {
                        string_push(&mut self.search_query, c);
                    },
                    _ => {},
                }
            },
            Mode::Help => {
                self.mode = Mode::Normal;
            },
            Mode::Toc => {
                let n = self.document.headings.len();
                if key.code == KeyCode::Esc || key.code == KeyCode::Char('t') || key.code == KeyCode::Char('q') {
                    self.mode = Mode::Normal;
                } else if key.code == KeyCode::Char('j') || key.code == KeyCode::Down {
                    if n > 0 {
                        self.toc_index = next_index(self.toc_index, n);
                    }
                } else if key.code == KeyCode::Char('k') || key.code == KeyCode::Up {
                    if n > 0 {
                        self.toc_index = if self.toc_index == 0 { n - 1 } else { self.toc_index - 1 };
                    }
                } else if key.code == KeyCode::Enter {
                    if self.toc_index < n {
                        let line = self.document.headings[self.toc_index].line;
                        #[verifier::truncate]
                        let l = line as u16;
                        self.viewport.scroll_to_line(l);
                        self.mode = Mode::Normal;
                    }
                }
            },
            Mode::LinkPicker => {
                let n = self.document.links.len();
                if key.code == KeyCode::Esc || key.code == KeyCode::Char('o') || key.code == KeyCode::Char('q') {
                    self.mode = Mode::Normal;
                } else if key.code == KeyCode::Char('j') || key.code == KeyCode::Down {
                    if n > 0 {
                        self.link_index = next_index(self.link_index, n);
                    }
                } else if key.code == KeyCode::Char('k') || key.code == KeyCode::Up {
                    if n > 0 {
                        self.link_index = if self.link_index == 0 { n - 1 } else { self.link_index - 1 };
                    }
                } else if key.code == KeyCode::Enter {
                    return self.open_selected_link();
                }
            },
        }
        assert(self@ =~= keyed(old(self)@, key, viewport_height));
        Effect::NoOp
    }

    /// Prepares a frame for a terminal of `width` x `height` cells: the text is
    /// measured wrapped inside the borders (2 columns), and the scroll position kept
    /// within the viewport (the height less 3 rows for borders and status bar),
    /// whose height is returned.
    pub fn prepare_frame(&mut self, width: u16, height: u16) -> (r: u16)
        ensures
            r == (if height >= 3 { (height - 3) as u16 } else { 0 }),
            final(self)@ == framed(old(self)@, width, height),
    {
        let viewport_height = height.saturating_sub(3);
        let inner_width = width.saturating_sub(2);
        self.viewport.update_wrapped_height(&self.document.text, inner_width);
        self.viewport.clamp_scroll(viewport_height);
        assert(self@ =~= framed(old(self)@, width, height));
        viewport_height
    }

    /// Reacts to an event, for a viewport of `viewport_height` rows.
    pub fn handle_event(&mut self, event: AppEvent, viewport_height: u16) -> (r: Effect)
        ensures
            match event {
                AppEvent::Key(k) => final(self)@ == keyed(old(self)@, k, viewport_height) && r@ == key_effect(old(self)@, k),
                AppEvent::Scroll(a) => final(self)@ == acted(old(self)@, a, viewport_height) && r@ == action_effect(old(self)@, a),
                AppEvent::Resize(_, _) => final(self)@ == old(self)@ && r@ == EffectV::NoOp,
            },
    {
        match event {
            AppEvent::Key(k) => self.handle_key(k, viewport_height),
            AppEvent::Scroll(a) => self.handle_action(a, viewport_height),
            AppEvent::Resize(_, _) => Effect::NoOp,
        }
    }

    /// Shows a newly read markdown file (reached by following a link): the current
    /// file and its scroll position go on the stack for going back.
    pub fn enter_document(&mut self, target: String, content: &str, images: &ImageSet)
        ensures
            final(self)@ == entered(old(self)@, target@, parsed(content@, old(self)@.theme, images@)),
    {
        match &self.file_path {
            Some(path) => {
                let ghost old_stack = self@.file_stack;
                let entry = FileStackEntry { path: path.clone(), scroll_offset: self.viewport.scroll_offset() };
                self.file_stack.push(entry);
                assert(self@.file_stack =~= old_stack.push((path@, old(self)@.viewport.scroll_offset)));
            },
            None => {},
        }
        let document = parse(content, &self.theme, images);
        let height = document.text.height();
        self.document = document;
        self.viewport = Viewport::new(height);
        self.filename = target.clone();
        self.file_path = Some(target);
        assert(self@ =~= entered(old(self)@, target@, parsed(content@, old(self)@.theme, images@)));
    }

    /// Shows again a file taken off the stack, at its scroll position.
    pub fn reopen(&mut self, path: String, content: &str, scroll_offset: u16, images: &ImageSet)
        ensures
            final(self)@ == reopened(old(self)@, path@, parsed(content@, old(self)@.theme, images@), scroll_offset),
    {
        let document = parse(content, &self.theme, images);
        let height = document.text.height();
        self.document = document;
        self.viewport = Viewport::new(height);
        self.viewport.scroll_to_line(scroll_offset);
        self.filename = path.clone();
        self.file_path = Some(path);
        assert(self@ =~= reopened(old(self)@, path@, parsed(content@, old(self)@.theme, images@), scroll_offset));
    }

    /// Shows the current file read anew (after it changed on disk), keeping the scroll position.
    pub fn reload(&mut self, content: &str, images: &ImageSet)
        ensures
            final(self)@ == reloaded(old(self)@, parsed(content@, old(self)@.theme, images@)),
    {
        let scroll = self.viewport.scroll_offset();
        let document = parse(content, &self.theme, images);
        let height = document.text.height();
        self.document = document;
        self.viewport = Viewport::new(height);
        self.viewport.scroll_to_line(scroll);
        assert(self@ =~= reloaded(old(self)@, parsed(content@, old(self)@.theme, images@)));
    }
}

/// The characters of a line, its spans put together.
pub fn line_text(line: &StyledLine) -> (r: Vec<char>)
    ensures
        r@ == line_chars(line@.spans),
{
    let mut t: Vec<char> = Vec::new();
    let mut i: usize = 0;
    while i < line.spans.len()
        invariant
            i <= line.spans@.len(),
            t@ == line_chars(spans_view(line.spans@).take(i as int)),
        decreases line.spans@.len() - i,
    {
        let cs = chars_of(line.spans[i].content.as_str());
        crate::strings::push_all(&mut t, cs.as_slice());
        proof {
            assert(spans_view(line.spans@).take(i + 1 as int).drop_last() == spans_view(line.spans@).take(i as int));
        }
        i = i + 1;
    }
    assert(spans_view(line.spans@).take(line.spans@.len() as int) == spans_view(line.spans@));
    t
}

/// Why an app could not be built.
#[derive(Debug, Clone, Copy, PartialEq, Eq, Structural)]
pub enum BuildError {
    /// Neither a file nor content was given.
    MissingInput,
    /// A file was given but its text was not supplied.
    FileNotRead,
}

/// Builder for [`App`]: a file or raw content, and optionally a theme.
pub struct AppBuilder {
    pub file: Option<String>,
    pub content: Option<(String, String)>,
    pub theme: Option<Theme>,
}

impl AppBuilder {
    pub fn file(self, path: String) -> (r: AppBuilder)
        ensures
            r.file == Some(path),
            r.content == self.content,
            r.theme == self.theme,
    {
        AppBuilder { file: Some(path), ..self }
    }

    pub fn content(self, text: String, filename: String) -> (r: AppBuilder)
        ensures
            r.file == self.file,
            r.content == Some((text, filename)),
            r.theme == self.theme,
    {
        AppBuilder { content: Some((text, filename)), ..self }
    }

    pub fn theme(self, theme: Theme) -> (r: AppBuilder)
        ensures
            r.file == self.file,
            r.content == self.content,
            r.theme == Some(theme),
    {
        AppBuilder { theme: Some(theme), ..self }
    }

    /// Builds the viewer. A file wins over content; `file_text` is the text read
    /// from the file (the caller reads it), and `images` the images that could be
    /// loaded next to it. With neither file nor content there is nothing to show.
    pub fn build(self, file_text: Option<String>, images: &ImageSet) -> (r: Result<App, BuildError>)
        ensures
            match (self.file, self.content) {
                (Some(f), _) => match file_text {
                    Some(t) => r matches Ok(app) && app@ == start_view(
                        parsed(t@, theme_or_default(self.theme), images@), f@, Some(f@), theme_or_default(self.theme)),
                    None => r == Err::<App, BuildError>(BuildError::FileNotRead),
                },
                (None, Some((t, n))) => r matches Ok(app) && app@ == start_view(
                    parsed(t@, theme_or_default(self.theme), images@), n@, None, theme_or_default(self.theme)),
                (None, None) => r == Err::<App, BuildError>(BuildError::MissingInput),
            },
    {
        let (raw, filename, file_path) = match (self.file, self.content) {
            (Some(file), _) => match file_text {
                Some(t) => (t, file.clone(), Some(file)),
                None => return Err(BuildError::FileNotRead),
            },
            (None, Some((text, name))) => (text, name, None),
            (None, None) => return Err(BuildError::MissingInput),
        };
        let theme = match self.theme {
            Some(t) => t,
            None => Theme::default(),
        };
        let document = parse(raw.as_str(), &theme, images);
        let height = document.text.height();
        let app = App {
            document,
            viewport: Viewport::new(height),
            input_map: InputMap::vim(),
            theme,
            filename,
            file_path,
            mode: Mode::Normal,
            search_query: String::new(),
            search_matches: Vec::new(),
            search_index: 0,
            should_quit: false,
            toc_index: 0,
            link_index: 0,
            file_stack: Vec::new(),
        };
        assert(app@ =~= start_view(document_of(app@), app@.filename, app@.file_path, theme));
        Ok(app)
    }
}

pub open spec fn document_of(v: AppView) -> DocumentV {
    v.document
}

pub open spec fn theme_or_default(t: Option<Theme>) -> Theme {
    match t {
        Some(t) => t,
        None => default_theme(),
    }
}

/// A new viewer: at the top of the document, in normal mode, with the vim bindings.
pub open spec fn start_view(doc: DocumentV, filename: Seq<char>, path: Option<Seq<char>>, theme: Theme) -> AppView {
    AppView {
        document: doc,
        viewport: ViewportView { scroll_offset: 0, content_height: doc.text.len() as usize },
        keys: crate::input::vim_map(),
        theme,
        filename,
        file_path: path,
        mode: Mode::Normal,
        search_query: seq![],
        search_matches: seq![],
        search_index: 0,
        should_quit: false,
        toc_index: 0,
        link_index: 0,
        file_stack: seq![],
    }
}

// ---------------------------------------------------------------------------
// Laws.

/// Toggling the help twice from normal mode comes back to where it started.
pub proof fn law_help_toggles_back(v: AppView, vh: u16)
    requires
        v.mode == Mode::Normal,
    ensures
        acted(v, Action::ToggleHelp, vh).mode == Mode::Help,
        acted(acted(v, Action::ToggleHelp, vh), Action::ToggleHelp, vh) == v,
{
    assert(acted(acted(v, Action::ToggleHelp, vh), Action::ToggleHelp, vh) =~= v);
}

/// In the help, any key closes it and changes nothing else.
pub proof fn law_help_closes_on_any_key(v: AppView, k: KeyPress, vh: u16)
    requires
        v.mode == Mode::Help,
    ensures
        keyed(v, k, vh) == (AppView { mode: Mode::Normal, ..v }),
        key_effect(v, k) == EffectV::NoOp,
{
}

/// The current search match stays within the matches as `n` and `N` cycle through them.
pub proof fn law_match_index_in_range(v: AppView, a: Action, vh: u16)
    requires
        a == Action::SearchNext || a == Action::SearchPrev,
        v.search_index < v.search_matches.len() <= usize::MAX,
    ensures
        acted(v, a, vh).search_index < v.search_matches.len(),
        acted(v, a, vh).search_matches == v.search_matches,
{
    lemma_next_index(v.search_index as int, v.search_matches.len() as int);
}

/// Where the next match lies: one further on, or back at the first.
proof fn lemma_next_index(i: int, n: int)
    requires
        0 <= i < n,
    ensures
        i + 1 < n ==> (i + 1) % n == i + 1,
        i + 1 == n ==> (i + 1) % n == 0,
{
    if i + 1 < n {
        vstd::arithmetic::div_mod::lemma_small_mod((i + 1) as nat, n as nat);
    } else {
        vstd::arithmetic::div_mod::lemma_mod_self_0(n);
    }
}

/// `n` then `N` comes back to the same match.
pub proof fn law_next_then_prev_match(v: AppView, vh: u16)
    requires
        v.search_index < v.search_matches.len() <= usize::MAX,
    ensures
        acted(acted(v, Action::SearchNext, vh), Action::SearchPrev, vh).search_index == v.search_index,
{
    lemma_next_index(v.search_index as int, v.search_matches.len() as int);
}

/// Moving the selection in the table of contents keeps it on a heading, wrapping
/// around at both ends.
pub proof fn law_toc_selection_in_range(v: AppView, k: KeyPress, vh: u16)
    requires
        v.mode == Mode::Toc,
        v.document.headings.len() > 0,
        v.toc_index < v.document.headings.len(),
    ensures
        keyed(v, k, vh).toc_index < v.document.headings.len(),
{
}

/// Following a link and going back returns to the file that was left, at the
/// scroll position it had, with the stack of files as it was.
pub proof fn law_follow_then_back(v: AppView, target: Seq<char>, doc: DocumentV, back_doc: DocumentV, vh: u16)
    requires
        v.file_path is Some,
    ensures
        ({
            let v1 = entered(v, target, doc);
            let v2 = acted(v1, Action::GoBack, vh);
            &&& action_effect(v1, Action::GoBack) == EffectV::Reopen(v.file_path->0, v.viewport.scroll_offset)
            &&& v2.file_stack == v.file_stack
            &&& reopened(v2, v.file_path->0, back_doc, v.viewport.scroll_offset).file_path == v.file_path
            &&& reopened(v2, v.file_path->0, back_doc, v.viewport.scroll_offset).viewport.scroll_offset
                == v.viewport.scroll_offset
            &&& reopened(v2, v.file_path->0, back_doc, v.viewport.scroll_offset).file_stack == v.file_stack
        }),
{
    let v1 = entered(v, target, doc);
    assert(v1.file_stack.drop_last() =~= v.file_stack);
}

/// A search finds exactly the lines that hold the query (ignoring case), in order.
pub proof fn law_search_hits(lines: Seq<LineView>, q: Seq<char>)
    requires
        lines.len() <= usize::MAX,
    ensures
        forall|k: int| 0 <= k < search_hits(lines, q).len() ==> {
            &&& (#[trigger] search_hits(lines, q)[k]) < lines.len()
            &&& contains_sub(spec_lowercase(line_chars(lines[search_hits(lines, q)[k] as int].spans)), spec_lowercase(q))
        },
        forall|k: int, m: int| 0 <= k < m < search_hits(lines, q).len()
            ==> search_hits(lines, q)[k] < search_hits(lines, q)[m],
        forall|i: int| 0 <= i < lines.len()
            && contains_sub(spec_lowercase(line_chars(#[trigger] lines[i].spans)), spec_lowercase(q))
            ==> search_hits(lines, q).contains(i as usize),
    decreases lines.len(),
{
    if lines.len() > 0 {
        let prev = lines.drop_last();
        law_search_hits(prev, q);
        let h0 = search_hits(prev, q);
        let h = search_hits(lines, q);
        let last = (lines.len() - 1) as usize;
        let hit = contains_sub(spec_lowercase(line_chars(lines.last().spans)), spec_lowercase(q));
        assert(h == if hit { h0.push(last) } else { h0 });
        assert forall|k: int| 0 <= k < h0.len() implies h[k] == h0[k] && #[trigger] h0[k] < prev.len()
            && prev[h0[k] as int] == lines[h0[k] as int] by {}
        assert forall|k: int| 0 <= k < h.len() implies
            (#[trigger] h[k]) < lines.len()
            && contains_sub(spec_lowercase(line_chars(lines[h[k] as int].spans)), spec_lowercase(q)) by {
            if k < h0.len() {
                assert(h0[k] == h[k]);
            }
        }
        assert forall|k: int, m: int| 0 <= k < m < h.len() implies h[k] < h[m] by {
            if m < h0.len() {
                assert(h0[k] == h[k] && h0[m] == h[m]);
            } else {
                assert(h0[k] == h[k]);
            }
        }
        assert forall|i: int| 0 <= i < lines.len()
            && contains_sub(spec_lowercase(line_chars(#[trigger] lines[i].spans)), spec_lowercase(q))
            implies h.contains(i as usize) by {
            if i < lines.len() - 1 {
                assert(prev[i] == lines[i]);
                assert(h0.contains(i as usize));
                let k = choose|k: int| 0 <= k < h0.len() && h0[k] == i as usize;
                assert(h[k] == i as usize);
            } else {
                assert(h[h.len() - 1] == i as usize);
            }
        }
    }
}

/// Committing a search with Enter returns to normal mode with the lines that hold
/// the query as the matches (none for an empty query), the first one current; when there is a match, the
/// view jumps to it, the topmost line that holds the query, and otherwise it
/// stays where it was.
pub proof fn law_search_commit_jumps_to_first_match(v: AppView, k: KeyPress, vh: u16)
    requires
        v.mode == Mode::Search,
        k.code == KeyCode::Enter,
        v.document.text.len() <= usize::MAX,
    ensures
        ({
            let r = keyed(v, k, vh);
            let q = v.search_query;
            &&& r.mode == Mode::Normal
            &&& r.search_index == 0
            &&& r.search_matches == (if q.len() == 0 { Seq::<usize>::empty() } else { search_hits(v.document.text, q) })
            &&& r.search_matches.len() > 0 ==> {
                &&& r.viewport.scroll_offset == r.search_matches[0] as u16
                &&& r.viewport.content_height == v.viewport.content_height
                &&& contains_sub(spec_lowercase(line_chars(v.document.text[r.search_matches[0] as int].spans)), spec_lowercase(q))
                &&& forall|i: int| 0 <= i < r.search_matches[0] ==>
                    !contains_sub(spec_lowercase(line_chars(#[trigger] v.document.text[i].spans)), spec_lowercase(q))
            }
            &&& r.search_matches.len() == 0 ==> r.viewport == v.viewport
            &&& r.document == v.document && r.search_query == q
        }),
{
    let hits = search_hits(v.document.text, v.search_query);
    law_search_hits(v.document.text, v.search_query);
    if v.search_query.len() > 0 && hits.len() > 0 {
        assert(hits[0] < v.document.text.len());
        assert forall|i: int| 0 <= i < hits[0] implies
            !contains_sub(spec_lowercase(line_chars(#[trigger] v.document.text[i].spans)), spec_lowercase(v.search_query)) by {
            if contains_sub(spec_lowercase(line_chars(v.document.text[i].spans)), spec_lowercase(v.search_query)) {
                assert(hits.contains(i as usize));
                let m = choose|m: int| 0 <= m < hits.len() && hits[m] == i as usize;
                if m > 0 {
                    assert(hits[0] < hits[m]);
                }
            }
        }
    }
}

/// In the table of contents, Down moves the selection like `j`, to the next
/// heading (from the last back to the first), and Up like `k`, to the previous one
/// (from the first to the last); nothing else changes.
pub proof fn law_toc_arrows_move_the_selection(v: AppView, k: KeyPress, vh: u16)
    requires
        v.mode == Mode::Toc,
        0 < v.document.headings.len() <= usize::MAX,
        v.toc_index < v.document.headings.len(),
    ensures
        ({
            let n = v.document.headings.len();
            let i = v.toc_index as int;
            &&& (k.code == KeyCode::Down || k.code == KeyCode::Char('j')) ==> keyed(v, k, vh) == (AppView {
                toc_index: (if i + 1 < n { i + 1 } else { 0 }) as usize,
                ..v
            })
            &&& (k.code == KeyCode::Up || k.code == KeyCode::Char('k')) ==> keyed(v, k, vh) == (AppView {
                toc_index: (if i > 0 { i - 1 } else { n - 1 }) as usize,
                ..v
            })
            &&& (k.code == KeyCode::Down || k.code == KeyCode::Up) ==> key_effect(v, k) == EffectV::NoOp
        }),
{
    lemma_next_index(v.toc_index as int, v.document.headings.len() as int);
}

/// In the link picker, Down moves the selection like `j`, to the next link (from
/// the last back to the first), and Up like `k`, to the previous one (from the
/// first to the last); nothing else changes.
pub proof fn law_link_arrows_move_the_selection(v: AppView, k: KeyPress, vh: u16)
    requires
        v.mode == Mode::LinkPicker,
        0 < v.document.links.len() <= usize::MAX,
        v.link_index < v.document.links.len(),
    ensures
        ({
            let n = v.document.links.len();
            let i = v.link_index as int;
            &&& (k.code == KeyCode::Down || k.code == KeyCode::Char('j')) ==> keyed(v, k, vh) == (AppView {
                link_index: (if i + 1 < n { i + 1 } else { 0 }) as usize,
                ..v
            })
            &&& (k.code == KeyCode::Up || k.code == KeyCode::Char('k')) ==> keyed(v, k, vh) == (AppView {
                link_index: (if i > 0 { i - 1 } else { n - 1 }) as usize,
                ..v
            })
            &&& (k.code == KeyCode::Down || k.code == KeyCode::Up) ==> key_effect(v, k) == EffectV::NoOp
        }),
{
    lemma_next_index(v.link_index as int, v.document.links.len() as int);
}

} // verus!
