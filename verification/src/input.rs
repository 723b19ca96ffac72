//! Key bindings: which key, with which modifiers, triggers which action.
use vstd::prelude::*;
use crate::action::Action;

verus! {

/// A key, as the terminal reports it.
#[derive(Debug, Clone, Copy, PartialEq, Eq, Hash, Structural)]
pub enum KeyCode {
    Char(char),
    Esc,
    Enter,
    Backspace,
    Tab,
    BackTab,
    Up,
    Down,
    Left,
    Right,
    PageUp,
    PageDown,
    Home,
    End,
    /// A key that the viewer never binds.
    Other,
}

/// Modifier bits, as the terminal reports them.
pub const NO_MODIFIERS: u8 = 0;
pub const SHIFT: u8 = 0b0000_0001;
pub const CONTROL: u8 = 0b0000_0010;
pub const ALT: u8 = 0b0000_0100;

/// A key press: the key and the modifiers held.
#[derive(Debug, Clone, Copy, PartialEq, Eq, Hash, Structural)]
pub struct KeyPress {
    pub code: KeyCode,
    pub modifiers: u8,
}

/// The action bound to `k`: the last binding of `k` in the list, if any.
pub open spec fn lookup(bindings: Seq<(KeyPress, Action)>, k: KeyPress) -> Option<Action>
    decreases bindings.len(),
{
    if bindings.len() == 0 {
        None
    } else if bindings.last().0 == k {
        Some(bindings.last().1)
    } else {
        lookup(bindings.drop_last(), k)
    }
}

/// The map from keys to actions that a list of bindings makes.
pub open spec fn binding_map(bindings: Seq<(KeyPress, Action)>) -> Map<KeyPress, Action> {
    Map::new(|k: KeyPress| lookup(bindings, k) is Some, |k: KeyPress| lookup(bindings, k)->0)
}

/// Maps key presses to actions.
pub struct InputMap {
    bindings: Vec<(KeyPress, Action)>,
}

/// Builds an [`InputMap`] binding by binding.
pub struct InputMapBuilder {
    bindings: Vec<(KeyPress, Action)>,
}

impl View for InputMap {
    type V = Map<KeyPress, Action>;

    closed spec fn view(&self) -> Map<KeyPress, Action> {
        binding_map(self.bindings@)
    }
}

impl View for InputMapBuilder {
    type V = Map<KeyPress, Action>;

    closed spec fn view(&self) -> Map<KeyPress, Action> {
        binding_map(self.bindings@)
    }
}

pub open spec fn key(code: KeyCode, modifiers: u8) -> KeyPress {
    KeyPress { code, modifiers }
}

/// The vim-style key bindings, with the heading, table-of-contents, link and
/// back keys that the help lists.
pub open spec fn vim_map() -> Map<KeyPress, Action> {
    Map::empty()
        .insert(key(KeyCode::Char('q'), NO_MODIFIERS), Action::Quit)
        .insert(key(KeyCode::Esc, NO_MODIFIERS), Action::Quit)
        .insert(key(KeyCode::Char('c'), CONTROL), Action::Quit)
        .insert(key(KeyCode::Char('j'), NO_MODIFIERS), Action::ScrollDown(1))
        .insert(key(KeyCode::Down, NO_MODIFIERS), Action::ScrollDown(1))
        .insert(key(KeyCode::Char('k'), NO_MODIFIERS), Action::ScrollUp(1))
        .insert(key(KeyCode::Up, NO_MODIFIERS), Action::ScrollUp(1))
        .insert(key(KeyCode::Char('d'), CONTROL), Action::PageDown)
        .insert(key(KeyCode::PageDown, NO_MODIFIERS), Action::PageDown)
        .insert(key(KeyCode::Char('u'), CONTROL), Action::PageUp)
        .insert(key(KeyCode::PageUp, NO_MODIFIERS), Action::PageUp)
        .insert(key(KeyCode::Char('g'), NO_MODIFIERS), Action::Top)
        .insert(key(KeyCode::Home, NO_MODIFIERS), Action::Top)
        .insert(key(KeyCode::Char('G'), SHIFT), Action::Bottom)
        .insert(key(KeyCode::Char('G'), NO_MODIFIERS), Action::Bottom)
        .insert(key(KeyCode::End, NO_MODIFIERS), Action::Bottom)
        .insert(key(KeyCode::Char('?'), NO_MODIFIERS), Action::ToggleHelp)
        .insert(key(KeyCode::Char('?'), SHIFT), Action::ToggleHelp)
        .insert(key(KeyCode::Char('/'), NO_MODIFIERS), Action::EnterSearch)
        .insert(key(KeyCode::Char('n'), NO_MODIFIERS), Action::SearchNext)
        .insert(key(KeyCode::Char('N'), SHIFT), Action::SearchPrev)
        .insert(key(KeyCode::Char('N'), NO_MODIFIERS), Action::SearchPrev)
        .insert(key(KeyCode::Tab, NO_MODIFIERS), Action::NextHeading)
        .insert(key(KeyCode::BackTab, SHIFT), Action::PrevHeading)
        .insert(key(KeyCode::BackTab, NO_MODIFIERS), Action::PrevHeading)
        .insert(key(KeyCode::Char('t'), NO_MODIFIERS), Action::ToggleToc)
        .insert(key(KeyCode::Char('o'), NO_MODIFIERS), Action::ToggleLinkPicker)
        .insert(key(KeyCode::Backspace, NO_MODIFIERS), Action::GoBack)
}

impl InputMap {
    /// A builder with no bindings.
    pub fn builder() -> (r: InputMapBuilder)
        ensures
            r@ == Map::<KeyPress, Action>::empty(),
    {
        let r = InputMapBuilder { bindings: Vec::new() };
        assert(r@ =~= Map::<KeyPress, Action>::empty());
        r
    }

    /// The vim-style key bindings.
    pub fn vim() -> (r: InputMap)
        ensures
            r@ == vim_map(),
    {
        Self::builder()
            .bind(KeyCode::Char('q'), NO_MODIFIERS, Action::Quit)
            .bind(KeyCode::Esc, NO_MODIFIERS, Action::Quit)
            .bind(KeyCode::Char('c'), CONTROL, Action::Quit)
            .bind(KeyCode::Char('j'), NO_MODIFIERS, Action::ScrollDown(1))
            .bind(KeyCode::Down, NO_MODIFIERS, Action::ScrollDown(1))
            .bind(KeyCode::Char('k'), NO_MODIFIERS, Action::ScrollUp(1))
            .bind(KeyCode::Up, NO_MODIFIERS, Action::ScrollUp(1))
            .bind(KeyCode::Char('d'), CONTROL, Action::PageDown)
            .bind(KeyCode::PageDown, NO_MODIFIERS, Action::PageDown)
            .bind(KeyCode::Char('u'), CONTROL, Action::PageUp)
            .bind(KeyCode::PageUp, NO_MODIFIERS, Action::PageUp)
            .bind(KeyCode::Char('g'), NO_MODIFIERS, Action::Top)
            .bind(KeyCode::Home, NO_MODIFIERS, Action::Top)
            .bind(KeyCode::Char('G'), SHIFT, Action::Bottom)
            .bind(KeyCode::Char('G'), NO_MODIFIERS, Action::Bottom)
            .bind(KeyCode::End, NO_MODIFIERS, Action::Bottom)
            .bind(KeyCode::Char('?'), NO_MODIFIERS, Action::ToggleHelp)
            .bind(KeyCode::Char('?'), SHIFT, Action::ToggleHelp)
            .bind(KeyCode::Char('/'), NO_MODIFIERS, Action::EnterSearch)
            .bind(KeyCode::Char('n'), NO_MODIFIERS, Action::SearchNext)
            .bind(KeyCode::Char('N'), SHIFT, Action::SearchPrev)
            .bind(KeyCode::Char('N'), NO_MODIFIERS, Action::SearchPrev)
            .bind(KeyCode::Tab, NO_MODIFIERS, Action::NextHeading)
            .bind(KeyCode::BackTab, SHIFT, Action::PrevHeading)
            .bind(KeyCode::BackTab, NO_MODIFIERS, Action::PrevHeading)
            .bind(KeyCode::Char('t'), NO_MODIFIERS, Action::ToggleToc)
            .bind(KeyCode::Char('o'), NO_MODIFIERS, Action::ToggleLinkPicker)
            .bind(KeyCode::Backspace, NO_MODIFIERS, Action::GoBack)
            .build()
    }

    /// The action bound to the key press, if any.
    pub fn resolve(&self, key: &KeyPress) -> (r: Option<Action>)
        ensures
            r == (if self@.contains_key(*key) { Some(self@[*key]) } else { None }),
    {
        let mut i = self.bindings.len();
        assert(self.bindings@.take(self.bindings@.len() as int) == self.bindings@);
        while i > 0
            invariant
                i <= self.bindings@.len(),
                lookup(self.bindings@, *key) == lookup(self.bindings@.take(i as int), *key),
            decreases i,
        {
            assert(self.bindings@.take(i as int).drop_last() == self.bindings@.take(i - 1));
            if self.bindings[i - 1].0 == *key {
                return Some(self.bindings[i - 1].1);
            }
            i = i - 1;
        }
        assert(self.bindings@.take(self.bindings@.len() as int) == self.bindings@);
        None
    }
}

impl InputMapBuilder {
    /// Binds the key press to the action, replacing any earlier binding of it.
    pub fn bind(self, code: KeyCode, modifiers: u8, action: Action) -> (r: InputMapBuilder)
        ensures
            r@ == self@.insert(key(code, modifiers), action),
    {
        let mut b = self;
        let kp = KeyPress { code, modifiers };
        b.bindings.push((kp, action));
        assert(b.bindings@.drop_last() =~= self.bindings@);
        assert forall|k2: KeyPress| #[trigger] lookup(b.bindings@, k2)
            == (if k2 == kp { Some(action) } else { lookup(self.bindings@, k2) }) by {}
        assert(b@ =~= self@.insert(key(code, modifiers), action));
        b
    }

    /// Removes the binding of the key press, if any.
    pub fn unbind(self, code: KeyCode, modifiers: u8) -> (r: InputMapBuilder)
        ensures
            r@ == self@.remove(key(code, modifiers)),
    {
        let k = KeyPress { code, modifiers };
        let mut kept: Vec<(KeyPress, Action)> = Vec::new();
        let mut i: usize = 0;
        while i < self.bindings.len()
            invariant
                i <= self.bindings@.len(),
                lookup(kept@, k) is None,
                forall|k2: KeyPress| k2 != k ==> #[trigger] lookup(kept@, k2) == lookup(self.bindings@.take(i as int), k2),
            decreases self.bindings@.len() - i,
        {
            assert(self.bindings@.take(i + 1 as int).drop_last() == self.bindings@.take(i as int));
            let b = self.bindings[i];
            let ghost old_kept = kept@;
            if b.0 != k {
                kept.push(b);
                assert(kept@.drop_last() =~= old_kept);
            }
            let ghost tk = self.bindings@.take(i + 1 as int);
            assert(tk.last() == b);
            assert forall|k2: KeyPress| k2 != k implies #[trigger] lookup(kept@, k2) == lookup(tk, k2) by {
                assert(tk.drop_last() == self.bindings@.take(i as int));
                assert(lookup(old_kept, k2) == lookup(self.bindings@.take(i as int), k2));
                if b.0 != k {
                    assert(kept@.last() == b);
                    assert(kept@.drop_last() == old_kept);
                } else {
                    assert(kept@ == old_kept);
                }
            }
            i = i + 1;
        }
        assert(self.bindings@.take(self.bindings@.len() as int) == self.bindings@);
        let r = InputMapBuilder { bindings: kept };
        assert(r@ =~= self@.remove(k));
        r
    }

    /// The input map with these bindings.
    pub fn build(self) -> (r: InputMap)
        ensures
            r@ == self@,
    {
        InputMap { bindings: self.bindings }
    }
}

/// Binding a key and then resolving it gives the action just bound.
pub proof fn law_bind_then_resolve(m: Map<KeyPress, Action>, k: KeyPress, a: Action)
    ensures
        m.insert(k, a).contains_key(k),
        m.insert(k, a)[k] == a,
{
}

/// Binding one key leaves the other keys as they were.
pub proof fn law_bind_keeps_others(m: Map<KeyPress, Action>, k: KeyPress, a: Action, other: KeyPress)
    requires
        other != k,
    ensures
        m.insert(k, a).contains_key(other) == m.contains_key(other),
        m.contains_key(other) ==> m.insert(k, a)[other] == m[other],
{
}

/// After unbinding a key, it resolves to nothing; the other keys are kept.
pub proof fn law_unbind(m: Map<KeyPress, Action>, k: KeyPress, other: KeyPress)
    requires
        other != k,
    ensures
        !m.remove(k).contains_key(k),
        m.remove(k).contains_key(other) == m.contains_key(other),
        m.contains_key(other) ==> m.remove(k)[other] == m[other],
{
}

/// The vim-style map binds each documented key to its documented action: `j`/Down
/// scroll down and `k`/Up up a line, Ctrl-d/PageDown half a page down and
/// Ctrl-u/PageUp half a page up, `g`/Home to the top and `G`/End to the bottom,
/// Tab/Shift-Tab to the next/previous heading, `t` the table of contents, `o` the
/// link picker, Backspace back, `/` search, `n`/`N` next/previous match, `?` help,
/// and `q`/Esc/Ctrl-c quit.
pub proof fn law_vim_keys_do_what_the_help_says()
    ensures
        ({
            let m = vim_map();
            &&& m.contains_key(key(KeyCode::Char('j'), NO_MODIFIERS)) && m[key(KeyCode::Char('j'), NO_MODIFIERS)] == Action::ScrollDown(1)
            &&& m.contains_key(key(KeyCode::Down, NO_MODIFIERS)) && m[key(KeyCode::Down, NO_MODIFIERS)] == Action::ScrollDown(1)
            &&& m.contains_key(key(KeyCode::Char('k'), NO_MODIFIERS)) && m[key(KeyCode::Char('k'), NO_MODIFIERS)] == Action::ScrollUp(1)
            &&& m.contains_key(key(KeyCode::Up, NO_MODIFIERS)) && m[key(KeyCode::Up, NO_MODIFIERS)] == Action::ScrollUp(1)
            &&& m.contains_key(key(KeyCode::Char('d'), CONTROL)) && m[key(KeyCode::Char('d'), CONTROL)] == Action::PageDown
            &&& m.contains_key(key(KeyCode::PageDown, NO_MODIFIERS)) && m[key(KeyCode::PageDown, NO_MODIFIERS)] == Action::PageDown
            &&& m.contains_key(key(KeyCode::Char('u'), CONTROL)) && m[key(KeyCode::Char('u'), CONTROL)] == Action::PageUp
            &&& m.contains_key(key(KeyCode::PageUp, NO_MODIFIERS)) && m[key(KeyCode::PageUp, NO_MODIFIERS)] == Action::PageUp
            &&& m.contains_key(key(KeyCode::Char('g'), NO_MODIFIERS)) && m[key(KeyCode::Char('g'), NO_MODIFIERS)] == Action::Top
            &&& m.contains_key(key(KeyCode::Home, NO_MODIFIERS)) && m[key(KeyCode::Home, NO_MODIFIERS)] == Action::Top
            &&& m.contains_key(key(KeyCode::Char('G'), SHIFT)) && m[key(KeyCode::Char('G'), SHIFT)] == Action::Bottom
            &&& m.contains_key(key(KeyCode::Char('G'), NO_MODIFIERS)) && m[key(KeyCode::Char('G'), NO_MODIFIERS)] == Action::Bottom
            &&& m.contains_key(key(KeyCode::End, NO_MODIFIERS)) && m[key(KeyCode::End, NO_MODIFIERS)] == Action::Bottom
            &&& m.contains_key(key(KeyCode::Tab, NO_MODIFIERS)) && m[key(KeyCode::Tab, NO_MODIFIERS)] == Action::NextHeading
            &&& m.contains_key(key(KeyCode::BackTab, SHIFT)) && m[key(KeyCode::BackTab, SHIFT)] == Action::PrevHeading
            &&& m.contains_key(key(KeyCode::BackTab, NO_MODIFIERS)) && m[key(KeyCode::BackTab, NO_MODIFIERS)] == Action::PrevHeading
            &&& m.contains_key(key(KeyCode::Char('t'), NO_MODIFIERS)) && m[key(KeyCode::Char('t'), NO_MODIFIERS)] == Action::ToggleToc
            &&& m.contains_key(key(KeyCode::Char('o'), NO_MODIFIERS)) && m[key(KeyCode::Char('o'), NO_MODIFIERS)] == Action::ToggleLinkPicker
            &&& m.contains_key(key(KeyCode::Backspace, NO_MODIFIERS)) && m[key(KeyCode::Backspace, NO_MODIFIERS)] == Action::GoBack
            &&& m.contains_key(key(KeyCode::Char('/'), NO_MODIFIERS)) && m[key(KeyCode::Char('/'), NO_MODIFIERS)] == Action::EnterSearch
            &&& m.contains_key(key(KeyCode::Char('n'), NO_MODIFIERS)) && m[key(KeyCode::Char('n'), NO_MODIFIERS)] == Action::SearchNext
            &&& m.contains_key(key(KeyCode::Char('N'), SHIFT)) && m[key(KeyCode::Char('N'), SHIFT)] == Action::SearchPrev
            &&& m.contains_key(key(KeyCode::Char('N'), NO_MODIFIERS)) && m[key(KeyCode::Char('N'), NO_MODIFIERS)] == Action::SearchPrev
            &&& m.contains_key(key(KeyCode::Char('?'), NO_MODIFIERS)) && m[key(KeyCode::Char('?'), NO_MODIFIERS)] == Action::ToggleHelp
            &&& m.contains_key(key(KeyCode::Char('?'), SHIFT)) && m[key(KeyCode::Char('?'), SHIFT)] == Action::ToggleHelp
            &&& m.contains_key(key(KeyCode::Char('q'), NO_MODIFIERS)) && m[key(KeyCode::Char('q'), NO_MODIFIERS)] == Action::Quit
            &&& m.contains_key(key(KeyCode::Esc, NO_MODIFIERS)) && m[key(KeyCode::Esc, NO_MODIFIERS)] == Action::Quit
            &&& m.contains_key(key(KeyCode::Char('c'), CONTROL)) && m[key(KeyCode::Char('c'), CONTROL)] == Action::Quit
        }),
{
}

} // verus!
