//! Display modes, key presses and the key bindings that turn sequences of
//! key presses into commands.

use vstd::prelude::*;

use crate::action::Action;

verus! {

/// Application display mode.
#[derive(Clone, Copy, Debug, PartialEq, Eq, Structural, Hash)]
pub enum Mode {
    /// Loading screen with progress bar, shown while assets download.
    Loading,
    /// Home screen with character cards, sidebar and log panel.
    Home,
}

impl Default for Mode {
    fn default() -> (r: Mode)
        ensures
            r == Mode::Loading,
    {
        Mode::Loading
    }
}

/// The key of a key press.
#[derive(Clone, Copy, Debug, PartialEq, Eq, Structural)]
pub enum KeyCode {
    Char(char),
    Up,
    Down,
    Left,
    Right,
    Tab,
    BackTab,
    Enter,
    Esc,
    Backspace,
    /// Any key without a binding of its own.
    Other,
}

/// A key press: the key and whether Control or Alt was held.
#[derive(Clone, Copy, Debug, PartialEq, Eq, Structural)]
pub struct Key {
    pub code: KeyCode,
    pub ctrl: bool,
    pub alt: bool,
}

/// A command that a key sequence can be bound to.
#[derive(Clone, Copy, Debug, PartialEq, Eq, Structural)]
pub enum Command {
    Quit,
    Suspend,
    ClearScreen,
    Help,
    FocusNext,
    FocusPrev,
    ToggleLog,
    MaximizeCharacter,
}

impl Command {
    /// The action a command stands for.
    pub open spec fn as_action(self) -> Action {
        match self {
            Command::Quit => Action::Quit,
            Command::Suspend => Action::Suspend,
            Command::ClearScreen => Action::ClearScreen,
            Command::Help => Action::Help,
            Command::FocusNext => Action::FocusNext,
            Command::FocusPrev => Action::FocusPrev,
            Command::ToggleLog => Action::ToggleLog,
            Command::MaximizeCharacter => Action::MaximizeCharacter,
        }
    }

    /// The action this command stands for.
    pub fn action(self) -> (r: Action)
        ensures
            r == self.as_action(),
    {
        match self {
            Command::Quit => Action::Quit,
            Command::Suspend => Action::Suspend,
            Command::ClearScreen => Action::ClearScreen,
            Command::Help => Action::Help,
            Command::FocusNext => Action::FocusNext,
            Command::FocusPrev => Action::FocusPrev,
            Command::ToggleLog => Action::ToggleLog,
            Command::MaximizeCharacter => Action::MaximizeCharacter,
        }
    }
}

/// A plain key press (no modifier held).
pub open spec fn plain(code: KeyCode) -> Key {
    Key { code, ctrl: false, alt: false }
}

/// One binding: in `mode`, the key sequence `keys` runs `command`.
pub struct Binding {
    pub mode: Mode,
    pub keys: Vec<Key>,
    pub command: Command,
}

/// The command bound to `keys` in `mode` among `bs`: the first binding
/// that matches.
pub open spec fn bound(bs: Seq<(Mode, Seq<Key>, Command)>, mode: Mode, keys: Seq<Key>) -> Option<Command>
    decreases bs.len(),
{
    if bs.len() == 0 {
        None
    } else if bs[0].0 == mode && bs[0].1 == keys {
        Some(bs[0].2)
    } else {
        bound(bs.drop_first(), mode, keys)
    }
}

/// The bindings of a key map as plain values.
pub open spec fn bindings_view(v: Seq<Binding>) -> Seq<(Mode, Seq<Key>, Command)> {
    v.map_values(|b: Binding| (b.mode, b.keys@, b.command))
}

/// Key bindings per display mode.
pub struct KeyMap {
    pub bindings: Vec<Binding>,
}

fn single(code: KeyCode) -> (r: Vec<Key>)
    ensures
        r@ == seq![plain(code)],
{
    let mut v: Vec<Key> = Vec::new();
    v.push(Key { code, ctrl: false, alt: false });
    v
}

fn keys_equal(a: &Vec<Key>, b: &Vec<Key>) -> (r: bool)
    ensures
        r == (a@ == b@),
{
    if a.len() != b.len() {
        return false;
    }
    let mut i: usize = 0;
    while i < a.len()
        invariant
            a@.len() == b@.len(),
            i <= a@.len(),
            forall|j: int| 0 <= j < i ==> a@[j] == b@[j],
        decreases a.len() - i,
    {
        if a[i] != b[i] {
            return false;
        }
        i = i + 1;
    }
    assert(a@ =~= b@);
    true
}

/// The default bindings of one mode, in order.
pub open spec fn default_bindings_of(mode: Mode) -> Seq<(Mode, Seq<Key>, Command)> {
    seq![
        (mode, seq![plain(KeyCode::Char('q'))], Command::Quit),
        (mode, seq![plain(KeyCode::Char('j'))], Command::FocusNext),
        (mode, seq![plain(KeyCode::Down)], Command::FocusNext),
        (mode, seq![plain(KeyCode::Tab)], Command::FocusNext),
        (mode, seq![plain(KeyCode::Char('k'))], Command::FocusPrev),
        (mode, seq![plain(KeyCode::Up)], Command::FocusPrev),
        (mode, seq![plain(KeyCode::BackTab)], Command::FocusPrev),
        (mode, seq![plain(KeyCode::Char('l'))], Command::ToggleLog),
    ]
}

impl KeyMap {
    /// The bindings as plain values.
    pub open spec fn view_bindings(&self) -> Seq<(Mode, Seq<Key>, Command)> {
        bindings_view(self.bindings@)
    }

    fn bind_defaults(&mut self, mode: Mode)
        ensures
            final(self).view_bindings() == old(self).view_bindings() + default_bindings_of(mode),
    {
        let ghost s0 = self.view_bindings();
        self.bindings.push(Binding { mode, keys: single(KeyCode::Char('q')), command: Command::Quit });
        self.bindings.push(Binding { mode, keys: single(KeyCode::Char('j')), command: Command::FocusNext });
        self.bindings.push(Binding { mode, keys: single(KeyCode::Down), command: Command::FocusNext });
        self.bindings.push(Binding { mode, keys: single(KeyCode::Tab), command: Command::FocusNext });
        self.bindings.push(Binding { mode, keys: single(KeyCode::Char('k')), command: Command::FocusPrev });
        self.bindings.push(Binding { mode, keys: single(KeyCode::Up), command: Command::FocusPrev });
        self.bindings.push(Binding { mode, keys: single(KeyCode::BackTab), command: Command::FocusPrev });
        self.bindings.push(Binding { mode, keys: single(KeyCode::Char('l')), command: Command::ToggleLog });
        assert(self.view_bindings() =~= s0 + default_bindings_of(mode));
    }

    /// The default bindings, the same in both modes: `q` quits; `j`,
    /// Down and Tab focus the next element; `k`, Up and Back-Tab the
    /// previous one; `l` toggles the log panel.
    pub fn default_bindings() -> (r: KeyMap)
        ensures
            r.view_bindings() == default_bindings_of(Mode::Home) + default_bindings_of(Mode::Loading),
    {
        let mut m = KeyMap { bindings: Vec::new() };
        assert(m.view_bindings() =~= Seq::<(Mode, Seq<Key>, Command)>::empty());
        m.bind_defaults(Mode::Home);
        m.bind_defaults(Mode::Loading);
        assert(m.view_bindings() =~= default_bindings_of(Mode::Home) + default_bindings_of(Mode::Loading));
        m
    }

    /// The command bound to `keys` in `mode`, if any.
    pub fn lookup(&self, mode: Mode, keys: &Vec<Key>) -> (r: Option<Command>)
        ensures
            r == bound(self.view_bindings(), mode, keys@),
    {
        let ghost all = self.view_bindings();
        assert(all.skip(0) =~= all);
        let mut i: usize = 0;
        while i < self.bindings.len()
            invariant
                i <= self.bindings@.len(),
                all == self.view_bindings(),
                bound(all, mode, keys@) == bound(all.skip(i as int), mode, keys@),
            decreases self.bindings.len() - i,
        {
            let b = &self.bindings[i];
            let ghost rest = all.skip(i as int);
            assert(rest[0] == (b.mode, b.keys@, b.command));
            assert(rest.drop_first() =~= all.skip(i + 1));
            if b.mode == mode && keys_equal(&b.keys, keys) {
                return Some(b.command);
            }
            i = i + 1;
        }
        assert(all.skip(i as int) =~= Seq::<(Mode, Seq<Key>, Command)>::empty());
        None
    }
}

} // verus!
