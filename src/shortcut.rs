//! Keystrokes and the shortcuts that actions are bound to.

use vstd::prelude::*;

verus! {

/// The modifier keys held down with a key.
#[derive(Clone, Copy, Debug, PartialEq, Eq, Structural)]
pub struct Modifiers {
    pub control: bool,
    pub alt: bool,
    pub shift: bool,
    pub command: bool,
}

impl Modifiers {
    pub open spec fn none_spec() -> Modifiers {
        Modifiers { control: false, alt: false, shift: false, command: false }
    }

    pub open spec fn command_spec() -> Modifiers {
        Modifiers { command: true, ..Modifiers::none_spec() }
    }

    /// No modifier held.
    pub fn none() -> (r: Modifiers)
        ensures
            r == Modifiers::none_spec(),
    {
        Modifiers { control: false, alt: false, shift: false, command: false }
    }

    /// The command modifier alone.
    pub fn command_only() -> (r: Modifiers)
        ensures
            r == Modifiers::command_spec(),
    {
        Modifiers { control: false, alt: false, shift: false, command: true }
    }
}

/// What a keystroke is, as plain values: its modifiers, its key token and the
/// key that an input method produced, if any.
pub struct KeyView {
    pub modifiers: Modifiers,
    pub key: Seq<char>,
    pub ime_key: Option<Seq<char>>,
}

pub open spec fn opt_str_view(s: Option<String>) -> Option<Seq<char>> {
    match s {
        Some(t) => Some(t@),
        None => None,
    }
}

/// A key pressed together with a set of modifiers.
#[derive(Debug)]
pub struct Keystroke {
    pub modifiers: Modifiers,
    pub key: String,
    pub ime_key: Option<String>,
}

impl View for Keystroke {
    type V = KeyView;

    open spec fn view(&self) -> KeyView {
        KeyView { modifiers: self.modifiers, key: self.key@, ime_key: opt_str_view(self.ime_key) }
    }
}

fn clone_opt_string(s: &Option<String>) -> (r: Option<String>)
    ensures
        r == *s,
{
    match s {
        Some(t) => Some(t.clone()),
        None => None,
    }
}

fn opt_string_eq(a: &Option<String>, b: &Option<String>) -> (r: bool)
    ensures
        r == (opt_str_view(*a) == opt_str_view(*b)),
{
    match (a, b) {
        (Some(x), Some(y)) => x.eq(y),
        (None, None) => true,
        _ => false,
    }
}

impl Keystroke {
    pub fn new(modifiers: Modifiers, key: String, ime_key: Option<String>) -> (r: Keystroke)
        ensures
            r.modifiers == modifiers,
            r.key == key,
            r.ime_key == ime_key,
    {
        Keystroke { modifiers, key, ime_key }
    }

    /// The same modifiers and key token, and the same input-method key.
    pub fn same_as(&self, other: &Keystroke) -> (r: bool)
        ensures
            r == (self@ == other@),
    {
        self.modifiers == other.modifiers && self.key == other.key && opt_string_eq(
            &self.ime_key,
            &other.ime_key,
        )
    }
}

impl Clone for Keystroke {
    fn clone(&self) -> (r: Keystroke)
        ensures
            r == *self,
    {
        Keystroke {
            modifiers: self.modifiers,
            key: self.key.clone(),
            ime_key: clone_opt_string(&self.ime_key),
        }
    }
}

impl PartialEq for Keystroke {
    fn eq(&self, other: &Keystroke) -> (r: bool) {
        self.same_as(other)
    }
}

impl vstd::std_specs::cmp::PartialEqSpecImpl for Keystroke {
    open spec fn obeys_eq_spec() -> bool {
        true
    }

    open spec fn eq_spec(&self, other: &Keystroke) -> bool {
        self@ == other@
    }
}

/// An icon drawn for a modifier or for a named key.
#[derive(Clone, Copy, Debug, PartialEq, Eq, Structural)]
pub enum KeyIcon {
    Control,
    Alt,
    Shift,
    Command,
    Enter,
    Delete,
    Escape,
    Tab,
    Space,
    Up,
    Down,
    Left,
    Right,
}

/// The icons of the held modifiers, in the order control, alt, shift, command.
pub open spec fn modifier_icons(m: Modifiers) -> Seq<KeyIcon> {
    (if m.control { seq![KeyIcon::Control] } else { Seq::empty() }) + (if m.alt {
        seq![KeyIcon::Alt]
    } else {
        Seq::empty()
    }) + (if m.shift { seq![KeyIcon::Shift] } else { Seq::empty() }) + (if m.command {
        seq![KeyIcon::Command]
    } else {
        Seq::empty()
    })
}

/// The icon of a named key; other keys are shown by their label.
pub open spec fn named_key_icon(key: Seq<char>) -> Option<KeyIcon> {
    if key == "enter"@ {
        Some(KeyIcon::Enter)
    } else if key == "backspace"@ || key == "delete"@ {
        Some(KeyIcon::Delete)
    } else if key == "escape"@ {
        Some(KeyIcon::Escape)
    } else if key == "tab"@ {
        Some(KeyIcon::Tab)
    } else if key == "space"@ {
        Some(KeyIcon::Space)
    } else if key == "up"@ {
        Some(KeyIcon::Up)
    } else if key == "down"@ {
        Some(KeyIcon::Down)
    } else if key == "left"@ {
        Some(KeyIcon::Left)
    } else if key == "right"@ {
        Some(KeyIcon::Right)
    } else {
        None
    }
}

/// The text a key cap shows for a key without an icon: the input-method key
/// where there is one, else the key token.
pub open spec fn label_source(k: KeyView) -> Seq<char> {
    match k.ime_key {
        Some(s) => s,
        None => k.key,
    }
}

pub uninterp spec fn upper_of(s: Seq<char>) -> Seq<char>;

/// Relies on str::to_uppercase: the upper-case form of a string, which
/// depends on its characters alone.
#[verifier::external_body]
fn uppercase(s: &str) -> (r: String)
    ensures
        r@ == upper_of(s@),
{
    s.to_uppercase()
}

fn is_key(key: &String, name: &str) -> (r: bool)
    ensures
        r == (key@ == name@),
{
    key.eq(&name.to_owned())
}

fn named_key_icon_of(key: &String) -> (r: Option<KeyIcon>)
    ensures
        r == named_key_icon(key@),
{
    if is_key(key, "enter") {
        Some(KeyIcon::Enter)
    } else if is_key(key, "backspace") || is_key(key, "delete") {
        Some(KeyIcon::Delete)
    } else if is_key(key, "escape") {
        Some(KeyIcon::Escape)
    } else if is_key(key, "tab") {
        Some(KeyIcon::Tab)
    } else if is_key(key, "space") {
        Some(KeyIcon::Space)
    } else if is_key(key, "up") {
        Some(KeyIcon::Up)
    } else if is_key(key, "down") {
        Some(KeyIcon::Down)
    } else if is_key(key, "left") {
        Some(KeyIcon::Left)
    } else if is_key(key, "right") {
        Some(KeyIcon::Right)
    } else {
        None
    }
}

/// How a shortcut is drawn: icons for the modifiers and for a named key, and
/// an upper-case label for any other key.
#[derive(Debug)]
pub struct KeyCaps {
    pub icons: Vec<KeyIcon>,
    pub label: Option<String>,
}

/// A keystroke that an action is bound to. It matches a pressed keystroke
/// only when both are the same in every modifier and in the key.
#[derive(Debug)]
pub struct Shortcut {
    pub inner: Keystroke,
}

impl View for Shortcut {
    type V = KeyView;

    open spec fn view(&self) -> KeyView {
        self.inner@
    }
}

impl Clone for Shortcut {
    fn clone(&self) -> (r: Shortcut)
        ensures
            r == *self,
    {
        Shortcut { inner: self.inner.clone() }
    }
}

impl Shortcut {
    /// A bare key, without modifiers.
    pub fn simple(key: &str) -> (r: Shortcut)
        ensures
            r@ == (KeyView { modifiers: Modifiers::none_spec(), key: key@, ime_key: None }),
    {
        Shortcut { inner: Keystroke { modifiers: Modifiers::none(), key: key.to_owned(), ime_key: None } }
    }

    /// A key with the command modifier alone.
    pub fn cmd(key: &str) -> (r: Shortcut)
        ensures
            r@ == (KeyView { modifiers: Modifiers::command_spec(), key: key@, ime_key: None }),
    {
        Shortcut {
            inner: Keystroke { modifiers: Modifiers::command_only(), key: key.to_owned(), ime_key: None },
        }
    }

    pub fn new(keystroke: Keystroke) -> (r: Shortcut)
        ensures
            r.inner == keystroke,
            r@ == keystroke@,
    {
        Shortcut { inner: keystroke }
    }

    /// Whether a pressed keystroke triggers this shortcut: no subset or
    /// superset of the modifiers counts.
    pub fn matches(&self, keystroke: &Keystroke) -> (r: bool)
        ensures
            r == (self@ == keystroke@),
    {
        self.inner.same_as(keystroke)
    }
    /// The key caps that show this shortcut.
    pub fn render(&self) -> (r: KeyCaps)
        ensures
            r.icons@ == modifier_icons(self@.modifiers) + match named_key_icon(self@.key) {
                Some(i) => seq![i],
                None => Seq::empty(),
            },
            r.label is Some <==> named_key_icon(self@.key) is None,
            r.label matches Some(l) ==> l@ == upper_of(label_source(self@)),
    {
        let m = self.inner.modifiers;
        let mut icons: Vec<KeyIcon> = Vec::new();
        if m.control {
            icons.push(KeyIcon::Control);
        }
        if m.alt {
            icons.push(KeyIcon::Alt);
        }
        if m.shift {
            icons.push(KeyIcon::Shift);
        }
        if m.command {
            icons.push(KeyIcon::Command);
        }
        assert(icons@ =~= modifier_icons(m));
        match named_key_icon_of(&self.inner.key) {
            Some(icon) => {
                icons.push(icon);
                KeyCaps { icons, label: None }
            },
            None => {
                let label = match &self.inner.ime_key {
                    Some(k) => uppercase(k.as_str()),
                    None => uppercase(self.inner.key.as_str()),
                };
                proof {
                    assert(icons@ + Seq::<KeyIcon>::empty() =~= icons@);
                }
                KeyCaps { icons, label: Some(label) }
            },
        }
    }
}

} // verus!
