//! Key strokes, and the grammar in which the configuration names them.
//!
//! A binding is written as a run of keys in angle brackets, `<ctrl-c>` or
//! `<g><g>`. Inside the brackets stand the modifiers, each followed by a
//! hyphen, and then the key: a name such as `enter`, or a single character.

use crate::text::{
    chars_of, contains, count, count_of, decimal, decimal_of, find, is, lower, matches_at, pieces,
    slice, split, starts_with, string_of, texts, to_ascii_lowercase, to_upper, upper,
};
use vstd::prelude::*;
use vstd::std_specs::cmp::PartialEqSpecImpl;

verus! {

/// The modifier keys that are held with a key, one bit each.
#[derive(Debug, Copy, Clone, PartialEq, Eq, Hash, Structural)]
pub struct KeyModifiers {
    pub bits: u8,
}

impl KeyModifiers {
    pub const SHIFT: u8 = 1;

    pub const CONTROL: u8 = 2;

    pub const ALT: u8 = 4;

    pub const SUPER: u8 = 8;

    pub const HYPER: u8 = 16;

    pub const META: u8 = 32;

    /// No modifier.
    pub open spec fn none() -> KeyModifiers {
        KeyModifiers { bits: 0 }
    }

    /// The modifiers of `self` together with those of the mask.
    pub open spec fn with(self, mask: u8) -> KeyModifiers {
        KeyModifiers { bits: self.bits | mask }
    }

    /// Whether every modifier of the mask is among those of `self`.
    pub open spec fn has(self, mask: u8) -> bool {
        self.bits & mask == mask
    }

    /// Whether `self` holds a modifier of the mask.
    pub open spec fn shares(self, mask: u8) -> bool {
        self.bits & mask != 0
    }

    /// No modifier.
    pub fn empty() -> (m: KeyModifiers)
        ensures
            m == KeyModifiers::none(),
    {
        KeyModifiers { bits: 0 }
    }

    /// The modifiers of a mask.
    pub fn from_bits(mask: u8) -> (m: KeyModifiers)
        ensures
            m.bits == mask,
    {
        KeyModifiers { bits: mask }
    }

    /// The modifiers of `self` together with those of `other`.
    pub fn union(self, other: KeyModifiers) -> (m: KeyModifiers)
        ensures
            m == self.with(other.bits),
    {
        KeyModifiers { bits: self.bits | other.bits }
    }

    /// Adds the modifiers of the mask.
    pub fn insert(&mut self, mask: u8)
        ensures
            *final(self) == old(self).with(mask),
    {
        self.bits = self.bits | mask;
    }

    /// Computes [`KeyModifiers::has`].
    pub fn contains(&self, mask: u8) -> (r: bool)
        ensures
            r == self.has(mask),
    {
        self.bits & mask == mask
    }

    /// Computes [`KeyModifiers::shares`].
    pub fn intersects(&self, mask: u8) -> (r: bool)
        ensures
            r == self.shares(mask),
    {
        self.bits & mask != 0
    }
}

/// Whether a key went down, is held, or went up.
#[derive(Debug, Copy, Clone, PartialEq, Eq, Hash, Structural)]
pub enum KeyEventKind {
    Press,
    Repeat,
    Release,
}

/// A key of the keyboard.
#[derive(Debug, Copy, Clone, PartialEq, Eq, Hash, Structural)]
pub enum KeyCode {
    Backspace,
    Enter,
    Left,
    Right,
    Up,
    Down,
    Home,
    End,
    PageUp,
    PageDown,
    Tab,
    BackTab,
    Delete,
    Insert,
    /// A function key, by its number.
    F(u8),
    /// A key that types a character.
    Char(char),
    Null,
    Esc,
    CapsLock,
    ScrollLock,
    NumLock,
    PrintScreen,
    Pause,
    Menu,
    KeypadBegin,
    /// A media key, by the number the terminal driver gives it.
    Media(u8),
    /// A modifier key pressed by itself, by the number the terminal driver
    /// gives it.
    Modifier(u8),
}

/// A key stroke: the key, the modifiers held with it, whether it went down or
/// up, and the state of the keyboard's locks.
#[derive(Debug, Copy, Clone)]
pub struct KeyEvent {
    pub code: KeyCode,
    pub modifiers: KeyModifiers,
    pub kind: KeyEventKind,
    pub state: u8,
}

/// Whether the character is an ASCII capital letter.
pub open spec fn is_capital(c: char) -> bool {
    'A' <= c <= 'Z'
}

impl KeyEvent {
    /// The press of a key with the given modifiers.
    pub fn new(code: KeyCode, modifiers: KeyModifiers) -> (key: KeyEvent)
        ensures
            key == KeyEvent::pressed(code, modifiers),
    {
        KeyEvent { code, modifiers, kind: KeyEventKind::Press, state: 0 }
    }

    /// The press of a key with the given modifiers.
    pub open spec fn pressed(code: KeyCode, modifiers: KeyModifiers) -> KeyEvent {
        KeyEvent { code, modifiers, kind: KeyEventKind::Press, state: 0 }
    }

    /// The key stroke in the form in which key strokes are compared: shift
    /// is held exactly where a capital letter is typed. A capital letter
    /// brings shift with it, and shift makes a letter capital.
    pub open spec fn normal(self) -> KeyEvent {
        match self.code {
            KeyCode::Char(c) => if is_capital(c) {
                KeyEvent { modifiers: self.modifiers.with(KeyModifiers::SHIFT), ..self }
            } else if self.modifiers.has(KeyModifiers::SHIFT) {
                KeyEvent { code: KeyCode::Char(upper(c)), ..self }
            } else {
                self
            },
            _ => self,
        }
    }

    /// Whether two key strokes are the same for the key bindings: they agree
    /// in every field once both are in normal form.
    pub open spec fn same_as(self, other: KeyEvent) -> bool {
        self.normal() == other.normal()
    }

    /// Computes [`KeyEvent::normal`].
    pub fn normalize_case(self) -> (key: KeyEvent)
        ensures
            key == self.normal(),
    {
        match self.code {
            KeyCode::Char(c) => {
                if 'A' <= c && c <= 'Z' {
                    KeyEvent {
                        code: self.code,
                        modifiers: self.modifiers.union(KeyModifiers::from_bits(KeyModifiers::SHIFT)),
                        kind: self.kind,
                        state: self.state,
                    }
                } else if self.modifiers.contains(KeyModifiers::SHIFT) {
                    KeyEvent {
                        code: KeyCode::Char(to_upper(c)),
                        modifiers: self.modifiers,
                        kind: self.kind,
                        state: self.state,
                    }
                } else {
                    self
                }
            },
            _ => self,
        }
    }
}

impl PartialEq for KeyEvent {
    fn eq(&self, other: &KeyEvent) -> (equal: bool) {
        let a = self.normalize_case();
        let b = other.normalize_case();
        a.code == b.code && a.modifiers == b.modifiers && a.kind == b.kind && a.state == b.state
    }
}

impl PartialEqSpecImpl for KeyEvent {
    open spec fn obeys_eq_spec() -> bool {
        true
    }

    open spec fn eq_spec(&self, other: &KeyEvent) -> bool {
        self.same_as(*other)
    }
}

impl Eq for KeyEvent {

}

/// Whether two runs of key strokes are the same for the key bindings.
pub open spec fn same_keys(a: Seq<KeyEvent>, b: Seq<KeyEvent>) -> bool {
    a.len() == b.len() && forall|i: int| 0 <= i < a.len() ==> (#[trigger] a[i]).same_as(b[i])
}

/// Computes [`same_keys`].
pub fn keys_match(a: &Vec<KeyEvent>, b: &Vec<KeyEvent>) -> (r: bool)
    ensures
        r == same_keys(a@, b@),
{
    if a.len() != b.len() {
        return false;
    }
    let mut i: usize = 0;
    while i < a.len()
        invariant
            i <= a.len(),
            a.len() == b.len(),
            forall|j: int| 0 <= j < i ==> (#[trigger] a@[j]).same_as(b@[j]),
        decreases a.len() - i,
    {
        if !(a[i] == b[i]) {
            assert(!a@[i as int].same_as(b@[i as int]));
            return false;
        }
        i += 1;
    }
    true
}

/// Why a text names no key or no run of keys.
#[derive(Debug, Clone, PartialEq, Eq, Hash)]
pub enum KeyParseError {
    /// What is left after the modifiers names no key; it is held here.
    Key(String),
    /// The text holds more `<` than `>` or more `>` than `<`; it is held
    /// here.
    Sequence(String),
}

/// A [`KeyParseError`] with its text as a sequence of characters.
pub enum KeyParseErrorView {
    Key(Seq<char>),
    Sequence(Seq<char>),
}

impl View for KeyParseError {
    type V = KeyParseErrorView;

    open spec fn view(&self) -> KeyParseErrorView {
        match *self {
            KeyParseError::Key(text) => KeyParseErrorView::Key(text@),
            KeyParseError::Sequence(text) => KeyParseErrorView::Sequence(text@),
        }
    }
}

impl KeyParseError {
    /// What the error says: that the text could not be read, and the text.
    pub open spec fn message_text(self) -> Seq<char> {
        match self {
            KeyParseError::Key(text) => "Unable to parse "@ + text@,
            KeyParseError::Sequence(text) => "Unable to parse `"@ + text@ + "`"@,
        }
    }

    /// The error as a sentence.
    pub fn message(&self) -> (m: String)
        ensures
            m@ == self.message_text(),
    {
        match self {
            KeyParseError::Key(text) => {
                let mut m = chars_of("Unable to parse ");
                let mut t = chars_of(text.as_str());
                m.append(&mut t);
                string_of(&m)
            },
            KeyParseError::Sequence(text) => {
                let mut m = chars_of("Unable to parse `");
                let mut t = chars_of(text.as_str());
                let mut tick = chars_of("`");
                m.append(&mut t);
                m.append(&mut tick);
                string_of(&m)
            },
        }
    }
}

/// `s` without the word that it begins with, if it begins with the word and
/// the word is not empty.
pub open spec fn after(s: Seq<char>, word: Seq<char>) -> Option<Seq<char>> {
    if word.len() > 0 && starts_with(s, word) {
        Some(s.subrange(word.len() as int, s.len() as int))
    } else {
        None
    }
}

/// The modifiers that a text begins with, added to `held`, and what follows
/// them. The modifiers are `ctrl-`, `alt-` and `shift-`, in any order and any
/// number.
pub open spec fn modifiers_and_key(s: Seq<char>, held: KeyModifiers) -> (KeyModifiers, Seq<char>)
    decreases s.len(),
{
    match after(s, "ctrl-"@) {
        Some(rest) => modifiers_and_key(rest, held.with(KeyModifiers::CONTROL)),
        None => match after(s, "alt-"@) {
            Some(rest) => modifiers_and_key(rest, held.with(KeyModifiers::ALT)),
            None => match after(s, "shift-"@) {
                Some(rest) => modifiers_and_key(rest, held.with(KeyModifiers::SHIFT)),
                None => (held, s),
            },
        },
    }
}

/// The key that a name stands for.
pub open spec fn named_key(name: Seq<char>) -> Option<KeyCode> {
    if name == "esc"@ {
        Some(KeyCode::Esc)
    } else if name == "enter"@ {
        Some(KeyCode::Enter)
    } else if name == "left"@ {
        Some(KeyCode::Left)
    } else if name == "right"@ {
        Some(KeyCode::Right)
    } else if name == "up"@ {
        Some(KeyCode::Up)
    } else if name == "down"@ {
        Some(KeyCode::Down)
    } else if name == "home"@ {
        Some(KeyCode::Home)
    } else if name == "end"@ {
        Some(KeyCode::End)
    } else if name == "pageup"@ {
        Some(KeyCode::PageUp)
    } else if name == "pagedown"@ {
        Some(KeyCode::PageDown)
    } else if name == "backtab"@ {
        Some(KeyCode::BackTab)
    } else if name == "backspace"@ {
        Some(KeyCode::Backspace)
    } else if name == "delete"@ {
        Some(KeyCode::Delete)
    } else if name == "insert"@ {
        Some(KeyCode::Insert)
    } else if name == "f1"@ {
        Some(KeyCode::F(1))
    } else if name == "f2"@ {
        Some(KeyCode::F(2))
    } else if name == "f3"@ {
        Some(KeyCode::F(3))
    } else if name == "f4"@ {
        Some(KeyCode::F(4))
    } else if name == "f5"@ {
        Some(KeyCode::F(5))
    } else if name == "f6"@ {
        Some(KeyCode::F(6))
    } else if name == "f7"@ {
        Some(KeyCode::F(7))
    } else if name == "f8"@ {
        Some(KeyCode::F(8))
    } else if name == "f9"@ {
        Some(KeyCode::F(9))
    } else if name == "f10"@ {
        Some(KeyCode::F(10))
    } else if name == "f11"@ {
        Some(KeyCode::F(11))
    } else if name == "f12"@ {
        Some(KeyCode::F(12))
    } else if name == "space"@ {
        Some(KeyCode::Char(' '))
    } else if name == "hyphen"@ || name == "minus"@ {
        Some(KeyCode::Char('-'))
    } else if name == "tab"@ {
        Some(KeyCode::Tab)
    } else {
        None
    }
}

/// Whether the character takes a single byte in UTF-8.
pub open spec fn is_single_byte(c: char) -> bool {
    (c as u32) < 0x80
}

/// The key stroke that a key and the modifiers before it name. A key is a
/// name, or a single character of one byte, which shift makes capital. The
/// back tab brings shift with it.
pub open spec fn key_with_modifiers(key: Seq<char>, held: KeyModifiers) -> Result<
    KeyEvent,
    KeyParseErrorView,
> {
    match named_key(key) {
        Some(KeyCode::BackTab) => Ok(
            KeyEvent::pressed(KeyCode::BackTab, held.with(KeyModifiers::SHIFT)),
        ),
        Some(code) => Ok(KeyEvent::pressed(code, held)),
        None => if key.len() == 1 && is_single_byte(key[0]) {
            Ok(
                KeyEvent::pressed(
                    KeyCode::Char(
                        if held.has(KeyModifiers::SHIFT) {
                            upper(key[0])
                        } else {
                            key[0]
                        },
                    ),
                    held,
                ),
            )
        } else {
            Err(KeyParseErrorView::Key(key))
        },
    }
}

/// The key stroke that a text names: modifiers, then a key, capital letters
/// counting as small ones.
pub open spec fn named_key_event(raw: Seq<char>) -> Result<KeyEvent, KeyParseErrorView> {
    let parts = modifiers_and_key(raw.map_values(|c: char| lower(c)), KeyModifiers::none());
    key_with_modifiers(parts.1, parts.0)
}

/// `s` without its first character, if that is `c`.
pub open spec fn without_first(s: Seq<char>, c: char) -> Seq<char> {
    if s.len() > 0 && s[0] == c {
        s.subrange(1, s.len() as int)
    } else {
        s
    }
}

/// One key of a run without the bracket that is left on it: a `<` at its
/// start, or else a `>` at its end.
pub open spec fn unbracketed(piece: Seq<char>) -> Seq<char> {
    if piece.len() > 0 && piece[0] == '<' {
        piece.subrange(1, piece.len() as int)
    } else if piece.len() > 0 && piece.last() == '>' {
        piece.drop_last()
    } else {
        piece
    }
}

/// The texts of the keys of a run. Where the run holds `><`, it is cut
/// there; else a leading `<` and then a leading `>` are dropped first.
pub open spec fn key_texts(raw: Seq<char>) -> Seq<Seq<char>> {
    let body = if contains(raw, "><"@) {
        raw
    } else {
        without_first(without_first(raw, '<'), '>')
    };
    pieces(body, "><"@).map_values(|piece: Seq<char>| unbracketed(piece))
}

/// The key strokes that the texts name, or the error of the first text that
/// names none.
pub open spec fn named_key_events(parts: Seq<Seq<char>>) -> Result<Seq<KeyEvent>, KeyParseErrorView>
    decreases parts.len(),
{
    if parts.len() == 0 {
        Ok(Seq::empty())
    } else {
        match named_key_events(parts.drop_last()) {
            Err(e) => Err(e),
            Ok(keys) => match named_key_event(parts.last()) {
                Err(e) => Err(e),
                Ok(key) => Ok(keys.push(key)),
            },
        }
    }
}

/// The run of key strokes that a text names. A text with unequal numbers of
/// `<` and `>` names none.
pub open spec fn named_key_sequence(raw: Seq<char>) -> Result<Seq<KeyEvent>, KeyParseErrorView> {
    if count(raw, '>') != count(raw, '<') {
        Err(KeyParseErrorView::Sequence(raw))
    } else {
        named_key_events(key_texts(raw))
    }
}

/// Splits the modifiers that a text begins with from the key that follows.
pub fn extract_modifiers(raw: &Vec<char>) -> (r: (Vec<char>, KeyModifiers))
    ensures
        (r.1, r.0@) == modifiers_and_key(raw@, KeyModifiers::none()),
{
    let ctrl = chars_of("ctrl-");
    let alt = chars_of("alt-");
    let shift = chars_of("shift-");
    proof {
        reveal_strlit("ctrl-");
        reveal_strlit("alt-");
        reveal_strlit("shift-");
    }
    let mut modifiers = KeyModifiers::empty();
    let mut i: usize = 0;
    assert(raw@.subrange(0, raw.len() as int) == raw@);
    loop
        invariant_except_break
            i <= raw.len(),
            ctrl@ == "ctrl-"@,
            alt@ == "alt-"@,
            shift@ == "shift-"@,
            ctrl.len() == 5,
            alt.len() == 4,
            shift.len() == 6,
            modifiers_and_key(raw@.subrange(i as int, raw.len() as int), modifiers)
                == modifiers_and_key(raw@, KeyModifiers::none()),
        ensures
            i <= raw.len(),
            (modifiers, raw@.subrange(i as int, raw.len() as int)) == modifiers_and_key(
                raw@,
                KeyModifiers::none(),
            ),
        decreases raw.len() - i,
    {
        let ghost rest = raw@.subrange(i as int, raw.len() as int);
        assert(forall|n: int|
            0 <= n && i + n <= raw.len() ==> #[trigger] rest.subrange(0, n) == raw@.subrange(
                i as int,
                i + n,
            ));
        assert(forall|n: int|
            0 <= n && i + n <= raw.len() ==> #[trigger] rest.subrange(n, rest.len() as int)
                == raw@.subrange(i + n, raw.len() as int));
        let is_ctrl = matches_at(raw, &ctrl, i);
        let is_alt = matches_at(raw, &alt, i);
        let is_shift = matches_at(raw, &shift, i);
        assert(is_ctrl == starts_with(rest, ctrl@)) by {
            if i + 5 <= raw.len() {
                assert(rest.subrange(0, 5) == raw@.subrange(i as int, i + 5));
            }
        }
        assert(is_alt == starts_with(rest, alt@)) by {
            if i + 4 <= raw.len() {
                assert(rest.subrange(0, 4) == raw@.subrange(i as int, i + 4));
            }
        }
        assert(is_shift == starts_with(rest, shift@)) by {
            if i + 6 <= raw.len() {
                assert(rest.subrange(0, 6) == raw@.subrange(i as int, i + 6));
            }
        }
        if is_ctrl {
            assert(rest.subrange(5, rest.len() as int) == raw@.subrange(i + 5, raw.len() as int));
            modifiers.insert(KeyModifiers::CONTROL);
            i += 5;
        } else if is_alt {
            assert(rest.subrange(4, rest.len() as int) == raw@.subrange(i + 4, raw.len() as int));
            modifiers.insert(KeyModifiers::ALT);
            i += 4;
        } else if is_shift {
            assert(rest.subrange(6, rest.len() as int) == raw@.subrange(i + 6, raw.len() as int));
            modifiers.insert(KeyModifiers::SHIFT);
            i += 6;
        } else {
            break;
        }
    }
    (slice(raw, i, raw.len()), modifiers)
}

/// Reads the name of a key.
fn parse_named_key(name: &Vec<char>) -> (r: Option<KeyCode>)
    ensures
        r == named_key(name@),
{
    if is(name, "esc") {
        Some(KeyCode::Esc)
    } else if is(name, "enter") {
        Some(KeyCode::Enter)
    } else if is(name, "left") {
        Some(KeyCode::Left)
    } else if is(name, "right") {
        Some(KeyCode::Right)
    } else if is(name, "up") {
        Some(KeyCode::Up)
    } else if is(name, "down") {
        Some(KeyCode::Down)
    } else if is(name, "home") {
        Some(KeyCode::Home)
    } else if is(name, "end") {
        Some(KeyCode::End)
    } else if is(name, "pageup") {
        Some(KeyCode::PageUp)
    } else if is(name, "pagedown") {
        Some(KeyCode::PageDown)
    } else if is(name, "backtab") {
        Some(KeyCode::BackTab)
    } else if is(name, "backspace") {
        Some(KeyCode::Backspace)
    } else if is(name, "delete") {
        Some(KeyCode::Delete)
    } else if is(name, "insert") {
        Some(KeyCode::Insert)
    } else if is(name, "f1") {
        Some(KeyCode::F(1))
    } else if is(name, "f2") {
        Some(KeyCode::F(2))
    } else if is(name, "f3") {
        Some(KeyCode::F(3))
    } else if is(name, "f4") {
        Some(KeyCode::F(4))
    } else if is(name, "f5") {
        Some(KeyCode::F(5))
    } else if is(name, "f6") {
        Some(KeyCode::F(6))
    } else if is(name, "f7") {
        Some(KeyCode::F(7))
    } else if is(name, "f8") {
        Some(KeyCode::F(8))
    } else if is(name, "f9") {
        Some(KeyCode::F(9))
    } else if is(name, "f10") {
        Some(KeyCode::F(10))
    } else if is(name, "f11") {
        Some(KeyCode::F(11))
    } else if is(name, "f12") {
        Some(KeyCode::F(12))
    } else if is(name, "space") {
        Some(KeyCode::Char(' '))
    } else if is(name, "hyphen") || is(name, "minus") {
        Some(KeyCode::Char('-'))
    } else if is(name, "tab") {
        Some(KeyCode::Tab)
    } else {
        None
    }
}

/// Reads a key that follows the given modifiers.
pub fn parse_key_code_with_modifiers(raw: &Vec<char>, modifiers: KeyModifiers) -> (r: Result<
    KeyEvent,
    KeyParseError,
>)
    ensures
        match r {
            Ok(key) => key_with_modifiers(raw@, modifiers) == Ok::<KeyEvent, KeyParseErrorView>(
                key,
            ),
            Err(e) => key_with_modifiers(raw@, modifiers) == Err::<KeyEvent, KeyParseErrorView>(
                e@,
            ),
        },
{
    let mut modifiers = modifiers;
    match parse_named_key(raw) {
        Some(KeyCode::BackTab) => {
            modifiers.insert(KeyModifiers::SHIFT);
            Ok(KeyEvent::new(KeyCode::BackTab, modifiers))
        },
        Some(code) => Ok(KeyEvent::new(code, modifiers)),
        None => {
            if raw.len() == 1 && (raw[0] as u32) < 0x80 {
                let c = if modifiers.contains(KeyModifiers::SHIFT) {
                    to_upper(raw[0])
                } else {
                    raw[0]
                };
                Ok(KeyEvent::new(KeyCode::Char(c), modifiers))
            } else {
                Err(KeyParseError::Key(string_of(raw)))
            }
        },
    }
}

/// Reads one key stroke, without brackets: `ctrl-a`, `alt-enter`, `q`.
pub fn parse_key_event(raw: &str) -> (r: Result<KeyEvent, KeyParseError>)
    ensures
        match r {
            Ok(key) => named_key_event(raw@) == Ok::<KeyEvent, KeyParseErrorView>(key),
            Err(e) => named_key_event(raw@) == Err::<KeyEvent, KeyParseErrorView>(e@),
        },
{
    let chars = chars_of(raw);
    parse_key_event_chars(&chars)
}

/// Reads one key stroke from its characters.
fn parse_key_event_chars(raw: &Vec<char>) -> (r: Result<KeyEvent, KeyParseError>)
    ensures
        match r {
            Ok(key) => named_key_event(raw@) == Ok::<KeyEvent, KeyParseErrorView>(key),
            Err(e) => named_key_event(raw@) == Err::<KeyEvent, KeyParseErrorView>(e@),
        },
{
    let lowered = to_ascii_lowercase(raw);
    let (remaining, modifiers) = extract_modifiers(&lowered);
    parse_key_code_with_modifiers(&remaining, modifiers)
}

/// Drops the bracket that is left on one key of a run.
fn unbracket(piece: &Vec<char>) -> (r: Vec<char>)
    ensures
        r@ == unbracketed(piece@),
{
    if piece.len() > 0 && piece[0] == '<' {
        slice(piece, 1, piece.len())
    } else if piece.len() > 0 && piece[piece.len() - 1] == '>' {
        assert(piece@.drop_last() == piece@.subrange(0, piece.len() - 1));
        slice(piece, 0, piece.len() - 1)
    } else {
        assert(piece@.subrange(0, piece.len() as int) == piece@);
        slice(piece, 0, piece.len())
    }
}

/// Drops the first character if it is `c`.
fn drop_first_if(s: &Vec<char>, c: char) -> (r: Vec<char>)
    ensures
        r@ == without_first(s@, c),
{
    if s.len() > 0 && s[0] == c {
        slice(s, 1, s.len())
    } else {
        assert(s@.subrange(0, s.len() as int) == s@);
        slice(s, 0, s.len())
    }
}

/// Reads a run of key strokes as a binding writes it: `<q>`, `<ctrl-c>`,
/// `<g><g>`.
pub fn parse_key_sequence(raw: &str) -> (r: Result<Vec<KeyEvent>, KeyParseError>)
    ensures
        match r {
            Ok(keys) => named_key_sequence(raw@) == Ok::<Seq<KeyEvent>, KeyParseErrorView>(keys@),
            Err(e) => named_key_sequence(raw@) == Err::<Seq<KeyEvent>, KeyParseErrorView>(e@),
        },
{
    let chars = chars_of(raw);
    if count_of(&chars, '>') != count_of(&chars, '<') {
        return Err(KeyParseError::Sequence(string_of(&chars)));
    }
    let sep = chars_of("><");
    proof {
        reveal_strlit("><");
    }
    let body = if find(&chars, &sep).is_some() {
        assert(chars@.subrange(0, chars.len() as int) == chars@);
        slice(&chars, 0, chars.len())
    } else {
        drop_first_if(&drop_first_if(&chars, '<'), '>')
    };
    let parts = split(&body, &sep);
    let ghost wanted = key_texts(raw@);
    assert(wanted.len() == parts.len()) by {
        assert(texts(parts@).len() == parts.len());
    }
    let mut keys: Vec<KeyEvent> = Vec::new();
    let mut i: usize = 0;
    assert(wanted.subrange(0, 0) == Seq::<Seq<char>>::empty());
    assert(named_key_sequence(raw@) == named_key_events(wanted));
    while i < parts.len()
        invariant
            i <= parts.len(),
            wanted.len() == parts.len(),
            wanted == pieces(body@, "><"@).map_values(|piece: Seq<char>| unbracketed(piece)),
            texts(parts@) == pieces(body@, "><"@),
            named_key_events(wanted.subrange(0, i as int)) == Ok::<
                Seq<KeyEvent>,
                KeyParseErrorView,
            >(keys@),
            named_key_sequence(raw@) == named_key_events(wanted),
        decreases parts.len() - i,
    {
        let text = unbracket(&parts[i]);
        assert(texts(parts@)[i as int] == parts@[i as int]@);
        assert(wanted[i as int] == text@);
        assert(wanted.subrange(0, i + 1).drop_last() == wanted.subrange(0, i as int));
        assert(wanted.subrange(0, i + 1).last() == text@);
        match parse_key_event_chars(&text) {
            Ok(key) => {
                keys.push(key);
            },
            Err(e) => {
                proof {
                    lemma_first_error_stays(wanted, i + 1);
                }
                return Err(e);
            },
        }
        i += 1;
    }
    assert(wanted.subrange(0, wanted.len() as int) == wanted);
    Ok(keys)
}

/// Where the first `n` texts hold one that names no key, the error of the
/// whole run is the error of these `n`.
proof fn lemma_first_error_stays(parts: Seq<Seq<char>>, n: int)
    requires
        0 <= n <= parts.len(),
        named_key_events(parts.subrange(0, n)) is Err,
    ensures
        named_key_events(parts) == named_key_events(parts.subrange(0, n)),
    decreases parts.len() - n,
{
    if n == parts.len() {
        assert(parts.subrange(0, n) == parts);
    } else {
        assert(parts.drop_last().subrange(0, n) == parts.subrange(0, n));
        lemma_first_error_stays(parts.drop_last(), n);
    }
}

/// The name of a key in the grammar of the bindings; empty for a key that
/// the grammar cannot name.
pub open spec fn key_name(code: KeyCode) -> Seq<char> {
    match code {
        KeyCode::Backspace => "backspace"@,
        KeyCode::Enter => "enter"@,
        KeyCode::Left => "left"@,
        KeyCode::Right => "right"@,
        KeyCode::Up => "up"@,
        KeyCode::Down => "down"@,
        KeyCode::Home => "home"@,
        KeyCode::End => "end"@,
        KeyCode::PageUp => "pageup"@,
        KeyCode::PageDown => "pagedown"@,
        KeyCode::Tab => "tab"@,
        KeyCode::BackTab => "backtab"@,
        KeyCode::Delete => "delete"@,
        KeyCode::Insert => "insert"@,
        KeyCode::F(n) => "f("@ + decimal(n as nat) + ")"@,
        KeyCode::Char(c) => if c == ' ' {
            "space"@
        } else {
            seq![c]
        },
        KeyCode::Esc => "esc"@,
        _ => Seq::empty(),
    }
}

/// A key stroke as text: `ctrl-`, `shift-` and `alt-`, in this order, for the
/// modifiers that are held, and then the name of the key.
pub open spec fn key_event_text(key: KeyEvent) -> Seq<char> {
    (if key.modifiers.shares(KeyModifiers::CONTROL) {
        "ctrl-"@
    } else {
        Seq::empty()
    }) + (if key.modifiers.shares(KeyModifiers::SHIFT) {
        "shift-"@
    } else {
        Seq::empty()
    }) + (if key.modifiers.shares(KeyModifiers::ALT) {
        "alt-"@
    } else {
        Seq::empty()
    }) + key_name(key.code)
}

/// Appends a literal to a text.
fn push_literal(text: &mut Vec<char>, literal: &str)
    ensures
        final(text)@ == old(text)@ + literal@,
{
    let mut l = chars_of(literal);
    text.append(&mut l);
}

/// Writes the name of a key.
fn key_name_of(code: KeyCode) -> (r: Vec<char>)
    ensures
        r@ == key_name(code),
{
    let mut r: Vec<char> = Vec::new();
    match code {
        KeyCode::Backspace => push_literal(&mut r, "backspace"),
        KeyCode::Enter => push_literal(&mut r, "enter"),
        KeyCode::Left => push_literal(&mut r, "left"),
        KeyCode::Right => push_literal(&mut r, "right"),
        KeyCode::Up => push_literal(&mut r, "up"),
        KeyCode::Down => push_literal(&mut r, "down"),
        KeyCode::Home => push_literal(&mut r, "home"),
        KeyCode::End => push_literal(&mut r, "end"),
        KeyCode::PageUp => push_literal(&mut r, "pageup"),
        KeyCode::PageDown => push_literal(&mut r, "pagedown"),
        KeyCode::Tab => push_literal(&mut r, "tab"),
        KeyCode::BackTab => push_literal(&mut r, "backtab"),
        KeyCode::Delete => push_literal(&mut r, "delete"),
        KeyCode::Insert => push_literal(&mut r, "insert"),
        KeyCode::F(n) => {
            push_literal(&mut r, "f(");
            let mut digits = decimal_of(n as u32);
            r.append(&mut digits);
            push_literal(&mut r, ")");
        },
        KeyCode::Char(c) => {
            if c == ' ' {
                push_literal(&mut r, "space");
            } else {
                r.push(c);
            }
        },
        KeyCode::Esc => push_literal(&mut r, "esc"),
        _ => {},
    }
    r
}

/// Writes a key stroke as text.
pub fn _key_event_to_string(key_event: &KeyEvent) -> (key: String)
    ensures
        key@ == key_event_text(*key_event),
{
    let mut text: Vec<char> = Vec::new();
    if key_event.modifiers.intersects(KeyModifiers::CONTROL) {
        push_literal(&mut text, "ctrl-");
    }
    if key_event.modifiers.intersects(KeyModifiers::SHIFT) {
        push_literal(&mut text, "shift-");
    }
    if key_event.modifiers.intersects(KeyModifiers::ALT) {
        push_literal(&mut text, "alt-");
    }
    let mut name = key_name_of(key_event.code);
    text.append(&mut name);
    string_of(&text)
}

} // verus!
