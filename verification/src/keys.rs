//! Encoding of terminal key events as the bytes a container's TTY
//! expects: plain characters as UTF-8, control and meta combinations as the
//! usual control bytes and `ESC` prefixes, and navigation and function keys as
//! `CSI` and `SS3` escape sequences (with xterm modifier parameters).

use crate::text::{decimal, decimal_string, digit_char, push_str_bytes};
use vstd::prelude::*;
use vstd::string::*;
use vstd::utf8::*;

verus! {

broadcast use vstd::utf8::char_is_scalar;

/// The escape byte that starts every escape sequence.
pub const ESC: u8 = 0x1b;

/// The delete byte, sent for the backspace key.
pub const DEL: u8 = 0x7f;

/// A key on the keyboard, as the terminal layer reports it.
#[derive(Clone, Copy, Debug, PartialEq, Eq, Structural)]
pub enum KeyCode {
    Backspace,
    Enter,
    Left,
    Right,
    Up,
    Down,
    Home,
    End,
    PageUp,
    PageDown,
    Tab,
    BackTab,
    Delete,
    Insert,
    /// A function key, `F(1)` being F1.
    F(u8),
    /// A key that produces a character.
    Char(char),
    Null,
    Esc,
    CapsLock,
    ScrollLock,
    NumLock,
    PrintScreen,
    Pause,
    Menu,
    KeypadBegin,
    /// A media key (play, pause, volume, ...).
    Media,
    /// A modifier key pressed on its own.
    Modifier,
}

/// The modifier keys held during a key event.
#[derive(Clone, Copy, Debug, PartialEq, Eq, Structural)]
pub struct KeyModifiers {
    pub shift: bool,
    pub control: bool,
    pub alt: bool,
}

impl KeyModifiers {
    /// No modifier held.
    pub fn none() -> (m: KeyModifiers)
        ensures
            !m.shift && !m.control && !m.alt,
    {
        KeyModifiers { shift: false, control: false, alt: false }
    }

    /// Only the shift key held.
    pub fn shift() -> (m: KeyModifiers)
        ensures
            m.shift && !m.control && !m.alt,
    {
        KeyModifiers { shift: true, control: false, alt: false }
    }

    /// Only the control key held.
    pub fn control() -> (m: KeyModifiers)
        ensures
            !m.shift && m.control && !m.alt,
    {
        KeyModifiers { shift: false, control: true, alt: false }
    }

    /// Only the alt key held.
    pub fn alt() -> (m: KeyModifiers)
        ensures
            !m.shift && !m.control && m.alt,
    {
        KeyModifiers { shift: false, control: false, alt: true }
    }
}

/// Whether a key event is a press, an automatic repeat or a release.
#[derive(Clone, Copy, Debug, PartialEq, Eq, Structural)]
pub enum KeyEventKind {
    Press,
    Repeat,
    Release,
}

/// A key event: the key, the modifiers held with it, and its kind.
#[derive(Clone, Copy, Debug, PartialEq, Eq, Structural)]
pub struct KeyEvent {
    pub code: KeyCode,
    pub modifiers: KeyModifiers,
    pub kind: KeyEventKind,
}

impl KeyEvent {
    /// A key press of `code` with `modifiers`.
    pub fn new(code: KeyCode, modifiers: KeyModifiers) -> (k: KeyEvent)
        ensures
            k.code == code,
            k.modifiers == modifiers,
            k.kind == KeyEventKind::Press,
    {
        KeyEvent { code, modifiers, kind: KeyEventKind::Press }
    }
}

/// What a key is sent as: raw bytes, a `CSI` sequence
/// (`ESC [ parameters final_byte`) or an `SS3` sequence (`ESC O final_byte`).
#[derive(Debug)]
pub enum TerminalInput {
    Bytes(Vec<u8>),
    Csi { parameters: String, final_byte: u8 },
    Ss3(u8),
}

/// The mathematical value of a [`TerminalInput`].
pub enum InputModel {
    Bytes(Seq<u8>),
    Csi { parameters: Seq<char>, final_byte: u8 },
    Ss3(u8),
}

impl View for TerminalInput {
    type V = InputModel;

    open spec fn view(&self) -> InputModel {
        match self {
            TerminalInput::Bytes(b) => InputModel::Bytes(b@),
            TerminalInput::Csi { parameters, final_byte } => InputModel::Csi {
                parameters: parameters@,
                final_byte: *final_byte,
            },
            TerminalInput::Ss3(b) => InputModel::Ss3(*b),
        }
    }
}

/// The value of an optional [`TerminalInput`].
pub open spec fn input_view(t: Option<TerminalInput>) -> Option<InputModel> {
    match t {
        Some(t) => Some(t@),
        None => None,
    }
}

/// The value of an optional byte vector.
pub open spec fn bytes_view(b: Option<Vec<u8>>) -> Option<Seq<u8>> {
    match b {
        Some(b) => Some(b@),
        None => None,
    }
}

// ---------------------------------------------------------------------------
// What each key is sent as.
// ---------------------------------------------------------------------------

/// The xterm modifier parameter: one plus 1 for shift, 2 for alt and 4 for
/// control; absent when no modifier is held.
pub open spec fn modifier_number(m: KeyModifiers) -> Option<u8> {
    let n = 1 + (if m.shift { 1int } else { 0 }) + (if m.alt { 2int } else { 0 }) + (if m.control {
        4int
    } else {
        0
    });
    if n > 1 {
        Some(n as u8)
    } else {
        None
    }
}

/// The control byte that control plus `c` produces: letters of either case
/// give 1 to 26, and the punctuation and digit keys of the classic terminal
/// layout give `ESC`, 0x1c to 0x1f, `DEL` and NUL.
pub open spec fn control_byte(c: char) -> Option<u8> {
    if 'a' <= c && c <= 'z' {
        Some(((c as u32) - ('a' as u32) + 1) as u8)
    } else if 'A' <= c && c <= 'Z' {
        Some(((c as u32) - ('A' as u32) + 1) as u8)
    } else if c == '[' || c == '3' {
        Some(ESC)
    } else if c == '\\' || c == '4' {
        Some(0x1c)
    } else if c == ']' || c == '5' {
        Some(0x1d)
    } else if c == '^' || c == '6' {
        Some(0x1e)
    } else if c == '_' || c == '7' || c == '/' {
        Some(0x1f)
    } else if c == '8' || c == '?' {
        Some(DEL)
    } else if c == ' ' || c == '2' || c == '@' {
        Some(0)
    } else {
        None
    }
}

/// The final byte of the `CSI` sequence of an arrow, home or end key.
pub open spec fn cursor_final_byte(code: KeyCode) -> Option<u8> {
    match code {
        KeyCode::Left => Some(0x44u8),
        KeyCode::Right => Some(0x43u8),
        KeyCode::Up => Some(0x41u8),
        KeyCode::Down => Some(0x42u8),
        KeyCode::Home => Some(0x48u8),
        KeyCode::End => Some(0x46u8),
        _ => None,
    }
}

/// The number of the `CSI number ~` sequence of an editing key or of F5 to F12.
pub open spec fn tilde_number(code: KeyCode) -> Option<u8> {
    match code {
        KeyCode::Insert => Some(2u8),
        KeyCode::Delete => Some(3u8),
        KeyCode::PageUp => Some(5u8),
        KeyCode::PageDown => Some(6u8),
        KeyCode::F(n) => if n == 5 {
            Some(15u8)
        } else if n == 6 {
            Some(17u8)
        } else if n == 7 {
            Some(18u8)
        } else if n == 8 {
            Some(19u8)
        } else if n == 9 {
            Some(20u8)
        } else if n == 10 {
            Some(21u8)
        } else if n == 11 {
            Some(23u8)
        } else if n == 12 {
            Some(24u8)
        } else {
            None
        },
        _ => None,
    }
}

/// The `SS3` final byte of F1 to F4 (`P`, `Q`, `R`, `S`).
pub open spec fn ss3_final_byte(code: KeyCode) -> Option<u8> {
    match code {
        KeyCode::F(n) => if n == 1 {
            Some(0x50u8)
        } else if n == 2 {
            Some(0x51u8)
        } else if n == 3 {
            Some(0x52u8)
        } else if n == 4 {
            Some(0x53u8)
        } else {
            None
        },
        _ => None,
    }
}

/// The parameters of a cursor key's `CSI` sequence: none without modifiers,
/// `1;m` with modifier number `m`.
pub open spec fn cursor_parameters(m: KeyModifiers) -> Seq<char> {
    match modifier_number(m) {
        None => Seq::empty(),
        Some(n) => seq!['1', ';'] + decimal(n as nat),
    }
}

/// The parameters of a `CSI number ~` sequence: `number`, followed by `;m`
/// with modifier number `m`.
pub open spec fn tilde_parameters(number: u8, m: KeyModifiers) -> Seq<char> {
    match modifier_number(m) {
        None => decimal(number as nat),
        Some(n) => decimal(number as nat) + seq![';'] + decimal(n as nat),
    }
}

/// What a navigation, editing or function key is sent as, if it is one.
pub open spec fn special_key_model(code: KeyCode, m: KeyModifiers) -> Option<InputModel> {
    if let Some(f) = cursor_final_byte(code) {
        Some(InputModel::Csi { parameters: cursor_parameters(m), final_byte: f })
    } else if code == KeyCode::BackTab {
        Some(InputModel::Csi { parameters: Seq::empty(), final_byte: 0x5a })
    } else if let Some(number) = tilde_number(code) {
        Some(InputModel::Csi { parameters: tilde_parameters(number, m), final_byte: 0x7e })
    } else if let Some(f) = ss3_final_byte(code) {
        Some(InputModel::Ss3(f))
    } else {
        None
    }
}

/// The bytes that alt prepends: `ESC` when alt is held, nothing otherwise.
pub open spec fn alt_prefix(m: KeyModifiers) -> Seq<u8> {
    if m.alt {
        seq![ESC]
    } else {
        Seq::empty()
    }
}

/// What a character-producing key is sent as, if it is one: backspace `DEL`,
/// enter `CR`, tab `HT`, escape `ESC`, a character its UTF-8 bytes, or with
/// control its control byte; alt prepends `ESC`.
pub open spec fn character_model(code: KeyCode, m: KeyModifiers) -> Option<InputModel> {
    let prefix = alt_prefix(m);
    match code {
        KeyCode::Backspace => Some(InputModel::Bytes(prefix.push(DEL))),
        KeyCode::Enter => Some(InputModel::Bytes(prefix.push(0x0d))),
        KeyCode::Tab => Some(InputModel::Bytes(prefix.push(0x09))),
        KeyCode::Char(c) => if m.control {
            match control_byte(c) {
                Some(b) => Some(InputModel::Bytes(prefix.push(b))),
                None => None,
            }
        } else {
            Some(InputModel::Bytes(prefix + encode_scalar(c as u32)))
        },
        KeyCode::Esc => Some(InputModel::Bytes(prefix.push(ESC))),
        _ => None,
    }
}

/// What a key event is sent as: as a special key if it is one, else as a
/// character key; nothing for keys that produce no input.
pub open spec fn key_model(code: KeyCode, m: KeyModifiers) -> Option<InputModel> {
    match special_key_model(code, m) {
        Some(i) => Some(i),
        None => character_model(code, m),
    }
}

/// The bytes of a `CSI` sequence.
pub open spec fn csi_bytes(parameters: Seq<char>, final_byte: u8) -> Seq<u8> {
    seq![ESC, 0x5bu8] + encode_utf8(parameters) + seq![final_byte]
}

/// The bytes a terminal input is written as.
pub open spec fn input_bytes(i: InputModel) -> Seq<u8> {
    match i {
        InputModel::Bytes(b) => b,
        InputModel::Csi { parameters, final_byte } => csi_bytes(parameters, final_byte),
        InputModel::Ss3(f) => seq![ESC, 0x4fu8, f],
    }
}

/// The bytes a key event is sent as, if any.
pub open spec fn key_bytes(code: KeyCode, m: KeyModifiers) -> Option<Seq<u8>> {
    match key_model(code, m) {
        Some(i) => Some(input_bytes(i)),
        None => None,
    }
}

// ---------------------------------------------------------------------------
// Encoding key events.
// ---------------------------------------------------------------------------

/// The UTF-8 encoding of a character.
pub fn encode_char_utf8(c: char) -> (bytes: Vec<u8>)
    ensures
        bytes@ == encode_scalar(c as u32),
{
    let v: u32 = c as u32;
    let mut bytes: Vec<u8> = Vec::new();
    if v <= 0x7F {
        bytes.push((v & 0x7F) as u8);
    } else if v <= 0x7FF {
        bytes.push(0xC0 | ((v >> 6) & 0x1F) as u8);
        bytes.push(0x80 | (v & 0x3F) as u8);
    } else if v <= 0xFFFF {
        bytes.push(0xE0 | ((v >> 12) & 0x0F) as u8);
        bytes.push(0x80 | ((v >> 6) & 0x3F) as u8);
        bytes.push(0x80 | (v & 0x3F) as u8);
    } else {
        bytes.push(0xF0 | ((v >> 18) & 0x7) as u8);
        bytes.push(0x80 | ((v >> 12) & 0x3F) as u8);
        bytes.push(0x80 | ((v >> 6) & 0x3F) as u8);
        bytes.push(0x80 | (v & 0x3F) as u8);
    }
    assert(bytes@ =~= encode_scalar(v));
    bytes
}

/// The byte that control plus `c` produces, if any.
pub fn control_char_byte(c: char) -> (r: Option<u8>)
    ensures
        r == control_byte(c),
{
    if 'a' <= c && c <= 'z' {
        let b: u8 = c as u8;
        assert(b == c as u32);
        Some(b - 0x61 + 1)
    } else if 'A' <= c && c <= 'Z' {
        let b: u8 = c as u8;
        assert(b == c as u32);
        Some(b - 0x41 + 1)
    } else if c == '[' || c == '3' {
        Some(ESC)
    } else if c == '\\' || c == '4' {
        Some(0x1c)
    } else if c == ']' || c == '5' {
        Some(0x1d)
    } else if c == '^' || c == '6' {
        Some(0x1e)
    } else if c == '_' || c == '7' || c == '/' {
        Some(0x1f)
    } else if c == '8' || c == '?' {
        Some(DEL)
    } else if c == ' ' || c == '2' || c == '@' {
        Some(0)
    } else {
        None
    }
}

/// The xterm modifier parameter of `modifiers`, absent when none is held.
pub fn key_modifier_number(modifiers: KeyModifiers) -> (r: Option<u8>)
    ensures
        r == modifier_number(modifiers),
{
    let mut number: u8 = 1;
    if modifiers.shift {
        number += 1;
    }
    if modifiers.alt {
        number += 2;
    }
    if modifiers.control {
        number += 4;
    }
    if number > 1 {
        Some(number)
    } else {
        None
    }
}

/// The bytes of the `CSI` sequence with `parameters` and `final_byte`.
pub fn csi_sequence(parameters: &str, final_byte: u8) -> (bytes: Vec<u8>)
    ensures
        bytes@ == csi_bytes(parameters@, final_byte),
{
    let mut bytes: Vec<u8> = Vec::new();
    bytes.push(ESC);
    bytes.push(0x5b);
    push_str_bytes(&mut bytes, parameters);
    bytes.push(final_byte);
    assert(bytes@ =~= csi_bytes(parameters@, final_byte));
    bytes
}

/// What F1 to F4 are sent as.
pub fn function_key_input(code: KeyCode) -> (r: Option<TerminalInput>)
    ensures
        input_view(r) == (match ss3_final_byte(code) {
            Some(f) => Some(InputModel::Ss3(f)),
            None => None,
        }),
{
    match code {
        KeyCode::F(1) => Some(TerminalInput::Ss3(0x50)),
        KeyCode::F(2) => Some(TerminalInput::Ss3(0x51)),
        KeyCode::F(3) => Some(TerminalInput::Ss3(0x52)),
        KeyCode::F(4) => Some(TerminalInput::Ss3(0x53)),
        _ => None,
    }
}

/// What a navigation, editing or function key is sent as.
pub fn special_key_input(code: KeyCode, modifiers: KeyModifiers) -> (r: Option<TerminalInput>)
    ensures
        input_view(r) == special_key_model(code, modifiers),
{
    let modifier_number = key_modifier_number(modifiers);
    let cursor_final = match code {
        KeyCode::Left => Some(0x44u8),
        KeyCode::Right => Some(0x43u8),
        KeyCode::Up => Some(0x41u8),
        KeyCode::Down => Some(0x42u8),
        KeyCode::Home => Some(0x48u8),
        KeyCode::End => Some(0x46u8),
        _ => None,
    };
    if let Some(final_byte) = cursor_final {
        let parameters = match modifier_number {
            None => String::new(),
            Some(n) => {
                let mut p = String::from_str("1;");
                proof {
                    reveal_strlit("1;");
                }
                let digits = decimal_string(n);
                p.append(digits.as_str());
                p
            },
        };
        assert(parameters@ =~= cursor_parameters(modifiers));
        return Some(TerminalInput::Csi { parameters, final_byte });
    }
    if let KeyCode::BackTab = code {
        return Some(TerminalInput::Csi { parameters: String::new(), final_byte: 0x5a });
    }
    let number: u8 = match code {
        KeyCode::Insert => 2,
        KeyCode::Delete => 3,
        KeyCode::PageUp => 5,
        KeyCode::PageDown => 6,
        KeyCode::F(5) => 15,
        KeyCode::F(6) => 17,
        KeyCode::F(7) => 18,
        KeyCode::F(8) => 19,
        KeyCode::F(9) => 20,
        KeyCode::F(10) => 21,
        KeyCode::F(11) => 23,
        KeyCode::F(12) => 24,
        _ => {
            return function_key_input(code);
        },
    };
    let parameters = match modifier_number {
        None => decimal_string(number),
        Some(n) => {
            let mut p = decimal_string(number);
            let sep = ";";
            proof {
                reveal_strlit(";");
            }
            p.append(sep);
            let digits = decimal_string(n);
            p.append(digits.as_str());
            p
        },
    };
    assert(parameters@ =~= tilde_parameters(number, modifiers));
    Some(TerminalInput::Csi { parameters, final_byte: 0x7e })
}

/// What a character-producing key is sent as.
pub fn character_input(code: KeyCode, modifiers: KeyModifiers) -> (r: Option<TerminalInput>)
    ensures
        input_view(r) == character_model(code, modifiers),
{
    let mut bytes: Vec<u8> = Vec::new();
    if modifiers.alt {
        bytes.push(ESC);
    }
    assert(bytes@ =~= alt_prefix(modifiers));
    match code {
        KeyCode::Backspace => bytes.push(DEL),
        KeyCode::Enter => bytes.push(0x0d),
        KeyCode::Tab => bytes.push(0x09),
        KeyCode::Char(c) => {
            if modifiers.control {
                match control_char_byte(c) {
                    Some(b) => bytes.push(b),
                    None => {
                        return None;
                    },
                }
            } else {
                let encoded = encode_char_utf8(c);
                let mut i: usize = 0;
                let ghost prefix = bytes@;
                while i < encoded.len()
                    invariant
                        i <= encoded@.len(),
                        bytes@ == prefix + encoded@.subrange(0, i as int),
                    decreases encoded@.len() - i,
                {
                    bytes.push(encoded[i]);
                    proof {
                        assert(encoded@.subrange(0, i + 1) == encoded@.subrange(0, i as int).push(
                            encoded@[i as int],
                        ));
                    }
                    i += 1;
                }
                assert(encoded@.subrange(0, encoded@.len() as int) == encoded@);
            }
        },
        KeyCode::Esc => bytes.push(ESC),
        KeyCode::Null | KeyCode::CapsLock | KeyCode::ScrollLock | KeyCode::NumLock
        | KeyCode::PrintScreen | KeyCode::Pause | KeyCode::Menu | KeyCode::Left | KeyCode::Right
        | KeyCode::Up | KeyCode::Down | KeyCode::Home | KeyCode::End | KeyCode::PageUp
        | KeyCode::PageDown | KeyCode::BackTab | KeyCode::Delete | KeyCode::Insert | KeyCode::F(_)
        | KeyCode::KeypadBegin | KeyCode::Media | KeyCode::Modifier => {
            return None;
        },
    }
    Some(TerminalInput::Bytes(bytes))
}

impl TerminalInput {
    /// What a key event is sent as, if it produces any input.
    pub fn from_key_event(key: KeyEvent) -> (r: Option<TerminalInput>)
        ensures
            input_view(r) == key_model(key.code, key.modifiers),
    {
        let modifiers = key.modifiers;
        match special_key_input(key.code, modifiers) {
            Some(input) => Some(input),
            None => character_input(key.code, modifiers),
        }
    }

    /// The bytes this input is written as.
    pub fn into_bytes(self) -> (bytes: Vec<u8>)
        ensures
            bytes@ == input_bytes(self@),
    {
        match self {
            TerminalInput::Bytes(bytes) => bytes,
            TerminalInput::Csi { parameters, final_byte } => csi_sequence(
                parameters.as_str(),
                final_byte,
            ),
            TerminalInput::Ss3(final_byte) => {
                let mut bytes: Vec<u8> = Vec::new();
                bytes.push(ESC);
                bytes.push(0x4f);
                bytes.push(final_byte);
                assert(bytes@ =~= seq![ESC, 0x4fu8, final_byte]);
                bytes
            },
        }
    }
}

/// The bytes a key event is forwarded to the container as, if any.
pub fn key_event_bytes(key: KeyEvent) -> (r: Option<Vec<u8>>)
    ensures
        bytes_view(r) == key_bytes(key.code, key.modifiers),
{
    match TerminalInput::from_key_event(key) {
        Some(input) => Some(input.into_bytes()),
        None => None,
    }
}

} // verus!

verus! {

// ---------------------------------------------------------------------------
// Laws of key encoding.
// ---------------------------------------------------------------------------

/// A character typed without modifiers is forwarded as its UTF-8 encoding,
/// which decodes back to that character.
pub proof fn text_keys_forwarded_as_utf8(c: char)
    ensures
        key_bytes(KeyCode::Char(c), KeyModifiers { shift: false, control: false, alt: false })
            == Some(encode_scalar(c as u32)),
        decode_utf8(encode_scalar(c as u32)) == seq![c],
{
    let none = KeyModifiers { shift: false, control: false, alt: false };
    assert(alt_prefix(none) + encode_scalar(c as u32) =~= encode_scalar(c as u32));
    assert(encode_utf8(seq![c]) =~= encode_scalar(c as u32)) by {
        assert(seq![c].drop_first() =~= Seq::<char>::empty());
        assert(encode_utf8(Seq::<char>::empty()) =~= Seq::<u8>::empty());
        assert(encode_scalar(c as u32) + Seq::<u8>::empty() =~= encode_scalar(c as u32));
    }
    encode_utf8_decode_utf8(seq![c]);
}

/// With shift held too, a character key is still forwarded as the same
/// character's bytes: shift only matters to special keys.
pub proof fn shift_does_not_change_characters(c: char, m: KeyModifiers)
    ensures
        key_bytes(KeyCode::Char(c), KeyModifiers { shift: true, ..m }) == key_bytes(
            KeyCode::Char(c),
            KeyModifiers { shift: false, ..m },
        ),
{
}

/// Control with a letter gives the same byte for either case, 1 for `a` up
/// to 26 for `z`.
pub proof fn control_letters_ignore_case(c: char)
    requires
        'a' <= c <= 'z',
    ensures
        control_byte(c) == control_byte(((c as u32) - 32) as char),
        control_byte(c) == Some(((c as u32) - ('a' as u32) + 1) as u8),
        1 <= (c as u32) - ('a' as u32) + 1 <= 26,
{
}

/// Every byte that control produces with a character is an ASCII control
/// code: below 0x20, or `DEL`.
pub proof fn control_bytes_are_control_codes(c: char)
    ensures
        control_byte(c) matches Some(b) ==> b < 0x20 || b == DEL,
{
}

/// The modifier parameter tells the modifiers apart: it is absent exactly
/// when no modifier is held, lies between 2 and 8 otherwise, and different
/// modifier sets give different parameters.
pub proof fn modifier_number_identifies_modifiers(m1: KeyModifiers, m2: KeyModifiers)
    ensures
        modifier_number(m1) is None <==> (!m1.shift && !m1.control && !m1.alt),
        modifier_number(m1) matches Some(n) ==> 2 <= n <= 8,
        modifier_number(m1) == modifier_number(m2) ==> m1 == m2,
{
}

/// Holding alt sends `ESC` before what a character key sends without it.
pub proof fn alt_prefixes_escape(code: KeyCode, m: KeyModifiers)
    requires
        special_key_model(code, m) is None,
    ensures
        key_bytes(code, KeyModifiers { alt: true, ..m }) == (match key_bytes(
            code,
            KeyModifiers { alt: false, ..m },
        ) {
            Some(b) => Some(seq![ESC] + b),
            None => None,
        }),
{
    let with_alt = KeyModifiers { alt: true, ..m };
    let without = KeyModifiers { alt: false, ..m };
    assert(special_key_model(code, with_alt) is None);
    assert(special_key_model(code, without) is None);
    match code {
        KeyCode::Char(c) => {
            assert(seq![ESC] + encode_scalar(c as u32) =~= seq![ESC] + (Seq::<u8>::empty()
                + encode_scalar(c as u32)));
        },
        _ => {},
    }
    if let Some(b) = key_bytes(code, without) {
        match code {
            KeyCode::Backspace => assert(seq![ESC].push(DEL) =~= seq![ESC] + Seq::<u8>::empty().push(DEL)),
            KeyCode::Enter => assert(seq![ESC].push(0x0du8) =~= seq![ESC] + Seq::<u8>::empty().push(0x0du8)),
            KeyCode::Tab => assert(seq![ESC].push(0x09u8) =~= seq![ESC] + Seq::<u8>::empty().push(0x09u8)),
            KeyCode::Esc => assert(seq![ESC].push(ESC) =~= seq![ESC] + Seq::<u8>::empty().push(ESC)),
            KeyCode::Char(c) => {
                if m.control {
                    let cb = control_byte(c).unwrap();
                    assert(seq![ESC].push(cb) =~= seq![ESC] + Seq::<u8>::empty().push(cb));
                }
            },
            _ => {},
        }
    }
}

/// Navigation, editing and function keys are forwarded as escape sequences:
/// their bytes start with `ESC`.
pub proof fn special_keys_are_escape_sequences(code: KeyCode, m: KeyModifiers)
    ensures
        special_key_model(code, m) matches Some(i) ==> input_bytes(i).len() >= 3 && input_bytes(i)[0]
            == ESC,
{
}

} // verus!

verus! {

// ---------------------------------------------------------------------------
// The numbered keys.
// ---------------------------------------------------------------------------

/// The byte of an ASCII character.
pub open spec fn ascii_byte(c: char) -> u8 {
    (c as u32) as u8
}

/// `b` is the `CSI` sequence `ESC [ digits ~`, or, when a modifier is held,
/// `ESC [ digits ; ... ~`.
pub open spec fn is_tilde_sequence(b: Seq<u8>, digits: Seq<u8>, plain: bool) -> bool {
    &&& b.len() >= digits.len() + 3
    &&& b[0] == ESC
    &&& b[1] == 0x5b
    &&& b.subrange(2, 2 + digits.len() as int) == digits
    &&& b.last() == 0x7e
    &&& plain ==> b.len() == digits.len() + 3
    &&& !plain ==> b[2 + digits.len() as int] == 0x3b
}

/// No modifier is held.
pub open spec fn unmodified(m: KeyModifiers) -> bool {
    !m.shift && !m.control && !m.alt
}

/// The UTF-8 encoding of ASCII characters is their bytes.
proof fn lemma_encode_ascii(s: Seq<char>)
    requires
        forall|i: int| 0 <= i < s.len() ==> (#[trigger] s[i] as u32) < 0x80,
    ensures
        encode_utf8(s) == s.map_values(|c: char| ascii_byte(c)),
    decreases s.len(),
{
    if s.len() > 0 {
        let rest = s.drop_first();
        assert forall|i: int| 0 <= i < rest.len() implies (#[trigger] rest[i] as u32) < 0x80 by {
            assert(rest[i] == s[i + 1]);
        }
        lemma_encode_ascii(rest);
        let v: u32 = s[0] as u32;
        assert(v < 0x80);
        assert((v & 0x7F) as u8 == v as u8) by (bit_vector)
            requires
                v < 0x80,
        ;
        assert(encode_scalar(v) =~= seq![v as u8]);
        assert(s.map_values(|c: char| ascii_byte(c)) =~= seq![ascii_byte(s[0])] + rest.map_values(
            |c: char| ascii_byte(c),
        ));
    }
}

/// Decimal digits are ASCII characters.
proof fn lemma_decimal_ascii(n: nat)
    ensures
        forall|i: int| 0 <= i < decimal(n).len() ==> (#[trigger] decimal(n)[i] as u32) < 0x80,
    decreases n,
{
    if n >= 10 {
        lemma_decimal_ascii(n / 10);
        assert forall|i: int| 0 <= i < decimal(n).len() implies (#[trigger] decimal(n)[i] as u32)
            < 0x80 by {
            if i < decimal(n / 10).len() {
                assert(decimal(n)[i] == decimal(n / 10)[i]);
            }
        }
    }
}

/// The bytes of a key sent as `CSI number ~` are `ESC [`, the decimal digits
/// of the number, the modifier parameter if a modifier is held, and `~`.
proof fn lemma_tilde_key_bytes(code: KeyCode, m: KeyModifiers, number: u8)
    requires
        cursor_final_byte(code) is None,
        code != KeyCode::BackTab,
        tilde_number(code) == Some(number),
    ensures
        key_bytes(code, m) matches Some(b) && is_tilde_sequence(
            b,
            decimal(number as nat).map_values(|c: char| ascii_byte(c)),
            unmodified(m),
        ),
{
    let params = tilde_parameters(number, m);
    let digits = decimal(number as nat);
    lemma_decimal_ascii(number as nat);
    let tail: Seq<char> = match modifier_number(m) {
        None => Seq::empty(),
        Some(n) => seq![';'] + decimal(n as nat),
    };
    assert(params =~= digits + tail);
    if let Some(n) = modifier_number(m) {
        lemma_decimal_ascii(n as nat);
    }
    assert forall|i: int| 0 <= i < params.len() implies (#[trigger] params[i] as u32) < 0x80 by {
        if i >= digits.len() {
            if let Some(n) = modifier_number(m) {
                if i > digits.len() {
                    assert(params[i] == decimal(n as nat)[i - digits.len() - 1]);
                }
            }
        } else {
            assert(params[i] == digits[i]);
        }
    }
    lemma_encode_ascii(params);
    let f = |c: char| ascii_byte(c);
    let dm = digits.map_values(f);
    let pm = params.map_values(f);
    assert(pm =~= dm + tail.map_values(f));
    let b = csi_bytes(params, 0x7e);
    assert(b =~= seq![ESC, 0x5bu8] + pm + seq![0x7eu8]);
    assert(b.subrange(2, 2 + dm.len() as int) =~= dm);
    if !unmodified(m) {
        assert(tail[0] == ';');
        assert(b[2 + dm.len() as int] == pm[dm.len() as int]);
    }
}

/// A two-digit number is written as its tens digit and its units digit.
proof fn lemma_two_digits(n: nat)
    requires
        10 <= n < 100,
    ensures
        decimal(n) == seq![digit_char(n / 10), digit_char(n % 10)],
{
    assert(decimal(n / 10) == seq![digit_char(n / 10)]);
    assert(decimal(n) =~= seq![digit_char(n / 10), digit_char(n % 10)]);
}

/// The editing keys and F5 to F12 are sent as `CSI number ~` with the xterm
/// numbers: Insert 2, Delete 3, Page Up 5, Page Down 6, F5 15, F6 17, F7 18,
/// F8 19, F9 20, F10 21, F11 23, F12 24 (16 and 22 are not used), followed by
/// the modifier parameter when a modifier is held.
pub proof fn numbered_keys_use_xterm_numbers(m: KeyModifiers)
    ensures
        key_bytes(KeyCode::Insert, m) matches Some(b) && is_tilde_sequence(b, seq![0x32u8], unmodified(m)),
        key_bytes(KeyCode::Delete, m) matches Some(b) && is_tilde_sequence(b, seq![0x33u8], unmodified(m)),
        key_bytes(KeyCode::PageUp, m) matches Some(b) && is_tilde_sequence(b, seq![0x35u8], unmodified(m)),
        key_bytes(KeyCode::PageDown, m) matches Some(b) && is_tilde_sequence(b, seq![0x36u8], unmodified(m)),
        key_bytes(KeyCode::F(5), m) matches Some(b) && is_tilde_sequence(b, seq![0x31u8, 0x35], unmodified(m)),
        key_bytes(KeyCode::F(6), m) matches Some(b) && is_tilde_sequence(b, seq![0x31u8, 0x37], unmodified(m)),
        key_bytes(KeyCode::F(7), m) matches Some(b) && is_tilde_sequence(b, seq![0x31u8, 0x38], unmodified(m)),
        key_bytes(KeyCode::F(8), m) matches Some(b) && is_tilde_sequence(b, seq![0x31u8, 0x39], unmodified(m)),
        key_bytes(KeyCode::F(9), m) matches Some(b) && is_tilde_sequence(b, seq![0x32u8, 0x30], unmodified(m)),
        key_bytes(KeyCode::F(10), m) matches Some(b) && is_tilde_sequence(b, seq![0x32u8, 0x31], unmodified(m)),
        key_bytes(KeyCode::F(11), m) matches Some(b) && is_tilde_sequence(b, seq![0x32u8, 0x33], unmodified(m)),
        key_bytes(KeyCode::F(12), m) matches Some(b) && is_tilde_sequence(b, seq![0x32u8, 0x34], unmodified(m)),
{
    let f = |c: char| ascii_byte(c);
    lemma_tilde_key_bytes(KeyCode::Insert, m, 2);
    assert(decimal(2).map_values(f) =~= seq![0x32u8]);
    lemma_tilde_key_bytes(KeyCode::Delete, m, 3);
    assert(decimal(3).map_values(f) =~= seq![0x33u8]);
    lemma_tilde_key_bytes(KeyCode::PageUp, m, 5);
    assert(decimal(5).map_values(f) =~= seq![0x35u8]);
    lemma_tilde_key_bytes(KeyCode::PageDown, m, 6);
    assert(decimal(6).map_values(f) =~= seq![0x36u8]);
    lemma_tilde_key_bytes(KeyCode::F(5), m, 15);
    lemma_two_digits(15);
    assert(decimal(15).map_values(f) =~= seq![0x31u8, 0x35]);
    lemma_tilde_key_bytes(KeyCode::F(6), m, 17);
    lemma_two_digits(17);
    assert(decimal(17).map_values(f) =~= seq![0x31u8, 0x37]);
    lemma_tilde_key_bytes(KeyCode::F(7), m, 18);
    lemma_two_digits(18);
    assert(decimal(18).map_values(f) =~= seq![0x31u8, 0x38]);
    lemma_tilde_key_bytes(KeyCode::F(8), m, 19);
    lemma_two_digits(19);
    assert(decimal(19).map_values(f) =~= seq![0x31u8, 0x39]);
    lemma_tilde_key_bytes(KeyCode::F(9), m, 20);
    lemma_two_digits(20);
    assert(decimal(20).map_values(f) =~= seq![0x32u8, 0x30]);
    lemma_tilde_key_bytes(KeyCode::F(10), m, 21);
    lemma_two_digits(21);
    assert(decimal(21).map_values(f) =~= seq![0x32u8, 0x31]);
    lemma_tilde_key_bytes(KeyCode::F(11), m, 23);
    lemma_two_digits(23);
    assert(decimal(23).map_values(f) =~= seq![0x32u8, 0x33]);
    lemma_tilde_key_bytes(KeyCode::F(12), m, 24);
    lemma_two_digits(24);
    assert(decimal(24).map_values(f) =~= seq![0x32u8, 0x34]);
}

} // verus!
