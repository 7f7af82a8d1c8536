//! Global hotkeys: parsing the configured shortcut, showing it to the user,
//! and recognising a new shortcut pressed in the settings window.

use vstd::prelude::*;
use crate::text::trim_string;
use crate::text::trim_spec;

verus! {

/// The shortcut used when none is configured.
pub const DEFAULT: &'static str = "alt+KeyC";

/// Modifier keys of a shortcut. `meta` is the Super key (Cmd on macOS, the
/// Windows key elsewhere).
#[derive(Debug, Clone, Copy, PartialEq, Eq, Structural)]
pub struct Mods {
    pub ctrl: bool,
    pub alt: bool,
    pub shift: bool,
    pub meta: bool,
}

impl Mods {
    pub open spec fn is_empty_spec(self) -> bool {
        !self.ctrl && !self.alt && !self.shift && !self.meta
    }

    /// Whether no modifier is held.
    pub fn is_empty(&self) -> (b: bool)
        ensures
            b == self.is_empty_spec(),
    {
        !self.ctrl && !self.alt && !self.shift && !self.meta
    }
}

/// A shortcut: modifiers and the name of the key code (`KeyC`, `Digit1`,
/// `F5`, ...).
#[derive(Debug)]
pub struct HotKey {
    pub mods: Mods,
    pub key: String,
}

/// Bit of each modifier in a global-hotkey modifier set.
pub const ALT_BIT: u32 = 0x1;
pub const CONTROL_BIT: u32 = 0x8;
pub const SHIFT_BIT: u32 = 0x200;
pub const SUPER_BIT: u32 = 0x2000;

/// The modifiers a global-hotkey modifier bit set holds.
pub open spec fn mods_of_bits(bits: u32) -> Mods {
    Mods {
        ctrl: bits & CONTROL_BIT != 0,
        alt: bits & ALT_BIT != 0,
        shift: bits & SHIFT_BIT != 0,
        meta: bits & SUPER_BIT != 0,
    }
}

/// Each modifier reads its own bit and no other: setting a bit turns its
/// modifier on, clearing it turns it off, and neither changes the others.
pub proof fn lemma_modifier_bits_independent(bits: u32)
    ensures
        mods_of_bits(bits | ALT_BIT).alt,
        mods_of_bits(bits | CONTROL_BIT).ctrl,
        mods_of_bits(bits | SHIFT_BIT).shift,
        mods_of_bits(bits | SUPER_BIT).meta,
        !mods_of_bits(bits & !ALT_BIT).alt,
        !mods_of_bits(bits & !CONTROL_BIT).ctrl,
        !mods_of_bits(bits & !SHIFT_BIT).shift,
        !mods_of_bits(bits & !SUPER_BIT).meta,
        ({
            let m = mods_of_bits(bits);
            let a = mods_of_bits(bits | ALT_BIT);
            let c = mods_of_bits(bits | CONTROL_BIT);
            let sh = mods_of_bits(bits | SHIFT_BIT);
            let su = mods_of_bits(bits | SUPER_BIT);
            &&& a.ctrl == m.ctrl && a.shift == m.shift && a.meta == m.meta
            &&& c.alt == m.alt && c.shift == m.shift && c.meta == m.meta
            &&& sh.alt == m.alt && sh.ctrl == m.ctrl && sh.meta == m.meta
            &&& su.alt == m.alt && su.ctrl == m.ctrl && su.shift == m.shift
        }),
        mods_of_bits(0) == (Mods { ctrl: false, alt: false, shift: false, meta: false }),
        mods_of_bits(ALT_BIT | SHIFT_BIT) == (Mods { ctrl: false, alt: true, shift: true, meta: false }),
{
    let b = bits;
    assert((b | 1u32) & 1u32 != 0) by (bit_vector);
    assert((b | 8u32) & 8u32 != 0) by (bit_vector);
    assert((b | 0x200u32) & 0x200u32 != 0) by (bit_vector);
    assert((b | 0x2000u32) & 0x2000u32 != 0) by (bit_vector);
    assert((b & !1u32) & 1u32 == 0) by (bit_vector);
    assert((b & !8u32) & 8u32 == 0) by (bit_vector);
    assert((b & !0x200u32) & 0x200u32 == 0) by (bit_vector);
    assert((b & !0x2000u32) & 0x2000u32 == 0) by (bit_vector);
    assert(((b | 1u32) & 8u32 != 0) == (b & 8u32 != 0)
        && ((b | 1u32) & 0x200u32 != 0) == (b & 0x200u32 != 0)
        && ((b | 1u32) & 0x2000u32 != 0) == (b & 0x2000u32 != 0)) by (bit_vector);
    assert(((b | 8u32) & 1u32 != 0) == (b & 1u32 != 0)
        && ((b | 8u32) & 0x200u32 != 0) == (b & 0x200u32 != 0)
        && ((b | 8u32) & 0x2000u32 != 0) == (b & 0x2000u32 != 0)) by (bit_vector);
    assert(((b | 0x200u32) & 1u32 != 0) == (b & 1u32 != 0)
        && ((b | 0x200u32) & 8u32 != 0) == (b & 8u32 != 0)
        && ((b | 0x200u32) & 0x2000u32 != 0) == (b & 0x2000u32 != 0)) by (bit_vector);
    assert(((b | 0x2000u32) & 1u32 != 0) == (b & 1u32 != 0)
        && ((b | 0x2000u32) & 8u32 != 0) == (b & 8u32 != 0)
        && ((b | 0x2000u32) & 0x200u32 != 0) == (b & 0x200u32 != 0)) by (bit_vector);
    assert(0u32 & 1u32 == 0 && 0u32 & 8u32 == 0 && 0u32 & 0x200u32 == 0 && 0u32 & 0x2000u32 == 0) by (bit_vector);
    assert((1u32 | 0x200u32) & 1u32 != 0 && (1u32 | 0x200u32) & 8u32 == 0
        && (1u32 | 0x200u32) & 0x200u32 != 0 && (1u32 | 0x200u32) & 0x2000u32 == 0) by (bit_vector);
}

/// Reads a global-hotkey modifier bit set.
pub fn mods_from_bits(bits: u32) -> (m: Mods)
    ensures
        m == mods_of_bits(bits),
{
    Mods {
        ctrl: bits & CONTROL_BIT != 0,
        alt: bits & ALT_BIT != 0,
        shift: bits & SHIFT_BIT != 0,
        meta: bits & SUPER_BIT != 0,
    }
}

/// Whether `bits` is what global-hotkey's `CMD_OR_CTRL` can be: the Super
/// bit when the crate was built for macOS, the Control bit otherwise.
pub open spec fn is_cmd_or_ctrl(bits: u32) -> bool {
    bits == CONTROL_BIT || bits == SUPER_BIT
}

/// What global-hotkey's `HotKey::from_str` gives for `text`, on a target whose
/// `CmdOrCtrl` modifier has the bits `cmd_or_ctrl`: the modifier bits and the
/// key code's name, or the error's message.
pub uninterp spec fn hotkey_parse_result(text: Seq<char>, cmd_or_ctrl: u32) -> Result<(u32, Seq<char>), Seq<char>>;

/// A parser result with its strings taken as character sequences.
pub open spec fn parsed_view(p: Result<(u32, String), String>) -> Result<(u32, Seq<char>), Seq<char>> {
    match p {
        Ok((bits, key)) => Ok((bits, key@)),
        Err(e) => Err(e@),
    }
}

/// `HotKey::from_str` of the global-hotkey crate, with the bits of the crate's
/// `CMD_OR_CTRL` constant for the target it was built for. The result is the
/// named parse of `s` on that target; an empty string is refused (it names no
/// key).
#[verifier::external_body]
fn global_hotkey_from_str(s: &str) -> (r: (u32, Result<(u32, String), String>))
    ensures
        is_cmd_or_ctrl(r.0),
        parsed_view(r.1) == hotkey_parse_result(s@, r.0),
        s@.len() == 0 ==> r.1 is Err,
{
    let target = global_hotkey::hotkey::CMD_OR_CTRL.bits();
    match s.parse::<global_hotkey::hotkey::HotKey>() {
        Ok(h) => (target, Ok((h.mods.bits(), h.key.to_string()))),
        Err(e) => (target, Err(e.to_string())),
    }
}

/// A shortcut result as modifiers and key name, or the error's text.
pub open spec fn hotkey_result_view(r: Result<HotKey, String>) -> Result<(Mods, Seq<char>), Seq<char>> {
    match r {
        Ok(h) => Ok((h.mods, h.key@)),
        Err(e) => Err(e@),
    }
}

/// The shortcut a parser result stands for.
pub open spec fn hotkey_of_parse(p: Result<(u32, Seq<char>), Seq<char>>) -> Result<(Mods, Seq<char>), Seq<char>> {
    match p {
        Ok((bits, key)) => Ok((mods_of_bits(bits), key)),
        Err(e) => Err(e),
    }
}

/// A shortcut from what the global-hotkey parser returned.
pub fn hotkey_from_parsed(parsed: Result<(u32, String), String>) -> (r: Result<HotKey, String>)
    ensures
        hotkey_result_view(r) == hotkey_of_parse(parsed_view(parsed)),
{
    match parsed {
        Ok((bits, key)) => Ok(HotKey { mods: mods_from_bits(bits), key }),
        Err(e) => Err(e),
    }
}

/// What `parse` gives for a setting: the global-hotkey parse of the trimmed
/// text on a target whose `CmdOrCtrl` has the bits `cmd_or_ctrl`.
pub open spec fn parse_spec(raw: Seq<char>, cmd_or_ctrl: u32) -> Result<(Mods, Seq<char>), Seq<char>> {
    hotkey_of_parse(hotkey_parse_result(trim_spec(raw), cmd_or_ctrl))
}

/// Parses a configured shortcut such as `alt+KeyC`, after trimming
/// surrounding whitespace, as global-hotkey parses it. A blank setting is
/// refused.
pub fn parse(raw: &str) -> (r: Result<HotKey, String>)
    ensures
        exists|b: u32| is_cmd_or_ctrl(b) && hotkey_result_view(r) == #[trigger] parse_spec(raw@, b),
        trim_spec(raw@).len() == 0 ==> r is Err,
{
    let trimmed = trim_string(raw);
    let (target, parsed) = global_hotkey_from_str(trimmed.as_str());
    let r = hotkey_from_parsed(parsed);
    assert(hotkey_result_view(r) == parse_spec(raw@, target));
    r
}

/// Which names the modifier keys are shown with.
#[derive(Debug, Clone, Copy, PartialEq, Eq, Structural)]
pub enum Platform {
    /// Option and Cmd.
    MacOs,
    /// Alt and Win.
    Other,
}

/// Whether `s` starts with `prefix`.
pub open spec fn has_prefix(s: Seq<char>, prefix: Seq<char>) -> bool {
    prefix.len() <= s.len() && s.take(prefix.len() as int) == prefix
}

/// How a key code is shown: `KeyC` as `C` (a single-byte letter after
/// `Key`), `Digit1` as `1`, any other code by its name.
pub open spec fn code_label_spec(code: Seq<char>) -> Seq<char> {
    if has_prefix(code, "Key"@) && code.len() == 4 && (code[3] as u32) < 128 {
        code.skip(3)
    } else if has_prefix(code, "Digit"@) {
        code.skip(5)
    } else {
        code
    }
}

/// Strips `prefix` from the characters `cs`, when they start with it.
fn strip_prefix(cs: &Vec<char>, prefix: &str) -> (r: Option<String>)
    ensures
        match r {
            Some(rest) => has_prefix(cs@, prefix@) && rest@ == cs@.skip(prefix@.len() as int),
            None => !has_prefix(cs@, prefix@),
        },
{
    let ps = crate::text::chars_of(prefix);
    if ps.len() > cs.len() {
        return None;
    }
    let mut i: usize = 0;
    while i < ps.len()
        invariant
            ps@ == prefix@,
            ps@.len() <= cs@.len(),
            i <= ps@.len(),
            forall|j: int| 0 <= j < i ==> cs@[j] == ps@[j],
        decreases ps@.len() - i,
    {
        if cs[i] != ps[i] {
            assert(cs@.take(ps@.len() as int)[i as int] != ps@[i as int]);
            return None;
        }
        i = i + 1;
    }
    assert(cs@.take(ps@.len() as int) =~= ps@);
    let rest = crate::text::string_from_range(cs, ps.len(), cs.len());
    assert(rest@ =~= cs@.skip(prefix@.len() as int));
    Some(rest)
}

/// The label of a key code, as the settings window shows it.
pub fn code_label(code: &str) -> (l: String)
    ensures
        l@ == code_label_spec(code@),
{
    let cs = crate::text::chars_of(code);
    proof {
        reveal_strlit("Key");
        reveal_strlit("Digit");
    }
    match strip_prefix(&cs, "Key") {
        Some(letter) => {
            if cs.len() == 4 && (cs[3] as u32) < 128 {
                return letter;
            }
        },
        None => {},
    }
    match strip_prefix(&cs, "Digit") {
        Some(digit) => digit,
        None => code.to_owned(),
    }
}

/// How a shortcut is shown: `Ctrl+`, `Alt+` (`Option+` on macOS), `Shift+`
/// and `Win+` (`Cmd+` on macOS) for the modifiers held, in that order, then
/// the key's label.
pub open spec fn format_hotkey_spec(mods: Mods, key: Seq<char>, platform: Platform) -> Seq<char> {
    (if mods.ctrl { "Ctrl+"@ } else { Seq::empty() })
    + (if mods.alt { if platform == Platform::MacOs { "Option+"@ } else { "Alt+"@ } } else { Seq::empty() })
    + (if mods.shift { "Shift+"@ } else { Seq::empty() })
    + (if mods.meta { if platform == Platform::MacOs { "Cmd+"@ } else { "Win+"@ } } else { Seq::empty() })
    + code_label_spec(key)
}

/// The text shown for a shortcut.
pub fn format_hotkey(h: &HotKey, platform: Platform) -> (s: String)
    ensures
        s@ == format_hotkey_spec(h.mods, h.key@, platform),
{
    let mut out = String::new();
    if h.mods.ctrl {
        out.append("Ctrl+");
    }
    if h.mods.alt {
        match platform {
            Platform::MacOs => out.append("Option+"),
            Platform::Other => out.append("Alt+"),
        }
    }
    if h.mods.shift {
        out.append("Shift+");
    }
    if h.mods.meta {
        match platform {
            Platform::MacOs => out.append("Cmd+"),
            Platform::Other => out.append("Win+"),
        }
    }
    let label = code_label(h.key.as_str());
    out.append(label.as_str());
    assert(out@ =~= format_hotkey_spec(h.mods, h.key@, platform));
    out
}

/// The label for a configured shortcut given what parsing it gave: the
/// shortcut's text when it parsed, the raw setting otherwise.
pub open spec fn label_spec(raw: Seq<char>, parsed: Result<(Mods, Seq<char>), Seq<char>>, platform: Platform) -> Seq<char> {
    match parsed {
        Ok((mods, key)) => format_hotkey_spec(mods, key, platform),
        Err(_) => raw,
    }
}

/// The label for a configured shortcut, given the result of parsing it.
pub fn label_for_parsed(raw: &str, parsed: Result<HotKey, String>, platform: Platform) -> (s: String)
    ensures
        s@ == label_spec(raw@, hotkey_result_view(parsed), platform),
{
    match parsed {
        Ok(h) => format_hotkey(&h, platform),
        Err(_) => raw.to_owned(),
    }
}

/// The label shown for a configured shortcut: its readable form when it
/// parses, the setting as written otherwise.
pub fn display_label(raw: &str, platform: Platform) -> (s: String)
    ensures
        exists|b: u32| is_cmd_or_ctrl(b) && s@ == label_spec(raw@, #[trigger] parse_spec(raw@, b), platform),
        trim_spec(raw@).len() == 0 ==> s@ == raw@,
{
    let parsed = parse(raw);
    let ghost v = hotkey_result_view(parsed);
    let s = label_for_parsed(raw, parsed, platform);
    proof {
        let b = choose|b: u32| is_cmd_or_ctrl(b) && v == #[trigger] parse_spec(raw@, b);
        assert(s@ == label_spec(raw@, parse_spec(raw@, b), platform));
    }
    s
}

// ---------------------------------------------------------------------------
// Capturing a new shortcut
// ---------------------------------------------------------------------------

/// A key of the keyboard, as the palette's input reports it. `Other` stands
/// for every key that has no global-hotkey code.
#[derive(Debug, Clone, Copy, PartialEq, Eq, Structural)]
pub enum Key {
    A,
    B,
    C,
    D,
    E,
    F,
    G,
    H,
    I,
    J,
    K,
    L,
    M,
    N,
    O,
    P,
    Q,
    R,
    S,
    T,
    U,
    V,
    W,
    X,
    Y,
    Z,
    Num0,
    Num1,
    Num2,
    Num3,
    Num4,
    Num5,
    Num6,
    Num7,
    Num8,
    Num9,
    F1,
    F2,
    F3,
    F4,
    F5,
    F6,
    F7,
    F8,
    F9,
    F10,
    F11,
    F12,
    F13,
    F14,
    F15,
    F16,
    F17,
    F18,
    F19,
    F20,
    F21,
    F22,
    F23,
    F24,
    Space,
    Enter,
    Tab,
    Backspace,
    Delete,
    Insert,
    Home,
    End,
    PageUp,
    PageDown,
    ArrowUp,
    ArrowDown,
    ArrowLeft,
    ArrowRight,
    Minus,
    Equals,
    Comma,
    Period,
    Slash,
    Backslash,
    Semicolon,
    Quote,
    Backtick,
    OpenBracket,
    CloseBracket,
    Escape,
    Other,
}

/// The global-hotkey key code of a key, by its name.
pub open spec fn key_code_name(k: Key) -> Option<Seq<char>> {
    match k {
        Key::A => Some("KeyA"@),
        Key::B => Some("KeyB"@),
        Key::C => Some("KeyC"@),
        Key::D => Some("KeyD"@),
        Key::E => Some("KeyE"@),
        Key::F => Some("KeyF"@),
        Key::G => Some("KeyG"@),
        Key::H => Some("KeyH"@),
        Key::I => Some("KeyI"@),
        Key::J => Some("KeyJ"@),
        Key::K => Some("KeyK"@),
        Key::L => Some("KeyL"@),
        Key::M => Some("KeyM"@),
        Key::N => Some("KeyN"@),
        Key::O => Some("KeyO"@),
        Key::P => Some("KeyP"@),
        Key::Q => Some("KeyQ"@),
        Key::R => Some("KeyR"@),
        Key::S => Some("KeyS"@),
        Key::T => Some("KeyT"@),
        Key::U => Some("KeyU"@),
        Key::V => Some("KeyV"@),
        Key::W => Some("KeyW"@),
        Key::X => Some("KeyX"@),
        Key::Y => Some("KeyY"@),
        Key::Z => Some("KeyZ"@),
        Key::Num0 => Some("Digit0"@),
        Key::Num1 => Some("Digit1"@),
        Key::Num2 => Some("Digit2"@),
        Key::Num3 => Some("Digit3"@),
        Key::Num4 => Some("Digit4"@),
        Key::Num5 => Some("Digit5"@),
        Key::Num6 => Some("Digit6"@),
        Key::Num7 => Some("Digit7"@),
        Key::Num8 => Some("Digit8"@),
        Key::Num9 => Some("Digit9"@),
        Key::F1 => Some("F1"@),
        Key::F2 => Some("F2"@),
        Key::F3 => Some("F3"@),
        Key::F4 => Some("F4"@),
        Key::F5 => Some("F5"@),
        Key::F6 => Some("F6"@),
        Key::F7 => Some("F7"@),
        Key::F8 => Some("F8"@),
        Key::F9 => Some("F9"@),
        Key::F10 => Some("F10"@),
        Key::F11 => Some("F11"@),
        Key::F12 => Some("F12"@),
        Key::F13 => Some("F13"@),
        Key::F14 => Some("F14"@),
        Key::F15 => Some("F15"@),
        Key::F16 => Some("F16"@),
        Key::F17 => Some("F17"@),
        Key::F18 => Some("F18"@),
        Key::F19 => Some("F19"@),
        Key::F20 => Some("F20"@),
        Key::F21 => Some("F21"@),
        Key::F22 => Some("F22"@),
        Key::F23 => Some("F23"@),
        Key::F24 => Some("F24"@),
        Key::Space => Some("Space"@),
        Key::Enter => Some("Enter"@),
        Key::Tab => Some("Tab"@),
        Key::Backspace => Some("Backspace"@),
        Key::Delete => Some("Delete"@),
        Key::Insert => Some("Insert"@),
        Key::Home => Some("Home"@),
        Key::End => Some("End"@),
        Key::PageUp => Some("PageUp"@),
        Key::PageDown => Some("PageDown"@),
        Key::ArrowUp => Some("ArrowUp"@),
        Key::ArrowDown => Some("ArrowDown"@),
        Key::ArrowLeft => Some("ArrowLeft"@),
        Key::ArrowRight => Some("ArrowRight"@),
        Key::Minus => Some("Minus"@),
        Key::Equals => Some("Equal"@),
        Key::Comma => Some("Comma"@),
        Key::Period => Some("Period"@),
        Key::Slash => Some("Slash"@),
        Key::Backslash => Some("Backslash"@),
        Key::Semicolon => Some("Semicolon"@),
        Key::Quote => Some("Quote"@),
        Key::Backtick => Some("Backquote"@),
        Key::OpenBracket => Some("BracketLeft"@),
        Key::CloseBracket => Some("BracketRight"@),
        _ => None,
    }
}

/// A letter key's code is `Key` followed by that letter: the captured
/// shortcut names the key that was pressed.
pub proof fn lemma_letter_keys_name_their_letter()
    ensures
        key_code_name(Key::A) == Some(seq!['K', 'e', 'y', 'A']),
        key_code_name(Key::B) == Some(seq!['K', 'e', 'y', 'B']),
        key_code_name(Key::C) == Some(seq!['K', 'e', 'y', 'C']),
        key_code_name(Key::D) == Some(seq!['K', 'e', 'y', 'D']),
        key_code_name(Key::E) == Some(seq!['K', 'e', 'y', 'E']),
        key_code_name(Key::F) == Some(seq!['K', 'e', 'y', 'F']),
        key_code_name(Key::G) == Some(seq!['K', 'e', 'y', 'G']),
        key_code_name(Key::H) == Some(seq!['K', 'e', 'y', 'H']),
        key_code_name(Key::I) == Some(seq!['K', 'e', 'y', 'I']),
        key_code_name(Key::J) == Some(seq!['K', 'e', 'y', 'J']),
        key_code_name(Key::K) == Some(seq!['K', 'e', 'y', 'K']),
        key_code_name(Key::L) == Some(seq!['K', 'e', 'y', 'L']),
        key_code_name(Key::M) == Some(seq!['K', 'e', 'y', 'M']),
        key_code_name(Key::N) == Some(seq!['K', 'e', 'y', 'N']),
        key_code_name(Key::O) == Some(seq!['K', 'e', 'y', 'O']),
        key_code_name(Key::P) == Some(seq!['K', 'e', 'y', 'P']),
        key_code_name(Key::Q) == Some(seq!['K', 'e', 'y', 'Q']),
        key_code_name(Key::R) == Some(seq!['K', 'e', 'y', 'R']),
        key_code_name(Key::S) == Some(seq!['K', 'e', 'y', 'S']),
        key_code_name(Key::T) == Some(seq!['K', 'e', 'y', 'T']),
        key_code_name(Key::U) == Some(seq!['K', 'e', 'y', 'U']),
        key_code_name(Key::V) == Some(seq!['K', 'e', 'y', 'V']),
        key_code_name(Key::W) == Some(seq!['K', 'e', 'y', 'W']),
        key_code_name(Key::X) == Some(seq!['K', 'e', 'y', 'X']),
        key_code_name(Key::Y) == Some(seq!['K', 'e', 'y', 'Y']),
        key_code_name(Key::Z) == Some(seq!['K', 'e', 'y', 'Z']),
{
        reveal_strlit("KeyA");
        reveal_strlit("KeyB");
        reveal_strlit("KeyC");
        reveal_strlit("KeyD");
        reveal_strlit("KeyE");
        reveal_strlit("KeyF");
        reveal_strlit("KeyG");
        reveal_strlit("KeyH");
        reveal_strlit("KeyI");
        reveal_strlit("KeyJ");
        reveal_strlit("KeyK");
        reveal_strlit("KeyL");
        reveal_strlit("KeyM");
        reveal_strlit("KeyN");
        reveal_strlit("KeyO");
        reveal_strlit("KeyP");
        reveal_strlit("KeyQ");
        reveal_strlit("KeyR");
        reveal_strlit("KeyS");
        reveal_strlit("KeyT");
        reveal_strlit("KeyU");
        reveal_strlit("KeyV");
        reveal_strlit("KeyW");
        reveal_strlit("KeyX");
        reveal_strlit("KeyY");
        reveal_strlit("KeyZ");
}

/// A digit key's code is `Digit` followed by that digit.
pub proof fn lemma_digit_keys_name_their_digit()
    ensures
        key_code_name(Key::Num0) == Some(seq!['D', 'i', 'g', 'i', 't', '0']),
        key_code_name(Key::Num1) == Some(seq!['D', 'i', 'g', 'i', 't', '1']),
        key_code_name(Key::Num2) == Some(seq!['D', 'i', 'g', 'i', 't', '2']),
        key_code_name(Key::Num3) == Some(seq!['D', 'i', 'g', 'i', 't', '3']),
        key_code_name(Key::Num4) == Some(seq!['D', 'i', 'g', 'i', 't', '4']),
        key_code_name(Key::Num5) == Some(seq!['D', 'i', 'g', 'i', 't', '5']),
        key_code_name(Key::Num6) == Some(seq!['D', 'i', 'g', 'i', 't', '6']),
        key_code_name(Key::Num7) == Some(seq!['D', 'i', 'g', 'i', 't', '7']),
        key_code_name(Key::Num8) == Some(seq!['D', 'i', 'g', 'i', 't', '8']),
        key_code_name(Key::Num9) == Some(seq!['D', 'i', 'g', 'i', 't', '9']),
{
        reveal_strlit("Digit0");
        reveal_strlit("Digit1");
        reveal_strlit("Digit2");
        reveal_strlit("Digit3");
        reveal_strlit("Digit4");
        reveal_strlit("Digit5");
        reveal_strlit("Digit6");
        reveal_strlit("Digit7");
        reveal_strlit("Digit8");
        reveal_strlit("Digit9");
}

/// A function key's code is `F` followed by its number.
pub proof fn lemma_function_keys_name_their_number()
    ensures
        key_code_name(Key::F1) == Some(seq!['F', '1']),
        key_code_name(Key::F2) == Some(seq!['F', '2']),
        key_code_name(Key::F3) == Some(seq!['F', '3']),
        key_code_name(Key::F4) == Some(seq!['F', '4']),
        key_code_name(Key::F5) == Some(seq!['F', '5']),
        key_code_name(Key::F6) == Some(seq!['F', '6']),
        key_code_name(Key::F7) == Some(seq!['F', '7']),
        key_code_name(Key::F8) == Some(seq!['F', '8']),
        key_code_name(Key::F9) == Some(seq!['F', '9']),
        key_code_name(Key::F10) == Some(seq!['F', '1', '0']),
        key_code_name(Key::F11) == Some(seq!['F', '1', '1']),
        key_code_name(Key::F12) == Some(seq!['F', '1', '2']),
        key_code_name(Key::F13) == Some(seq!['F', '1', '3']),
        key_code_name(Key::F14) == Some(seq!['F', '1', '4']),
        key_code_name(Key::F15) == Some(seq!['F', '1', '5']),
        key_code_name(Key::F16) == Some(seq!['F', '1', '6']),
        key_code_name(Key::F17) == Some(seq!['F', '1', '7']),
        key_code_name(Key::F18) == Some(seq!['F', '1', '8']),
        key_code_name(Key::F19) == Some(seq!['F', '1', '9']),
        key_code_name(Key::F20) == Some(seq!['F', '2', '0']),
        key_code_name(Key::F21) == Some(seq!['F', '2', '1']),
        key_code_name(Key::F22) == Some(seq!['F', '2', '2']),
        key_code_name(Key::F23) == Some(seq!['F', '2', '3']),
        key_code_name(Key::F24) == Some(seq!['F', '2', '4']),
{
        reveal_strlit("F1");
        reveal_strlit("F2");
        reveal_strlit("F3");
        reveal_strlit("F4");
        reveal_strlit("F5");
        reveal_strlit("F6");
        reveal_strlit("F7");
        reveal_strlit("F8");
        reveal_strlit("F9");
        reveal_strlit("F10");
        reveal_strlit("F11");
        reveal_strlit("F12");
        reveal_strlit("F13");
        reveal_strlit("F14");
        reveal_strlit("F15");
        reveal_strlit("F16");
        reveal_strlit("F17");
        reveal_strlit("F18");
        reveal_strlit("F19");
        reveal_strlit("F20");
        reveal_strlit("F21");
        reveal_strlit("F22");
        reveal_strlit("F23");
        reveal_strlit("F24");
}

/// The global-hotkey key code for a key, if it has one.
pub fn key_to_code(k: Key) -> (c: Option<&'static str>)
    ensures
        match c {
            Some(s) => key_code_name(k) == Some(s@),
            None => key_code_name(k) is None,
        },
{
    match k {
        Key::A => Some("KeyA"),
        Key::B => Some("KeyB"),
        Key::C => Some("KeyC"),
        Key::D => Some("KeyD"),
        Key::E => Some("KeyE"),
        Key::F => Some("KeyF"),
        Key::G => Some("KeyG"),
        Key::H => Some("KeyH"),
        Key::I => Some("KeyI"),
        Key::J => Some("KeyJ"),
        Key::K => Some("KeyK"),
        Key::L => Some("KeyL"),
        Key::M => Some("KeyM"),
        Key::N => Some("KeyN"),
        Key::O => Some("KeyO"),
        Key::P => Some("KeyP"),
        Key::Q => Some("KeyQ"),
        Key::R => Some("KeyR"),
        Key::S => Some("KeyS"),
        Key::T => Some("KeyT"),
        Key::U => Some("KeyU"),
        Key::V => Some("KeyV"),
        Key::W => Some("KeyW"),
        Key::X => Some("KeyX"),
        Key::Y => Some("KeyY"),
        Key::Z => Some("KeyZ"),
        Key::Num0 => Some("Digit0"),
        Key::Num1 => Some("Digit1"),
        Key::Num2 => Some("Digit2"),
        Key::Num3 => Some("Digit3"),
        Key::Num4 => Some("Digit4"),
        Key::Num5 => Some("Digit5"),
        Key::Num6 => Some("Digit6"),
        Key::Num7 => Some("Digit7"),
        Key::Num8 => Some("Digit8"),
        Key::Num9 => Some("Digit9"),
        Key::F1 => Some("F1"),
        Key::F2 => Some("F2"),
        Key::F3 => Some("F3"),
        Key::F4 => Some("F4"),
        Key::F5 => Some("F5"),
        Key::F6 => Some("F6"),
        Key::F7 => Some("F7"),
        Key::F8 => Some("F8"),
        Key::F9 => Some("F9"),
        Key::F10 => Some("F10"),
        Key::F11 => Some("F11"),
        Key::F12 => Some("F12"),
        Key::F13 => Some("F13"),
        Key::F14 => Some("F14"),
        Key::F15 => Some("F15"),
        Key::F16 => Some("F16"),
        Key::F17 => Some("F17"),
        Key::F18 => Some("F18"),
        Key::F19 => Some("F19"),
        Key::F20 => Some("F20"),
        Key::F21 => Some("F21"),
        Key::F22 => Some("F22"),
        Key::F23 => Some("F23"),
        Key::F24 => Some("F24"),
        Key::Space => Some("Space"),
        Key::Enter => Some("Enter"),
        Key::Tab => Some("Tab"),
        Key::Backspace => Some("Backspace"),
        Key::Delete => Some("Delete"),
        Key::Insert => Some("Insert"),
        Key::Home => Some("Home"),
        Key::End => Some("End"),
        Key::PageUp => Some("PageUp"),
        Key::PageDown => Some("PageDown"),
        Key::ArrowUp => Some("ArrowUp"),
        Key::ArrowDown => Some("ArrowDown"),
        Key::ArrowLeft => Some("ArrowLeft"),
        Key::ArrowRight => Some("ArrowRight"),
        Key::Minus => Some("Minus"),
        Key::Equals => Some("Equal"),
        Key::Comma => Some("Comma"),
        Key::Period => Some("Period"),
        Key::Slash => Some("Slash"),
        Key::Backslash => Some("Backslash"),
        Key::Semicolon => Some("Semicolon"),
        Key::Quote => Some("Quote"),
        Key::Backtick => Some("Backquote"),
        Key::OpenBracket => Some("BracketLeft"),
        Key::CloseBracket => Some("BracketRight"),
        _ => None,
    }
}

/// The function keys F1 to F24.
pub open spec fn is_function_key_spec(k: Key) -> bool {
    k == Key::F1 || k == Key::F2 || k == Key::F3 || k == Key::F4 || k == Key::F5 || k == Key::F6 || k == Key::F7 || k == Key::F8 || k == Key::F9 || k == Key::F10 || k == Key::F11 || k == Key::F12 || k == Key::F13 || k == Key::F14 || k == Key::F15 || k == Key::F16 || k == Key::F17 || k == Key::F18 || k == Key::F19 || k == Key::F20 || k == Key::F21 || k == Key::F22 || k == Key::F23 || k == Key::F24
}

/// Whether a key is one of the function keys F1 to F24.
pub fn is_function_key(k: Key) -> (b: bool)
    ensures
        b == is_function_key_spec(k),
{
    match k {
        Key::F1 | Key::F2 | Key::F3 | Key::F4 | Key::F5 | Key::F6 | Key::F7 | Key::F8 | Key::F9 | Key::F10 | Key::F11 | Key::F12 | Key::F13 | Key::F14 | Key::F15 | Key::F16 | Key::F17 | Key::F18 | Key::F19 | Key::F20 | Key::F21 | Key::F22 | Key::F23 | Key::F24 => true,
        _ => false,
    }
}

/// Modifier keys held during a key press, as the palette's input reports them.
#[derive(Debug, Clone, Copy, PartialEq, Eq, Structural)]
pub struct KeyModifiers {
    pub alt: bool,
    pub ctrl: bool,
    pub shift: bool,
    pub mac_cmd: bool,
}

/// The shortcut modifiers for held keys: Alt, Shift, Ctrl, and Cmd as Super.
pub open spec fn mods_of_keys(m: KeyModifiers) -> Mods {
    Mods { ctrl: m.ctrl, alt: m.alt, shift: m.shift, meta: m.mac_cmd }
}

/// Converts held modifier keys to shortcut modifiers.
pub fn mods_from_keys(m: KeyModifiers) -> (r: Mods)
    ensures
        r == mods_of_keys(m),
{
    Mods { ctrl: m.ctrl, alt: m.alt, shift: m.shift, meta: m.mac_cmd }
}

/// One input event of the settings window.
#[derive(Debug, Clone, Copy, PartialEq, Eq, Structural)]
pub enum InputEvent {
    Key { key: Key, pressed: bool, repeat: bool, modifiers: KeyModifiers },
    /// Any event other than a key event.
    Other,
}

/// What capturing a shortcut found in the input.
#[derive(Debug)]
pub enum Capture {
    /// Nothing decided yet: keep waiting.
    Waiting,
    Cancel,
    Combo(HotKey),
}

/// An event that ends the capture: a first press (not a repeat) of Escape,
/// or of a key with a code while a modifier is held (a function key needs
/// none).
pub open spec fn ends_capture(e: InputEvent) -> bool {
    match e {
        InputEvent::Key { key, pressed, repeat, modifiers } => pressed && !repeat && (key
            == Key::Escape || (key_code_name(key) is Some && (!mods_of_keys(
            modifiers,
        ).is_empty_spec() || is_function_key_spec(key)))),
        InputEvent::Other => false,
    }
}

/// What the event that ends a capture captures.
pub open spec fn capture_matches(e: InputEvent, c: Capture) -> bool {
    match e {
        InputEvent::Key { key, modifiers, .. } => if key == Key::Escape {
            c is Cancel
        } else {
            c matches Capture::Combo(h) && h.mods == mods_of_keys(modifiers) && key_code_name(key)
                == Some(h.key@)
        },
        InputEvent::Other => false,
    }
}

/// Looks through the input for a new shortcut: the first event that ends the
/// capture decides (Escape cancels, a key with modifiers, or a function key,
/// gives that combination); `Waiting` when no event does.
pub fn capture_from_events(events: &Vec<InputEvent>) -> (c: Capture)
    ensures
        c is Waiting <==> forall|i: int| 0 <= i < events@.len() ==> !ends_capture(#[trigger] events@[i]),
        !(c is Waiting) ==> exists|i: int|
            0 <= i < events@.len() && ends_capture(events@[i]) && capture_matches(events@[i], c)
                && forall|j: int| 0 <= j < i ==> !ends_capture(#[trigger] events@[j]),
{
    let mut i: usize = 0;
    while i < events.len()
        invariant
            i <= events@.len(),
            forall|j: int| 0 <= j < i ==> !ends_capture(#[trigger] events@[j]),
        decreases events@.len() - i,
    {
        match events[i] {
            InputEvent::Key { key, pressed, repeat, modifiers } => {
                if pressed && !repeat {
                    if key == Key::Escape {
                        assert(ends_capture(events@[i as int]));
                        return Capture::Cancel;
                    }
                    match key_to_code(key) {
                        Some(code) => {
                            let mods = mods_from_keys(modifiers);
                            if !mods.is_empty() || is_function_key(key) {
                                let c = Capture::Combo(HotKey { mods, key: code.to_owned() });
                                assert(ends_capture(events@[i as int]));
                                assert(capture_matches(events@[i as int], c));
                                return c;
                            }
                        },
                        None => {},
                    }
                }
            },
            InputEvent::Other => {},
        }
        i = i + 1;
    }
    Capture::Waiting
}

/// Every function key has a key code.
pub proof fn lemma_function_keys_have_codes(k: Key)
    requires
        is_function_key_spec(k),
    ensures
        key_code_name(k) is Some,
{
}

} // verus!
