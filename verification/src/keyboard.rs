//! Back-end agnostic keyboard keys and their numeric codes.

use vstd::prelude::*;

verus! {

/// A logical keyboard key.
///
/// Every key stands for one numeric code of the SDL keycode space, given by
/// [`Key::code`]. `Unknown` has code zero and is what every code without a
/// key of its own decodes to.
#[allow(missing_docs)]
#[derive(Copy, Clone, Debug, PartialOrd, PartialEq, Ord, Eq, Hash, Structural)]
pub enum Key {
    Unknown,
    Backspace,
    Tab,
    Return,
    Escape,
    Space,
    Exclaim,
    Quotedbl,
    Hash,
    Dollar,
    Percent,
    Ampersand,
    Quote,
    LeftParen,
    RightParen,
    Asterisk,
    Plus,
    Comma,
    Minus,
    Period,
    Slash,
    D0,
    D1,
    D2,
    D3,
    D4,
    D5,
    D6,
    D7,
    D8,
    D9,
    Colon,
    Semicolon,
    Less,
    Equals,
    Greater,
    Question,
    At,
    LeftBracket,
    Backslash,
    RightBracket,
    Caret,
    Underscore,
    Backquote,
    A,
    B,
    C,
    D,
    E,
    F,
    G,
    H,
    I,
    J,
    K,
    L,
    M,
    N,
    O,
    P,
    Q,
    R,
    S,
    T,
    U,
    V,
    W,
    X,
    Y,
    Z,
    Delete,
    CapsLock,
    F1,
    F2,
    F3,
    F4,
    F5,
    F6,
    F7,
    F8,
    F9,
    F10,
    F11,
    F12,
    PrintScreen,
    ScrollLock,
    Pause,
    Insert,
    Home,
    PageUp,
    End,
    PageDown,
    Right,
    Left,
    Down,
    Up,
    NumLockClear,
    NumPadDivide,
    NumPadMultiply,
    NumPadMinus,
    NumPadPlus,
    NumPadEnter,
    NumPad1,
    NumPad2,
    NumPad3,
    NumPad4,
    NumPad5,
    NumPad6,
    NumPad7,
    NumPad8,
    NumPad9,
    NumPad0,
    NumPadPeriod,
    Application,
    Power,
    NumPadEquals,
    F13,
    F14,
    F15,
    F16,
    F17,
    F18,
    F19,
    F20,
    F21,
    F22,
    F23,
    F24,
    Execute,
    Help,
    Menu,
    Select,
    Stop,
    Again,
    Undo,
    Cut,
    Copy,
    Paste,
    Find,
    Mute,
    VolumeUp,
    VolumeDown,
    NumPadComma,
    NumPadEqualsAS400,
    AltErase,
    Sysreq,
    Cancel,
    Clear,
    Prior,
    Return2,
    Separator,
    Out,
    Oper,
    ClearAgain,
    CrSel,
    ExSel,
    NumPad00,
    NumPad000,
    ThousandsSeparator,
    DecimalSeparator,
    CurrencyUnit,
    CurrencySubUnit,
    NumPadLeftParen,
    NumPadRightParen,
    NumPadLeftBrace,
    NumPadRightBrace,
    NumPadTab,
    NumPadBackspace,
    NumPadA,
    NumPadB,
    NumPadC,
    NumPadD,
    NumPadE,
    NumPadF,
    NumPadXor,
    NumPadPower,
    NumPadPercent,
    NumPadLess,
    NumPadGreater,
    NumPadAmpersand,
    NumPadDblAmpersand,
    NumPadVerticalBar,
    NumPadDblVerticalBar,
    NumPadColon,
    NumPadHash,
    NumPadSpace,
    NumPadAt,
    NumPadExclam,
    NumPadMemStore,
    NumPadMemRecall,
    NumPadMemClear,
    NumPadMemAdd,
    NumPadMemSubtract,
    NumPadMemMultiply,
    NumPadMemDivide,
    NumPadPlusMinus,
    NumPadClear,
    NumPadClearEntry,
    NumPadBinary,
    NumPadOctal,
    NumPadDecimal,
    NumPadHexadecimal,
    LCtrl,
    LShift,
    LAlt,
    LGui,
    RCtrl,
    RShift,
    RAlt,
    RGui,
    Mode,
    AudioNext,
    AudioPrev,
    AudioStop,
    AudioPlay,
    AudioMute,
    MediaSelect,
    Www,
    Mail,
    Calculator,
    Computer,
    AcSearch,
    AcHome,
    AcBack,
    AcForward,
    AcStop,
    AcRefresh,
    AcBookmarks,
    BrightnessDown,
    BrightnessUp,
    DisplaySwitch,
    KbdIllumToggle,
    KbdIllumDown,
    KbdIllumUp,
    Eject,
    Sleep,
}

impl Key {
    /// The numeric code of each key: the table that defines the keycode space.
    pub open spec fn spec_code(&self) -> i32 {
        match self {
            Key::Unknown => 0x00,
            Key::Backspace => 0x08,
            Key::Tab => 0x09,
            Key::Return => 0x0D,
            Key::Escape => 0x1B,
            Key::Space => 0x20,
            Key::Exclaim => 0x21,
            Key::Quotedbl => 0x22,
            Key::Hash => 0x23,
            Key::Dollar => 0x24,
            Key::Percent => 0x25,
            Key::Ampersand => 0x26,
            Key::Quote => 0x27,
            Key::LeftParen => 0x28,
            Key::RightParen => 0x29,
            Key::Asterisk => 0x2A,
            Key::Plus => 0x2B,
            Key::Comma => 0x2C,
            Key::Minus => 0x2D,
            Key::Period => 0x2E,
            Key::Slash => 0x2F,
            Key::D0 => 0x30,
            Key::D1 => 0x31,
            Key::D2 => 0x32,
            Key::D3 => 0x33,
            Key::D4 => 0x34,
            Key::D5 => 0x35,
            Key::D6 => 0x36,
            Key::D7 => 0x37,
            Key::D8 => 0x38,
            Key::D9 => 0x39,
            Key::Colon => 0x3A,
            Key::Semicolon => 0x3B,
            Key::Less => 0x3C,
            Key::Equals => 0x3D,
            Key::Greater => 0x3E,
            Key::Question => 0x3F,
            Key::At => 0x40,
            Key::LeftBracket => 0x5B,
            Key::Backslash => 0x5C,
            Key::RightBracket => 0x5D,
            Key::Caret => 0x5E,
            Key::Underscore => 0x5F,
            Key::Backquote => 0x60,
            Key::A => 0x61,
            Key::B => 0x62,
            Key::C => 0x63,
            Key::D => 0x64,
            Key::E => 0x65,
            Key::F => 0x66,
            Key::G => 0x67,
            Key::H => 0x68,
            Key::I => 0x69,
            Key::J => 0x6A,
            Key::K => 0x6B,
            Key::L => 0x6C,
            Key::M => 0x6D,
            Key::N => 0x6E,
            Key::O => 0x6F,
            Key::P => 0x70,
            Key::Q => 0x71,
            Key::R => 0x72,
            Key::S => 0x73,
            Key::T => 0x74,
            Key::U => 0x75,
            Key::V => 0x76,
            Key::W => 0x77,
            Key::X => 0x78,
            Key::Y => 0x79,
            Key::Z => 0x7A,
            Key::Delete => 0x7F,
            Key::CapsLock => 0x4000_0039,
            Key::F1 => 0x4000_003A,
            Key::F2 => 0x4000_003B,
            Key::F3 => 0x4000_003C,
            Key::F4 => 0x4000_003D,
            Key::F5 => 0x4000_003E,
            Key::F6 => 0x4000_003F,
            Key::F7 => 0x4000_0040,
            Key::F8 => 0x4000_0041,
            Key::F9 => 0x4000_0042,
            Key::F10 => 0x4000_0043,
            Key::F11 => 0x4000_0044,
            Key::F12 => 0x4000_0045,
            Key::PrintScreen => 0x4000_0046,
            Key::ScrollLock => 0x4000_0047,
            Key::Pause => 0x4000_0048,
            Key::Insert => 0x4000_0049,
            Key::Home => 0x4000_004A,
            Key::PageUp => 0x4000_004B,
            Key::End => 0x4000_004D,
            Key::PageDown => 0x4000_004E,
            Key::Right => 0x4000_004F,
            Key::Left => 0x4000_0050,
            Key::Down => 0x4000_0051,
            Key::Up => 0x4000_0052,
            Key::NumLockClear => 0x4000_0053,
            Key::NumPadDivide => 0x4000_0054,
            Key::NumPadMultiply => 0x4000_0055,
            Key::NumPadMinus => 0x4000_0056,
            Key::NumPadPlus => 0x4000_0057,
            Key::NumPadEnter => 0x4000_0058,
            Key::NumPad1 => 0x4000_0059,
            Key::NumPad2 => 0x4000_005A,
            Key::NumPad3 => 0x4000_005B,
            Key::NumPad4 => 0x4000_005C,
            Key::NumPad5 => 0x4000_005D,
            Key::NumPad6 => 0x4000_005E,
            Key::NumPad7 => 0x4000_005F,
            Key::NumPad8 => 0x4000_0060,
            Key::NumPad9 => 0x4000_0061,
            Key::NumPad0 => 0x4000_0062,
            Key::NumPadPeriod => 0x4000_0063,
            Key::Application => 0x4000_0065,
            Key::Power => 0x4000_0066,
            Key::NumPadEquals => 0x4000_0067,
            Key::F13 => 0x4000_0068,
            Key::F14 => 0x4000_0069,
            Key::F15 => 0x4000_006A,
            Key::F16 => 0x4000_006B,
            Key::F17 => 0x4000_006C,
            Key::F18 => 0x4000_006D,
            Key::F19 => 0x4000_006E,
            Key::F20 => 0x4000_006F,
            Key::F21 => 0x4000_0070,
            Key::F22 => 0x4000_0071,
            Key::F23 => 0x4000_0072,
            Key::F24 => 0x4000_0073,
            Key::Execute => 0x4000_0074,
            Key::Help => 0x4000_0075,
            Key::Menu => 0x4000_0076,
            Key::Select => 0x4000_0077,
            Key::Stop => 0x4000_0078,
            Key::Again => 0x4000_0079,
            Key::Undo => 0x4000_007A,
            Key::Cut => 0x4000_007B,
            Key::Copy => 0x4000_007C,
            Key::Paste => 0x4000_007D,
            Key::Find => 0x4000_007E,
            Key::Mute => 0x4000_007F,
            Key::VolumeUp => 0x4000_0080,
            Key::VolumeDown => 0x4000_0081,
            Key::NumPadComma => 0x4000_0085,
            Key::NumPadEqualsAS400 => 0x4000_0086,
            Key::AltErase => 0x4000_0099,
            Key::Sysreq => 0x4000_009A,
            Key::Cancel => 0x4000_009B,
            Key::Clear => 0x4000_009C,
            Key::Prior => 0x4000_009D,
            Key::Return2 => 0x4000_009E,
            Key::Separator => 0x4000_009F,
            Key::Out => 0x4000_00A0,
            Key::Oper => 0x4000_00A1,
            Key::ClearAgain => 0x4000_00A2,
            Key::CrSel => 0x4000_00A3,
            Key::ExSel => 0x4000_00A4,
            Key::NumPad00 => 0x4000_00B0,
            Key::NumPad000 => 0x4000_00B1,
            Key::ThousandsSeparator => 0x4000_00B2,
            Key::DecimalSeparator => 0x4000_00B3,
            Key::CurrencyUnit => 0x4000_00B4,
            Key::CurrencySubUnit => 0x4000_00B5,
            Key::NumPadLeftParen => 0x4000_00B6,
            Key::NumPadRightParen => 0x4000_00B7,
            Key::NumPadLeftBrace => 0x4000_00B8,
            Key::NumPadRightBrace => 0x4000_00B9,
            Key::NumPadTab => 0x4000_00BA,
            Key::NumPadBackspace => 0x4000_00BB,
            Key::NumPadA => 0x4000_00BC,
            Key::NumPadB => 0x4000_00BD,
            Key::NumPadC => 0x4000_00BE,
            Key::NumPadD => 0x4000_00BF,
            Key::NumPadE => 0x4000_00C0,
            Key::NumPadF => 0x4000_00C1,
            Key::NumPadXor => 0x4000_00C2,
            Key::NumPadPower => 0x4000_00C3,
            Key::NumPadPercent => 0x4000_00C4,
            Key::NumPadLess => 0x4000_00C5,
            Key::NumPadGreater => 0x4000_00C6,
            Key::NumPadAmpersand => 0x4000_00C7,
            Key::NumPadDblAmpersand => 0x4000_00C8,
            Key::NumPadVerticalBar => 0x4000_00C9,
            Key::NumPadDblVerticalBar => 0x4000_00CA,
            Key::NumPadColon => 0x4000_00CB,
            Key::NumPadHash => 0x4000_00CC,
            Key::NumPadSpace => 0x4000_00CD,
            Key::NumPadAt => 0x4000_00CE,
            Key::NumPadExclam => 0x4000_00CF,
            Key::NumPadMemStore => 0x4000_00D0,
            Key::NumPadMemRecall => 0x4000_00D1,
            Key::NumPadMemClear => 0x4000_00D2,
            Key::NumPadMemAdd => 0x4000_00D3,
            Key::NumPadMemSubtract => 0x4000_00D4,
            Key::NumPadMemMultiply => 0x4000_00D5,
            Key::NumPadMemDivide => 0x4000_00D6,
            Key::NumPadPlusMinus => 0x4000_00D7,
            Key::NumPadClear => 0x4000_00D8,
            Key::NumPadClearEntry => 0x4000_00D9,
            Key::NumPadBinary => 0x4000_00DA,
            Key::NumPadOctal => 0x4000_00DB,
            Key::NumPadDecimal => 0x4000_00DC,
            Key::NumPadHexadecimal => 0x4000_00DD,
            Key::LCtrl => 0x4000_00E0,
            Key::LShift => 0x4000_00E1,
            Key::LAlt => 0x4000_00E2,
            Key::LGui => 0x4000_00E3,
            Key::RCtrl => 0x4000_00E4,
            Key::RShift => 0x4000_00E5,
            Key::RAlt => 0x4000_00E6,
            Key::RGui => 0x4000_00E7,
            Key::Mode => 0x4000_0101,
            Key::AudioNext => 0x4000_0102,
            Key::AudioPrev => 0x4000_0103,
            Key::AudioStop => 0x4000_0104,
            Key::AudioPlay => 0x4000_0105,
            Key::AudioMute => 0x4000_0106,
            Key::MediaSelect => 0x4000_0107,
            Key::Www => 0x4000_0108,
            Key::Mail => 0x4000_0109,
            Key::Calculator => 0x4000_010A,
            Key::Computer => 0x4000_010B,
            Key::AcSearch => 0x4000_010C,
            Key::AcHome => 0x4000_010D,
            Key::AcBack => 0x4000_010E,
            Key::AcForward => 0x4000_010F,
            Key::AcStop => 0x4000_0110,
            Key::AcRefresh => 0x4000_0111,
            Key::AcBookmarks => 0x4000_0112,
            Key::BrightnessDown => 0x4000_0113,
            Key::BrightnessUp => 0x4000_0114,
            Key::DisplaySwitch => 0x4000_0115,
            Key::KbdIllumToggle => 0x4000_0116,
            Key::KbdIllumDown => 0x4000_0117,
            Key::KbdIllumUp => 0x4000_0118,
            Key::Eject => 0x4000_0119,
            Key::Sleep => 0x4000_011A,
        }
    }

    /// Whether some key has the code `val`.
    pub open spec fn has_key(val: u32) -> bool {
        exists|k: Key| #[trigger] k.spec_code() == val
    }

    /// The key that a numeric code stands for: the key with that code, or
    /// `Unknown` where no key has it.
    pub open spec fn decode(val: u32) -> Key {
        if Key::has_key(val) {
            choose|k: Key| #[trigger] k.spec_code() == val
        } else {
            Key::Unknown
        }
    }

    /// Returns an id of the key.
    #[inline(always)]
    #[verifier::when_used_as_spec(spec_code)]
    pub fn code(&self) -> (c: i32)
        ensures
            c == self.spec_code(),
            0 <= c,
            Key::decode(c as u32) == *self,
    {
        proof {
            Key::decode_inverts_code(*self);
        }
        match *self {
            Key::Unknown => 0x00,
            Key::Backspace => 0x08,
            Key::Tab => 0x09,
            Key::Return => 0x0D,
            Key::Escape => 0x1B,
            Key::Space => 0x20,
            Key::Exclaim => 0x21,
            Key::Quotedbl => 0x22,
            Key::Hash => 0x23,
            Key::Dollar => 0x24,
            Key::Percent => 0x25,
            Key::Ampersand => 0x26,
            Key::Quote => 0x27,
            Key::LeftParen => 0x28,
            Key::RightParen => 0x29,
            Key::Asterisk => 0x2A,
            Key::Plus => 0x2B,
            Key::Comma => 0x2C,
            Key::Minus => 0x2D,
            Key::Period => 0x2E,
            Key::Slash => 0x2F,
            Key::D0 => 0x30,
            Key::D1 => 0x31,
            Key::D2 => 0x32,
            Key::D3 => 0x33,
            Key::D4 => 0x34,
            Key::D5 => 0x35,
            Key::D6 => 0x36,
            Key::D7 => 0x37,
            Key::D8 => 0x38,
            Key::D9 => 0x39,
            Key::Colon => 0x3A,
            Key::Semicolon => 0x3B,
            Key::Less => 0x3C,
            Key::Equals => 0x3D,
            Key::Greater => 0x3E,
            Key::Question => 0x3F,
            Key::At => 0x40,
            Key::LeftBracket => 0x5B,
            Key::Backslash => 0x5C,
            Key::RightBracket => 0x5D,
            Key::Caret => 0x5E,
            Key::Underscore => 0x5F,
            Key::Backquote => 0x60,
            Key::A => 0x61,
            Key::B => 0x62,
            Key::C => 0x63,
            Key::D => 0x64,
            Key::E => 0x65,
            Key::F => 0x66,
            Key::G => 0x67,
            Key::H => 0x68,
            Key::I => 0x69,
            Key::J => 0x6A,
            Key::K => 0x6B,
            Key::L => 0x6C,
            Key::M => 0x6D,
            Key::N => 0x6E,
            Key::O => 0x6F,
            Key::P => 0x70,
            Key::Q => 0x71,
            Key::R => 0x72,
            Key::S => 0x73,
            Key::T => 0x74,
            Key::U => 0x75,
            Key::V => 0x76,
            Key::W => 0x77,
            Key::X => 0x78,
            Key::Y => 0x79,
            Key::Z => 0x7A,
            Key::Delete => 0x7F,
            Key::CapsLock => 0x4000_0039,
            Key::F1 => 0x4000_003A,
            Key::F2 => 0x4000_003B,
            Key::F3 => 0x4000_003C,
            Key::F4 => 0x4000_003D,
            Key::F5 => 0x4000_003E,
            Key::F6 => 0x4000_003F,
            Key::F7 => 0x4000_0040,
            Key::F8 => 0x4000_0041,
            Key::F9 => 0x4000_0042,
            Key::F10 => 0x4000_0043,
            Key::F11 => 0x4000_0044,
            Key::F12 => 0x4000_0045,
            Key::PrintScreen => 0x4000_0046,
            Key::ScrollLock => 0x4000_0047,
            Key::Pause => 0x4000_0048,
            Key::Insert => 0x4000_0049,
            Key::Home => 0x4000_004A,
            Key::PageUp => 0x4000_004B,
            Key::End => 0x4000_004D,
            Key::PageDown => 0x4000_004E,
            Key::Right => 0x4000_004F,
            Key::Left => 0x4000_0050,
            Key::Down => 0x4000_0051,
            Key::Up => 0x4000_0052,
            Key::NumLockClear => 0x4000_0053,
            Key::NumPadDivide => 0x4000_0054,
            Key::NumPadMultiply => 0x4000_0055,
            Key::NumPadMinus => 0x4000_0056,
            Key::NumPadPlus => 0x4000_0057,
            Key::NumPadEnter => 0x4000_0058,
            Key::NumPad1 => 0x4000_0059,
            Key::NumPad2 => 0x4000_005A,
            Key::NumPad3 => 0x4000_005B,
            Key::NumPad4 => 0x4000_005C,
            Key::NumPad5 => 0x4000_005D,
            Key::NumPad6 => 0x4000_005E,
            Key::NumPad7 => 0x4000_005F,
            Key::NumPad8 => 0x4000_0060,
            Key::NumPad9 => 0x4000_0061,
            Key::NumPad0 => 0x4000_0062,
            Key::NumPadPeriod => 0x4000_0063,
            Key::Application => 0x4000_0065,
            Key::Power => 0x4000_0066,
            Key::NumPadEquals => 0x4000_0067,
            Key::F13 => 0x4000_0068,
            Key::F14 => 0x4000_0069,
            Key::F15 => 0x4000_006A,
            Key::F16 => 0x4000_006B,
            Key::F17 => 0x4000_006C,
            Key::F18 => 0x4000_006D,
            Key::F19 => 0x4000_006E,
            Key::F20 => 0x4000_006F,
            Key::F21 => 0x4000_0070,
            Key::F22 => 0x4000_0071,
            Key::F23 => 0x4000_0072,
            Key::F24 => 0x4000_0073,
            Key::Execute => 0x4000_0074,
            Key::Help => 0x4000_0075,
            Key::Menu => 0x4000_0076,
            Key::Select => 0x4000_0077,
            Key::Stop => 0x4000_0078,
            Key::Again => 0x4000_0079,
            Key::Undo => 0x4000_007A,
            Key::Cut => 0x4000_007B,
            Key::Copy => 0x4000_007C,
            Key::Paste => 0x4000_007D,
            Key::Find => 0x4000_007E,
            Key::Mute => 0x4000_007F,
            Key::VolumeUp => 0x4000_0080,
            Key::VolumeDown => 0x4000_0081,
            Key::NumPadComma => 0x4000_0085,
            Key::NumPadEqualsAS400 => 0x4000_0086,
            Key::AltErase => 0x4000_0099,
            Key::Sysreq => 0x4000_009A,
            Key::Cancel => 0x4000_009B,
            Key::Clear => 0x4000_009C,
            Key::Prior => 0x4000_009D,
            Key::Return2 => 0x4000_009E,
            Key::Separator => 0x4000_009F,
            Key::Out => 0x4000_00A0,
            Key::Oper => 0x4000_00A1,
            Key::ClearAgain => 0x4000_00A2,
            Key::CrSel => 0x4000_00A3,
            Key::ExSel => 0x4000_00A4,
            Key::NumPad00 => 0x4000_00B0,
            Key::NumPad000 => 0x4000_00B1,
            Key::ThousandsSeparator => 0x4000_00B2,
            Key::DecimalSeparator => 0x4000_00B3,
            Key::CurrencyUnit => 0x4000_00B4,
            Key::CurrencySubUnit => 0x4000_00B5,
            Key::NumPadLeftParen => 0x4000_00B6,
            Key::NumPadRightParen => 0x4000_00B7,
            Key::NumPadLeftBrace => 0x4000_00B8,
            Key::NumPadRightBrace => 0x4000_00B9,
            Key::NumPadTab => 0x4000_00BA,
            Key::NumPadBackspace => 0x4000_00BB,
            Key::NumPadA => 0x4000_00BC,
            Key::NumPadB => 0x4000_00BD,
            Key::NumPadC => 0x4000_00BE,
            Key::NumPadD => 0x4000_00BF,
            Key::NumPadE => 0x4000_00C0,
            Key::NumPadF => 0x4000_00C1,
            Key::NumPadXor => 0x4000_00C2,
            Key::NumPadPower => 0x4000_00C3,
            Key::NumPadPercent => 0x4000_00C4,
            Key::NumPadLess => 0x4000_00C5,
            Key::NumPadGreater => 0x4000_00C6,
            Key::NumPadAmpersand => 0x4000_00C7,
            Key::NumPadDblAmpersand => 0x4000_00C8,
            Key::NumPadVerticalBar => 0x4000_00C9,
            Key::NumPadDblVerticalBar => 0x4000_00CA,
            Key::NumPadColon => 0x4000_00CB,
            Key::NumPadHash => 0x4000_00CC,
            Key::NumPadSpace => 0x4000_00CD,
            Key::NumPadAt => 0x4000_00CE,
            Key::NumPadExclam => 0x4000_00CF,
            Key::NumPadMemStore => 0x4000_00D0,
            Key::NumPadMemRecall => 0x4000_00D1,
            Key::NumPadMemClear => 0x4000_00D2,
            Key::NumPadMemAdd => 0x4000_00D3,
            Key::NumPadMemSubtract => 0x4000_00D4,
            Key::NumPadMemMultiply => 0x4000_00D5,
            Key::NumPadMemDivide => 0x4000_00D6,
            Key::NumPadPlusMinus => 0x4000_00D7,
            Key::NumPadClear => 0x4000_00D8,
            Key::NumPadClearEntry => 0x4000_00D9,
            Key::NumPadBinary => 0x4000_00DA,
            Key::NumPadOctal => 0x4000_00DB,
            Key::NumPadDecimal => 0x4000_00DC,
            Key::NumPadHexadecimal => 0x4000_00DD,
            Key::LCtrl => 0x4000_00E0,
            Key::LShift => 0x4000_00E1,
            Key::LAlt => 0x4000_00E2,
            Key::LGui => 0x4000_00E3,
            Key::RCtrl => 0x4000_00E4,
            Key::RShift => 0x4000_00E5,
            Key::RAlt => 0x4000_00E6,
            Key::RGui => 0x4000_00E7,
            Key::Mode => 0x4000_0101,
            Key::AudioNext => 0x4000_0102,
            Key::AudioPrev => 0x4000_0103,
            Key::AudioStop => 0x4000_0104,
            Key::AudioPlay => 0x4000_0105,
            Key::AudioMute => 0x4000_0106,
            Key::MediaSelect => 0x4000_0107,
            Key::Www => 0x4000_0108,
            Key::Mail => 0x4000_0109,
            Key::Calculator => 0x4000_010A,
            Key::Computer => 0x4000_010B,
            Key::AcSearch => 0x4000_010C,
            Key::AcHome => 0x4000_010D,
            Key::AcBack => 0x4000_010E,
            Key::AcForward => 0x4000_010F,
            Key::AcStop => 0x4000_0110,
            Key::AcRefresh => 0x4000_0111,
            Key::AcBookmarks => 0x4000_0112,
            Key::BrightnessDown => 0x4000_0113,
            Key::BrightnessUp => 0x4000_0114,
            Key::DisplaySwitch => 0x4000_0115,
            Key::KbdIllumToggle => 0x4000_0116,
            Key::KbdIllumDown => 0x4000_0117,
            Key::KbdIllumUp => 0x4000_0118,
            Key::Eject => 0x4000_0119,
            Key::Sleep => 0x4000_011A,
        }
    }

    /// No code is negative, so every code is a `u32` as well.
    pub proof fn codes_are_non_negative(k: Key)
        ensures
            0 <= k.spec_code(),
            k.spec_code() as u32 == k.spec_code(),
    {
    }

    /// No two keys share a code.
    pub proof fn codes_are_distinct(a: Key, b: Key)
        requires
            a.spec_code() == b.spec_code(),
        ensures
            a == b,
    {
    }

    /// Decoding the code of a key gives that key back.
    pub proof fn decode_inverts_code(k: Key)
        ensures
            Key::decode(k.spec_code() as u32) == k,
    {
        let val = k.spec_code() as u32;
        assert(k.spec_code() == val);
        assert(Key::has_key(val));
        let j = choose|j: Key| #[trigger] j.spec_code() == val;
        Key::codes_are_distinct(j, k);
    }

    /// A code that no key has decodes to `Unknown`.
    pub proof fn decode_of_unlisted_code(val: u32)
        requires
            forall|k: Key| #[trigger] k.spec_code() != val,
        ensures
            Key::decode(val) == Key::Unknown,
    {
    }

    /// Whatever a code decodes to, other than `Unknown`, has exactly that code.
    pub proof fn decode_is_exact(val: u32)
        ensures
            Key::decode(val) != Key::Unknown ==> Key::decode(val).spec_code() == val,
            Key::has_key(val) ==> Key::decode(val).spec_code() == val,
    {
    }
}

impl From<u32> for Key {
    /// Decodes a numeric code: gives the key that has the code `val`, or
    /// `Unknown` where no key has it.
    #[verifier::rlimit(100)]
    fn from(val: u32) -> (k: Key)
        ensures
            k == Key::decode(val),
            k != Key::Unknown ==> k.spec_code() == val,
    {
        let k = match val {
            0x00 => Key::Unknown,
            0x08 => Key::Backspace,
            0x09 => Key::Tab,
            0x0D => Key::Return,
            0x1B => Key::Escape,
            0x20 => Key::Space,
            0x21 => Key::Exclaim,
            0x22 => Key::Quotedbl,
            0x23 => Key::Hash,
            0x24 => Key::Dollar,
            0x25 => Key::Percent,
            0x26 => Key::Ampersand,
            0x27 => Key::Quote,
            0x28 => Key::LeftParen,
            0x29 => Key::RightParen,
            0x2A => Key::Asterisk,
            0x2B => Key::Plus,
            0x2C => Key::Comma,
            0x2D => Key::Minus,
            0x2E => Key::Period,
            0x2F => Key::Slash,
            0x30 => Key::D0,
            0x31 => Key::D1,
            0x32 => Key::D2,
            0x33 => Key::D3,
            0x34 => Key::D4,
            0x35 => Key::D5,
            0x36 => Key::D6,
            0x37 => Key::D7,
            0x38 => Key::D8,
            0x39 => Key::D9,
            0x3A => Key::Colon,
            0x3B => Key::Semicolon,
            0x3C => Key::Less,
            0x3D => Key::Equals,
            0x3E => Key::Greater,
            0x3F => Key::Question,
            0x40 => Key::At,
            0x5B => Key::LeftBracket,
            0x5C => Key::Backslash,
            0x5D => Key::RightBracket,
            0x5E => Key::Caret,
            0x5F => Key::Underscore,
            0x60 => Key::Backquote,
            0x61 => Key::A,
            0x62 => Key::B,
            0x63 => Key::C,
            0x64 => Key::D,
            0x65 => Key::E,
            0x66 => Key::F,
            0x67 => Key::G,
            0x68 => Key::H,
            0x69 => Key::I,
            0x6A => Key::J,
            0x6B => Key::K,
            0x6C => Key::L,
            0x6D => Key::M,
            0x6E => Key::N,
            0x6F => Key::O,
            0x70 => Key::P,
            0x71 => Key::Q,
            0x72 => Key::R,
            0x73 => Key::S,
            0x74 => Key::T,
            0x75 => Key::U,
            0x76 => Key::V,
            0x77 => Key::W,
            0x78 => Key::X,
            0x79 => Key::Y,
            0x7A => Key::Z,
            0x7F => Key::Delete,
            0x4000_0039 => Key::CapsLock,
            0x4000_003A => Key::F1,
            0x4000_003B => Key::F2,
            0x4000_003C => Key::F3,
            0x4000_003D => Key::F4,
            0x4000_003E => Key::F5,
            0x4000_003F => Key::F6,
            0x4000_0040 => Key::F7,
            0x4000_0041 => Key::F8,
            0x4000_0042 => Key::F9,
            0x4000_0043 => Key::F10,
            0x4000_0044 => Key::F11,
            0x4000_0045 => Key::F12,
            0x4000_0046 => Key::PrintScreen,
            0x4000_0047 => Key::ScrollLock,
            0x4000_0048 => Key::Pause,
            0x4000_0049 => Key::Insert,
            0x4000_004A => Key::Home,
            0x4000_004B => Key::PageUp,
            0x4000_004D => Key::End,
            0x4000_004E => Key::PageDown,
            0x4000_004F => Key::Right,
            0x4000_0050 => Key::Left,
            0x4000_0051 => Key::Down,
            0x4000_0052 => Key::Up,
            0x4000_0053 => Key::NumLockClear,
            0x4000_0054 => Key::NumPadDivide,
            0x4000_0055 => Key::NumPadMultiply,
            0x4000_0056 => Key::NumPadMinus,
            0x4000_0057 => Key::NumPadPlus,
            0x4000_0058 => Key::NumPadEnter,
            0x4000_0059 => Key::NumPad1,
            0x4000_005A => Key::NumPad2,
            0x4000_005B => Key::NumPad3,
            0x4000_005C => Key::NumPad4,
            0x4000_005D => Key::NumPad5,
            0x4000_005E => Key::NumPad6,
            0x4000_005F => Key::NumPad7,
            0x4000_0060 => Key::NumPad8,
            0x4000_0061 => Key::NumPad9,
            0x4000_0062 => Key::NumPad0,
            0x4000_0063 => Key::NumPadPeriod,
            0x4000_0065 => Key::Application,
            0x4000_0066 => Key::Power,
            0x4000_0067 => Key::NumPadEquals,
            0x4000_0068 => Key::F13,
            0x4000_0069 => Key::F14,
            0x4000_006A => Key::F15,
            0x4000_006B => Key::F16,
            0x4000_006C => Key::F17,
            0x4000_006D => Key::F18,
            0x4000_006E => Key::F19,
            0x4000_006F => Key::F20,
            0x4000_0070 => Key::F21,
            0x4000_0071 => Key::F22,
            0x4000_0072 => Key::F23,
            0x4000_0073 => Key::F24,
            0x4000_0074 => Key::Execute,
            0x4000_0075 => Key::Help,
            0x4000_0076 => Key::Menu,
            0x4000_0077 => Key::Select,
            0x4000_0078 => Key::Stop,
            0x4000_0079 => Key::Again,
            0x4000_007A => Key::Undo,
            0x4000_007B => Key::Cut,
            0x4000_007C => Key::Copy,
            0x4000_007D => Key::Paste,
            0x4000_007E => Key::Find,
            0x4000_007F => Key::Mute,
            0x4000_0080 => Key::VolumeUp,
            0x4000_0081 => Key::VolumeDown,
            0x4000_0085 => Key::NumPadComma,
            0x4000_0086 => Key::NumPadEqualsAS400,
            0x4000_0099 => Key::AltErase,
            0x4000_009A => Key::Sysreq,
            0x4000_009B => Key::Cancel,
            0x4000_009C => Key::Clear,
            0x4000_009D => Key::Prior,
            0x4000_009E => Key::Return2,
            0x4000_009F => Key::Separator,
            0x4000_00A0 => Key::Out,
            0x4000_00A1 => Key::Oper,
            0x4000_00A2 => Key::ClearAgain,
            0x4000_00A3 => Key::CrSel,
            0x4000_00A4 => Key::ExSel,
            0x4000_00B0 => Key::NumPad00,
            0x4000_00B1 => Key::NumPad000,
            0x4000_00B2 => Key::ThousandsSeparator,
            0x4000_00B3 => Key::DecimalSeparator,
            0x4000_00B4 => Key::CurrencyUnit,
            0x4000_00B5 => Key::CurrencySubUnit,
            0x4000_00B6 => Key::NumPadLeftParen,
            0x4000_00B7 => Key::NumPadRightParen,
            0x4000_00B8 => Key::NumPadLeftBrace,
            0x4000_00B9 => Key::NumPadRightBrace,
            0x4000_00BA => Key::NumPadTab,
            0x4000_00BB => Key::NumPadBackspace,
            0x4000_00BC => Key::NumPadA,
            0x4000_00BD => Key::NumPadB,
            0x4000_00BE => Key::NumPadC,
            0x4000_00BF => Key::NumPadD,
            0x4000_00C0 => Key::NumPadE,
            0x4000_00C1 => Key::NumPadF,
            0x4000_00C2 => Key::NumPadXor,
            0x4000_00C3 => Key::NumPadPower,
            0x4000_00C4 => Key::NumPadPercent,
            0x4000_00C5 => Key::NumPadLess,
            0x4000_00C6 => Key::NumPadGreater,
            0x4000_00C7 => Key::NumPadAmpersand,
            0x4000_00C8 => Key::NumPadDblAmpersand,
            0x4000_00C9 => Key::NumPadVerticalBar,
            0x4000_00CA => Key::NumPadDblVerticalBar,
            0x4000_00CB => Key::NumPadColon,
            0x4000_00CC => Key::NumPadHash,
            0x4000_00CD => Key::NumPadSpace,
            0x4000_00CE => Key::NumPadAt,
            0x4000_00CF => Key::NumPadExclam,
            0x4000_00D0 => Key::NumPadMemStore,
            0x4000_00D1 => Key::NumPadMemRecall,
            0x4000_00D2 => Key::NumPadMemClear,
            0x4000_00D3 => Key::NumPadMemAdd,
            0x4000_00D4 => Key::NumPadMemSubtract,
            0x4000_00D5 => Key::NumPadMemMultiply,
            0x4000_00D6 => Key::NumPadMemDivide,
            0x4000_00D7 => Key::NumPadPlusMinus,
            0x4000_00D8 => Key::NumPadClear,
            0x4000_00D9 => Key::NumPadClearEntry,
            0x4000_00DA => Key::NumPadBinary,
            0x4000_00DB => Key::NumPadOctal,
            0x4000_00DC => Key::NumPadDecimal,
            0x4000_00DD => Key::NumPadHexadecimal,
            0x4000_00E0 => Key::LCtrl,
            0x4000_00E1 => Key::LShift,
            0x4000_00E2 => Key::LAlt,
            0x4000_00E3 => Key::LGui,
            0x4000_00E4 => Key::RCtrl,
            0x4000_00E5 => Key::RShift,
            0x4000_00E6 => Key::RAlt,
            0x4000_00E7 => Key::RGui,
            0x4000_0101 => Key::Mode,
            0x4000_0102 => Key::AudioNext,
            0x4000_0103 => Key::AudioPrev,
            0x4000_0104 => Key::AudioStop,
            0x4000_0105 => Key::AudioPlay,
            0x4000_0106 => Key::AudioMute,
            0x4000_0107 => Key::MediaSelect,
            0x4000_0108 => Key::Www,
            0x4000_0109 => Key::Mail,
            0x4000_010A => Key::Calculator,
            0x4000_010B => Key::Computer,
            0x4000_010C => Key::AcSearch,
            0x4000_010D => Key::AcHome,
            0x4000_010E => Key::AcBack,
            0x4000_010F => Key::AcForward,
            0x4000_0110 => Key::AcStop,
            0x4000_0111 => Key::AcRefresh,
            0x4000_0112 => Key::AcBookmarks,
            0x4000_0113 => Key::BrightnessDown,
            0x4000_0114 => Key::BrightnessUp,
            0x4000_0115 => Key::DisplaySwitch,
            0x4000_0116 => Key::KbdIllumToggle,
            0x4000_0117 => Key::KbdIllumDown,
            0x4000_0118 => Key::KbdIllumUp,
            0x4000_0119 => Key::Eject,
            0x4000_011A => Key::Sleep,
            _ => Key::Unknown,
        };
        proof {
            if k.spec_code() == val {
                Key::decode_inverts_code(k);
            } else {
                Key::decode_of_unlisted_code(val);
            }
        }
        k
    }
}

impl vstd::std_specs::convert::FromSpecImpl<u32> for Key {
    open spec fn obeys_from_spec() -> bool {
        true
    }

    open spec fn from_spec(val: u32) -> Key {
        Key::decode(val)
    }
}

impl From<Key> for u32 {
    /// Encodes a key: gives its numeric code.
    #[inline(always)]
    fn from(key: Key) -> (val: u32)
        ensures
            val == key.spec_code(),
            Key::decode(val) == key,
    {
        let c = key.code();
        c as u32
    }
}

impl vstd::std_specs::convert::FromSpecImpl<Key> for u32 {
    open spec fn obeys_from_spec() -> bool {
        true
    }

    open spec fn from_spec(key: Key) -> u32 {
        key.spec_code() as u32
    }
}

} // verus!
