use input_event::Key;

fn all_keys() -> Vec<Key> {
    vec![
        Key::Unknown,
        Key::Backspace,
        Key::Tab,
        Key::Return,
        Key::Escape,
        Key::Space,
        Key::Exclaim,
        Key::Quotedbl,
        Key::Hash,
        Key::Dollar,
        Key::Percent,
        Key::Ampersand,
        Key::Quote,
        Key::LeftParen,
        Key::RightParen,
        Key::Asterisk,
        Key::Plus,
        Key::Comma,
        Key::Minus,
        Key::Period,
        Key::Slash,
        Key::D0,
        Key::D1,
        Key::D2,
        Key::D3,
        Key::D4,
        Key::D5,
        Key::D6,
        Key::D7,
        Key::D8,
        Key::D9,
        Key::Colon,
        Key::Semicolon,
        Key::Less,
        Key::Equals,
        Key::Greater,
        Key::Question,
        Key::At,
        Key::LeftBracket,
        Key::Backslash,
        Key::RightBracket,
        Key::Caret,
        Key::Underscore,
        Key::Backquote,
        Key::A,
        Key::B,
        Key::C,
        Key::D,
        Key::E,
        Key::F,
        Key::G,
        Key::H,
        Key::I,
        Key::J,
        Key::K,
        Key::L,
        Key::M,
        Key::N,
        Key::O,
        Key::P,
        Key::Q,
        Key::R,
        Key::S,
        Key::T,
        Key::U,
        Key::V,
        Key::W,
        Key::X,
        Key::Y,
        Key::Z,
        Key::Delete,
        Key::CapsLock,
        Key::F1,
        Key::F2,
        Key::F3,
        Key::F4,
        Key::F5,
        Key::F6,
        Key::F7,
        Key::F8,
        Key::F9,
        Key::F10,
        Key::F11,
        Key::F12,
        Key::PrintScreen,
        Key::ScrollLock,
        Key::Pause,
        Key::Insert,
        Key::Home,
        Key::PageUp,
        Key::End,
        Key::PageDown,
        Key::Right,
        Key::Left,
        Key::Down,
        Key::Up,
        Key::NumLockClear,
        Key::NumPadDivide,
        Key::NumPadMultiply,
        Key::NumPadMinus,
        Key::NumPadPlus,
        Key::NumPadEnter,
        Key::NumPad1,
        Key::NumPad2,
        Key::NumPad3,
        Key::NumPad4,
        Key::NumPad5,
        Key::NumPad6,
        Key::NumPad7,
        Key::NumPad8,
        Key::NumPad9,
        Key::NumPad0,
        Key::NumPadPeriod,
        Key::Application,
        Key::Power,
        Key::NumPadEquals,
        Key::F13,
        Key::F14,
        Key::F15,
        Key::F16,
        Key::F17,
        Key::F18,
        Key::F19,
        Key::F20,
        Key::F21,
        Key::F22,
        Key::F23,
        Key::F24,
        Key::Execute,
        Key::Help,
        Key::Menu,
        Key::Select,
        Key::Stop,
        Key::Again,
        Key::Undo,
        Key::Cut,
        Key::Copy,
        Key::Paste,
        Key::Find,
        Key::Mute,
        Key::VolumeUp,
        Key::VolumeDown,
        Key::NumPadComma,
        Key::NumPadEqualsAS400,
        Key::AltErase,
        Key::Sysreq,
        Key::Cancel,
        Key::Clear,
        Key::Prior,
        Key::Return2,
        Key::Separator,
        Key::Out,
        Key::Oper,
        Key::ClearAgain,
        Key::CrSel,
        Key::ExSel,
        Key::NumPad00,
        Key::NumPad000,
        Key::ThousandsSeparator,
        Key::DecimalSeparator,
        Key::CurrencyUnit,
        Key::CurrencySubUnit,
        Key::NumPadLeftParen,
        Key::NumPadRightParen,
        Key::NumPadLeftBrace,
        Key::NumPadRightBrace,
        Key::NumPadTab,
        Key::NumPadBackspace,
        Key::NumPadA,
        Key::NumPadB,
        Key::NumPadC,
        Key::NumPadD,
        Key::NumPadE,
        Key::NumPadF,
        Key::NumPadXor,
        Key::NumPadPower,
        Key::NumPadPercent,
        Key::NumPadLess,
        Key::NumPadGreater,
        Key::NumPadAmpersand,
        Key::NumPadDblAmpersand,
        Key::NumPadVerticalBar,
        Key::NumPadDblVerticalBar,
        Key::NumPadColon,
        Key::NumPadHash,
        Key::NumPadSpace,
        Key::NumPadAt,
        Key::NumPadExclam,
        Key::NumPadMemStore,
        Key::NumPadMemRecall,
        Key::NumPadMemClear,
        Key::NumPadMemAdd,
        Key::NumPadMemSubtract,
        Key::NumPadMemMultiply,
        Key::NumPadMemDivide,
        Key::NumPadPlusMinus,
        Key::NumPadClear,
        Key::NumPadClearEntry,
        Key::NumPadBinary,
        Key::NumPadOctal,
        Key::NumPadDecimal,
        Key::NumPadHexadecimal,
        Key::LCtrl,
        Key::LShift,
        Key::LAlt,
        Key::LGui,
        Key::RCtrl,
        Key::RShift,
        Key::RAlt,
        Key::RGui,
        Key::Mode,
        Key::AudioNext,
        Key::AudioPrev,
        Key::AudioStop,
        Key::AudioPlay,
        Key::AudioMute,
        Key::MediaSelect,
        Key::Www,
        Key::Mail,
        Key::Calculator,
        Key::Computer,
        Key::AcSearch,
        Key::AcHome,
        Key::AcBack,
        Key::AcForward,
        Key::AcStop,
        Key::AcRefresh,
        Key::AcBookmarks,
        Key::BrightnessDown,
        Key::BrightnessUp,
        Key::DisplaySwitch,
        Key::KbdIllumToggle,
        Key::KbdIllumDown,
        Key::KbdIllumUp,
        Key::Eject,
        Key::Sleep,
    ]
}

#[test]
fn keycode() {
    let keys = all_keys();
    for &key in &keys {
        let val: u32 = key.into();
        let key2: Key = val.into();
        assert_eq!(key, key2);
    }
}

#[test]
fn every_key_is_listed_once() {
    let keys = all_keys();
    assert_eq!(keys.len(), 236);
    for (i, a) in keys.iter().enumerate() {
        for b in &keys[i + 1..] {
            assert_ne!(a, b);
            assert_ne!(a.code(), b.code());
        }
    }
}

#[test]
fn code_and_u32_agree() {
    for &key in &all_keys() {
        assert!(key.code() >= 0);
        assert_eq!(key.code() as u32, u32::from(key));
        assert_eq!(Key::from(key.code() as u32), key);
    }
}

#[test]
fn codes_follow_the_keycode_table() {
    assert_eq!(Key::Unknown.code(), 0);
    assert_eq!(Key::Backspace.code(), 0x08);
    assert_eq!(Key::Return.code(), 0x0D);
    assert_eq!(Key::Space.code(), 0x20);
    assert_eq!(Key::D0.code(), 0x30);
    assert_eq!(Key::A.code(), 0x61);
    assert_eq!(Key::S.code(), 0x73);
    assert_eq!(Key::Z.code(), 0x7A);
    assert_eq!(Key::Delete.code(), 0x7F);
    assert_eq!(Key::CapsLock.code(), 0x4000_0039);
    assert_eq!(Key::F1.code(), 0x4000_003A);
    assert_eq!(Key::PageUp.code(), 0x4000_004B);
    assert_eq!(Key::End.code(), 0x4000_004D);
    assert_eq!(Key::LCtrl.code(), 0x4000_00E0);
    assert_eq!(Key::RGui.code(), 0x4000_00E7);
    assert_eq!(Key::Mode.code(), 0x4000_0101);
    assert_eq!(Key::Sleep.code(), 0x4000_011A);
    assert_eq!(u32::from(Key::Sleep), 0x4000_011A);
}

#[test]
fn decode_follows_the_keycode_table() {
    assert_eq!(Key::from(0x61), Key::A);
    assert_eq!(Key::from(0x0D), Key::Return);
    assert_eq!(Key::from(0x4000_00E5), Key::RShift);
    assert_eq!(Key::from(0x4000_011A), Key::Sleep);
    assert_eq!(Key::from(0), Key::Unknown);
}

#[test]
fn unlisted_codes_decode_to_unknown() {
    let unlisted: [u32; 14] = [
        0x01,
        0x07,
        0x41,
        0x5A,
        0x7B,
        0x80,
        0x4000_0000,
        0x4000_0038,
        0x4000_004C,
        0x4000_0064,
        0x4000_00E8,
        0x4000_011B,
        0x8000_0061,
        u32::MAX,
    ];
    for &code in &unlisted {
        assert_eq!(Key::from(code), Key::Unknown);
    }
}

#[test]
fn decode_agrees_with_the_table_on_every_small_code() {
    let keys = all_keys();
    for code in 0u32..0x200 {
        let listed = keys.iter().any(|k| k.code() as u32 == code);
        let key = Key::from(code);
        if listed {
            assert_eq!(key.code() as u32, code);
        } else {
            assert_eq!(key, Key::Unknown);
        }
        let high = 0x4000_0000 + code;
        let listed_high = keys.iter().any(|k| k.code() as u32 == high);
        let key_high = Key::from(high);
        if listed_high {
            assert_eq!(key_high.code() as u32, high);
        } else {
            assert_eq!(key_high, Key::Unknown);
        }
    }
}
