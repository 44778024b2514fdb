use vstd::prelude::*;

verus! {

/// A single button on the keyboard.
/// Not useful for text input, use the text input event for that.
/// See https://wiki.libsdl.org/SDL_Keycode
/// See https://usb.org/sites/default/files/hut1_21.pdf
#[derive(Copy, Clone, Eq, PartialEq, Structural, Hash, PartialOrd, Ord, Debug)]
pub enum Scancode {
    // Keyboard Letter keys
    A,
    B,
    C,
    D,
    E,
    F,
    G,
    H,
    I,
    J,
    K,
    L,
    M,
    N,
    O,
    P,
    Q,
    R,
    S,
    T,
    U,
    V,
    W,
    X,
    Y,
    Z,

    // Numeric keys above the main keys
    Zero,
    One,
    Two,
    Three,
    Four,
    Five,
    Six,
    Seven,
    Eight,
    Nine,

    // Keypad numeric keys
    KpZero,
    KpOne,
    KpTwo,
    KpThree,
    KpFour,
    KpFive,
    KpSix,
    KpSeven,
    KpEight,
    KpNine,
    KpZeroZero,
    KpZeroZeroZero,

    // Keypad hexadecimal number keys
    KpA,
    KpB,
    KpC,
    KpD,
    KpE,
    KpF,

    // Keypad symbols
    KpAnd,
    KpAndAnd,
    KpAt,
    KpCaret,
    KpColon,
    KpComma,
    KpDash,
    KpEquals,
    KpEqualsAs400,
    KpExclamation,
    KpHash,
    KpLeftBrace,
    KpLeftParen,
    KpLess,
    KpPercent,
    KpPeriod,
    KpPipe,
    KpPipePipe,
    KpPlusMinus,
    KpRightBrace,
    KpRightParen,
    KpSlash,
    KpSpace,
    KpStar,
    KpTab,
    KpXor,
    KpPlus,
    KpGreater,

    // Keypad control characters
    KpBackspace,
    KpClear,
    KpClearEntry,
    KpEnter,
    KpMemAdd,
    KpMemClear,
    KpMemDivide,
    KpMemMultiply,
    KpMemRecall,
    KpMemSubtract,
    KpMemStore,
    KpBinary,
    KpOctal,
    KpDecimal,
    KpHex,
    KpPower,

    // Symbol Keys
    Apostrophe,
    Backslash,
    Comma,
    Equals,
    Grave,
    LeftSquareBracket,
    LeftBracket,
    Dash,
    Period,
    RightSquareBracket,
    RightBracket,
    SemiColon,
    Slash,
    Space,
    Tab,
    AltHash,
    AltBackslash,

    // Arrow keys
    Down,
    Left,
    Right,
    Up,

    // Control keys
    Backspace,
    CapsLock,
    Copy,
    Cut,
    Delete,
    End,
    Escape,
    Home,
    Insert,
    LeftAlt,
    LeftControl,
    LeftShift,
    LeftMeta,
    Menu,
    NumLock,
    PageDown,
    PageUp,
    Paste,
    PrintScreen,
    RightAlt,
    RightControl,
    Return,
    Return2,
    RightMeta,
    RightShift,
    ScrollLock,
    Undo,

    // Function keys
    F1,
    F2,
    F3,
    F4,
    F5,
    F6,
    F7,
    F8,
    F9,
    F10,
    F11,
    F12,
    F13,
    F14,
    F15,
    F16,
    F17,
    F18,
    F19,
    F20,
    F21,
    F22,
    F23,
    F24,

    // International keys
    InternationalOne,
    InternationalTwo,
    InternationalThree,
    InternationalFour,
    InternationalFive,
    InternationalSix,
    InternationalSeven,
    InternationalEight,
    InternationalNine,

    // Language keys
    LangOne,
    LangTwo,
    LangThree,
    LangFour,
    LangFive,
    LangSix,
    LangSeven,
    LangEight,
    LangNine,

    // Audio keys
    AudioMute,
    AudioNext,
    AudioPlay,
    AudioPrev,
    AudioStop,
    Mute,
    VolumeDown,
    VolumeUp,

    // Application keys
    Application,
    App1,
    App2,
    AppBack,
    AppBookmark,
    AppForward,
    AppHome,
    AppRefresh,
    AppSearch,
    AppStop,

    // Brightness keys
    BrightnessDown,
    BrightnessUp,

    // Keyboard illumination keys
    KeyboardIllumDown,
    KeyboardIllumUp,
    KeyboardIllumToggle,

    // Miscellaneous keys
    Again,
    AltErase,
    Calculator,
    Cancel,
    Clear,
    ClearAgain,
    Computer,
    CrSel,
    CurrencySubUnit,
    CurrencyUnit,
    DecimalSeparator,
    DisplaySwitch,
    Eject,
    ExSel,
    Find,
    Help,
    Mail,
    MediaSelect,
    Mode,
    ModeSwitch,
    Oper,
    Out,
    Power,
    Prior,
    Select,
    Separator,
    Sleep,
    Stop,
    SysReq,
    ThousandsSeparator,
    WorldWideWeb,
    Unknown,
    Pause,
    Execute,
}

impl Scancode {
    /// The key's position in the list of keys above, from 0: a number that
    /// names the key.
    pub open spec fn spec_key_index(self) -> u32 {
        match self {
            Scancode::A => 0,
            Scancode::B => 1,
            Scancode::C => 2,
            Scancode::D => 3,
            Scancode::E => 4,
            Scancode::F => 5,
            Scancode::G => 6,
            Scancode::H => 7,
            Scancode::I => 8,
            Scancode::J => 9,
            Scancode::K => 10,
            Scancode::L => 11,
            Scancode::M => 12,
            Scancode::N => 13,
            Scancode::O => 14,
            Scancode::P => 15,
            Scancode::Q => 16,
            Scancode::R => 17,
            Scancode::S => 18,
            Scancode::T => 19,
            Scancode::U => 20,
            Scancode::V => 21,
            Scancode::W => 22,
            Scancode::X => 23,
            Scancode::Y => 24,
            Scancode::Z => 25,
            Scancode::Zero => 26,
            Scancode::One => 27,
            Scancode::Two => 28,
            Scancode::Three => 29,
            Scancode::Four => 30,
            Scancode::Five => 31,
            Scancode::Six => 32,
            Scancode::Seven => 33,
            Scancode::Eight => 34,
            Scancode::Nine => 35,
            Scancode::KpZero => 36,
            Scancode::KpOne => 37,
            Scancode::KpTwo => 38,
            Scancode::KpThree => 39,
            Scancode::KpFour => 40,
            Scancode::KpFive => 41,
            Scancode::KpSix => 42,
            Scancode::KpSeven => 43,
            Scancode::KpEight => 44,
            Scancode::KpNine => 45,
            Scancode::KpZeroZero => 46,
            Scancode::KpZeroZeroZero => 47,
            Scancode::KpA => 48,
            Scancode::KpB => 49,
            Scancode::KpC => 50,
            Scancode::KpD => 51,
            Scancode::KpE => 52,
            Scancode::KpF => 53,
            Scancode::KpAnd => 54,
            Scancode::KpAndAnd => 55,
            Scancode::KpAt => 56,
            Scancode::KpCaret => 57,
            Scancode::KpColon => 58,
            Scancode::KpComma => 59,
            Scancode::KpDash => 60,
            Scancode::KpEquals => 61,
            Scancode::KpEqualsAs400 => 62,
            Scancode::KpExclamation => 63,
            Scancode::KpHash => 64,
            Scancode::KpLeftBrace => 65,
            Scancode::KpLeftParen => 66,
            Scancode::KpLess => 67,
            Scancode::KpPercent => 68,
            Scancode::KpPeriod => 69,
            Scancode::KpPipe => 70,
            Scancode::KpPipePipe => 71,
            Scancode::KpPlusMinus => 72,
            Scancode::KpRightBrace => 73,
            Scancode::KpRightParen => 74,
            Scancode::KpSlash => 75,
            Scancode::KpSpace => 76,
            Scancode::KpStar => 77,
            Scancode::KpTab => 78,
            Scancode::KpXor => 79,
            Scancode::KpPlus => 80,
            Scancode::KpGreater => 81,
            Scancode::KpBackspace => 82,
            Scancode::KpClear => 83,
            Scancode::KpClearEntry => 84,
            Scancode::KpEnter => 85,
            Scancode::KpMemAdd => 86,
            Scancode::KpMemClear => 87,
            Scancode::KpMemDivide => 88,
            Scancode::KpMemMultiply => 89,
            Scancode::KpMemRecall => 90,
            Scancode::KpMemSubtract => 91,
            Scancode::KpMemStore => 92,
            Scancode::KpBinary => 93,
            Scancode::KpOctal => 94,
            Scancode::KpDecimal => 95,
            Scancode::KpHex => 96,
            Scancode::KpPower => 97,
            Scancode::Apostrophe => 98,
            Scancode::Backslash => 99,
            Scancode::Comma => 100,
            Scancode::Equals => 101,
            Scancode::Grave => 102,
            Scancode::LeftSquareBracket => 103,
            Scancode::LeftBracket => 104,
            Scancode::Dash => 105,
            Scancode::Period => 106,
            Scancode::RightSquareBracket => 107,
            Scancode::RightBracket => 108,
            Scancode::SemiColon => 109,
            Scancode::Slash => 110,
            Scancode::Space => 111,
            Scancode::Tab => 112,
            Scancode::AltHash => 113,
            Scancode::AltBackslash => 114,
            Scancode::Down => 115,
            Scancode::Left => 116,
            Scancode::Right => 117,
            Scancode::Up => 118,
            Scancode::Backspace => 119,
            Scancode::CapsLock => 120,
            Scancode::Copy => 121,
            Scancode::Cut => 122,
            Scancode::Delete => 123,
            Scancode::End => 124,
            Scancode::Escape => 125,
            Scancode::Home => 126,
            Scancode::Insert => 127,
            Scancode::LeftAlt => 128,
            Scancode::LeftControl => 129,
            Scancode::LeftShift => 130,
            Scancode::LeftMeta => 131,
            Scancode::Menu => 132,
            Scancode::NumLock => 133,
            Scancode::PageDown => 134,
            Scancode::PageUp => 135,
            Scancode::Paste => 136,
            Scancode::PrintScreen => 137,
            Scancode::RightAlt => 138,
            Scancode::RightControl => 139,
            Scancode::Return => 140,
            Scancode::Return2 => 141,
            Scancode::RightMeta => 142,
            Scancode::RightShift => 143,
            Scancode::ScrollLock => 144,
            Scancode::Undo => 145,
            Scancode::F1 => 146,
            Scancode::F2 => 147,
            Scancode::F3 => 148,
            Scancode::F4 => 149,
            Scancode::F5 => 150,
            Scancode::F6 => 151,
            Scancode::F7 => 152,
            Scancode::F8 => 153,
            Scancode::F9 => 154,
            Scancode::F10 => 155,
            Scancode::F11 => 156,
            Scancode::F12 => 157,
            Scancode::F13 => 158,
            Scancode::F14 => 159,
            Scancode::F15 => 160,
            Scancode::F16 => 161,
            Scancode::F17 => 162,
            Scancode::F18 => 163,
            Scancode::F19 => 164,
            Scancode::F20 => 165,
            Scancode::F21 => 166,
            Scancode::F22 => 167,
            Scancode::F23 => 168,
            Scancode::F24 => 169,
            Scancode::InternationalOne => 170,
            Scancode::InternationalTwo => 171,
            Scancode::InternationalThree => 172,
            Scancode::InternationalFour => 173,
            Scancode::InternationalFive => 174,
            Scancode::InternationalSix => 175,
            Scancode::InternationalSeven => 176,
            Scancode::InternationalEight => 177,
            Scancode::InternationalNine => 178,
            Scancode::LangOne => 179,
            Scancode::LangTwo => 180,
            Scancode::LangThree => 181,
            Scancode::LangFour => 182,
            Scancode::LangFive => 183,
            Scancode::LangSix => 184,
            Scancode::LangSeven => 185,
            Scancode::LangEight => 186,
            Scancode::LangNine => 187,
            Scancode::AudioMute => 188,
            Scancode::AudioNext => 189,
            Scancode::AudioPlay => 190,
            Scancode::AudioPrev => 191,
            Scancode::AudioStop => 192,
            Scancode::Mute => 193,
            Scancode::VolumeDown => 194,
            Scancode::VolumeUp => 195,
            Scancode::Application => 196,
            Scancode::App1 => 197,
            Scancode::App2 => 198,
            Scancode::AppBack => 199,
            Scancode::AppBookmark => 200,
            Scancode::AppForward => 201,
            Scancode::AppHome => 202,
            Scancode::AppRefresh => 203,
            Scancode::AppSearch => 204,
            Scancode::AppStop => 205,
            Scancode::BrightnessDown => 206,
            Scancode::BrightnessUp => 207,
            Scancode::KeyboardIllumDown => 208,
            Scancode::KeyboardIllumUp => 209,
            Scancode::KeyboardIllumToggle => 210,
            Scancode::Again => 211,
            Scancode::AltErase => 212,
            Scancode::Calculator => 213,
            Scancode::Cancel => 214,
            Scancode::Clear => 215,
            Scancode::ClearAgain => 216,
            Scancode::Computer => 217,
            Scancode::CrSel => 218,
            Scancode::CurrencySubUnit => 219,
            Scancode::CurrencyUnit => 220,
            Scancode::DecimalSeparator => 221,
            Scancode::DisplaySwitch => 222,
            Scancode::Eject => 223,
            Scancode::ExSel => 224,
            Scancode::Find => 225,
            Scancode::Help => 226,
            Scancode::Mail => 227,
            Scancode::MediaSelect => 228,
            Scancode::Mode => 229,
            Scancode::ModeSwitch => 230,
            Scancode::Oper => 231,
            Scancode::Out => 232,
            Scancode::Power => 233,
            Scancode::Prior => 234,
            Scancode::Select => 235,
            Scancode::Separator => 236,
            Scancode::Sleep => 237,
            Scancode::Stop => 238,
            Scancode::SysReq => 239,
            Scancode::ThousandsSeparator => 240,
            Scancode::WorldWideWeb => 241,
            Scancode::Unknown => 242,
            Scancode::Pause => 243,
            Scancode::Execute => 244,
        }
    }

    /// The key's number; see `spec_key_index`.
    pub fn key_index(&self) -> (r: u32)
        ensures
            r == self.spec_key_index(),
    {
        match self {
            Scancode::A => 0,
            Scancode::B => 1,
            Scancode::C => 2,
            Scancode::D => 3,
            Scancode::E => 4,
            Scancode::F => 5,
            Scancode::G => 6,
            Scancode::H => 7,
            Scancode::I => 8,
            Scancode::J => 9,
            Scancode::K => 10,
            Scancode::L => 11,
            Scancode::M => 12,
            Scancode::N => 13,
            Scancode::O => 14,
            Scancode::P => 15,
            Scancode::Q => 16,
            Scancode::R => 17,
            Scancode::S => 18,
            Scancode::T => 19,
            Scancode::U => 20,
            Scancode::V => 21,
            Scancode::W => 22,
            Scancode::X => 23,
            Scancode::Y => 24,
            Scancode::Z => 25,
            Scancode::Zero => 26,
            Scancode::One => 27,
            Scancode::Two => 28,
            Scancode::Three => 29,
            Scancode::Four => 30,
            Scancode::Five => 31,
            Scancode::Six => 32,
            Scancode::Seven => 33,
            Scancode::Eight => 34,
            Scancode::Nine => 35,
            Scancode::KpZero => 36,
            Scancode::KpOne => 37,
            Scancode::KpTwo => 38,
            Scancode::KpThree => 39,
            Scancode::KpFour => 40,
            Scancode::KpFive => 41,
            Scancode::KpSix => 42,
            Scancode::KpSeven => 43,
            Scancode::KpEight => 44,
            Scancode::KpNine => 45,
            Scancode::KpZeroZero => 46,
            Scancode::KpZeroZeroZero => 47,
            Scancode::KpA => 48,
            Scancode::KpB => 49,
            Scancode::KpC => 50,
            Scancode::KpD => 51,
            Scancode::KpE => 52,
            Scancode::KpF => 53,
            Scancode::KpAnd => 54,
            Scancode::KpAndAnd => 55,
            Scancode::KpAt => 56,
            Scancode::KpCaret => 57,
            Scancode::KpColon => 58,
            Scancode::KpComma => 59,
            Scancode::KpDash => 60,
            Scancode::KpEquals => 61,
            Scancode::KpEqualsAs400 => 62,
            Scancode::KpExclamation => 63,
            Scancode::KpHash => 64,
            Scancode::KpLeftBrace => 65,
            Scancode::KpLeftParen => 66,
            Scancode::KpLess => 67,
            Scancode::KpPercent => 68,
            Scancode::KpPeriod => 69,
            Scancode::KpPipe => 70,
            Scancode::KpPipePipe => 71,
            Scancode::KpPlusMinus => 72,
            Scancode::KpRightBrace => 73,
            Scancode::KpRightParen => 74,
            Scancode::KpSlash => 75,
            Scancode::KpSpace => 76,
            Scancode::KpStar => 77,
            Scancode::KpTab => 78,
            Scancode::KpXor => 79,
            Scancode::KpPlus => 80,
            Scancode::KpGreater => 81,
            Scancode::KpBackspace => 82,
            Scancode::KpClear => 83,
            Scancode::KpClearEntry => 84,
            Scancode::KpEnter => 85,
            Scancode::KpMemAdd => 86,
            Scancode::KpMemClear => 87,
            Scancode::KpMemDivide => 88,
            Scancode::KpMemMultiply => 89,
            Scancode::KpMemRecall => 90,
            Scancode::KpMemSubtract => 91,
            Scancode::KpMemStore => 92,
            Scancode::KpBinary => 93,
            Scancode::KpOctal => 94,
            Scancode::KpDecimal => 95,
            Scancode::KpHex => 96,
            Scancode::KpPower => 97,
            Scancode::Apostrophe => 98,
            Scancode::Backslash => 99,
            Scancode::Comma => 100,
            Scancode::Equals => 101,
            Scancode::Grave => 102,
            Scancode::LeftSquareBracket => 103,
            Scancode::LeftBracket => 104,
            Scancode::Dash => 105,
            Scancode::Period => 106,
            Scancode::RightSquareBracket => 107,
            Scancode::RightBracket => 108,
            Scancode::SemiColon => 109,
            Scancode::Slash => 110,
            Scancode::Space => 111,
            Scancode::Tab => 112,
            Scancode::AltHash => 113,
            Scancode::AltBackslash => 114,
            Scancode::Down => 115,
            Scancode::Left => 116,
            Scancode::Right => 117,
            Scancode::Up => 118,
            Scancode::Backspace => 119,
            Scancode::CapsLock => 120,
            Scancode::Copy => 121,
            Scancode::Cut => 122,
            Scancode::Delete => 123,
            Scancode::End => 124,
            Scancode::Escape => 125,
            Scancode::Home => 126,
            Scancode::Insert => 127,
            Scancode::LeftAlt => 128,
            Scancode::LeftControl => 129,
            Scancode::LeftShift => 130,
            Scancode::LeftMeta => 131,
            Scancode::Menu => 132,
            Scancode::NumLock => 133,
            Scancode::PageDown => 134,
            Scancode::PageUp => 135,
            Scancode::Paste => 136,
            Scancode::PrintScreen => 137,
            Scancode::RightAlt => 138,
            Scancode::RightControl => 139,
            Scancode::Return => 140,
            Scancode::Return2 => 141,
            Scancode::RightMeta => 142,
            Scancode::RightShift => 143,
            Scancode::ScrollLock => 144,
            Scancode::Undo => 145,
            Scancode::F1 => 146,
            Scancode::F2 => 147,
            Scancode::F3 => 148,
            Scancode::F4 => 149,
            Scancode::F5 => 150,
            Scancode::F6 => 151,
            Scancode::F7 => 152,
            Scancode::F8 => 153,
            Scancode::F9 => 154,
            Scancode::F10 => 155,
            Scancode::F11 => 156,
            Scancode::F12 => 157,
            Scancode::F13 => 158,
            Scancode::F14 => 159,
            Scancode::F15 => 160,
            Scancode::F16 => 161,
            Scancode::F17 => 162,
            Scancode::F18 => 163,
            Scancode::F19 => 164,
            Scancode::F20 => 165,
            Scancode::F21 => 166,
            Scancode::F22 => 167,
            Scancode::F23 => 168,
            Scancode::F24 => 169,
            Scancode::InternationalOne => 170,
            Scancode::InternationalTwo => 171,
            Scancode::InternationalThree => 172,
            Scancode::InternationalFour => 173,
            Scancode::InternationalFive => 174,
            Scancode::InternationalSix => 175,
            Scancode::InternationalSeven => 176,
            Scancode::InternationalEight => 177,
            Scancode::InternationalNine => 178,
            Scancode::LangOne => 179,
            Scancode::LangTwo => 180,
            Scancode::LangThree => 181,
            Scancode::LangFour => 182,
            Scancode::LangFive => 183,
            Scancode::LangSix => 184,
            Scancode::LangSeven => 185,
            Scancode::LangEight => 186,
            Scancode::LangNine => 187,
            Scancode::AudioMute => 188,
            Scancode::AudioNext => 189,
            Scancode::AudioPlay => 190,
            Scancode::AudioPrev => 191,
            Scancode::AudioStop => 192,
            Scancode::Mute => 193,
            Scancode::VolumeDown => 194,
            Scancode::VolumeUp => 195,
            Scancode::Application => 196,
            Scancode::App1 => 197,
            Scancode::App2 => 198,
            Scancode::AppBack => 199,
            Scancode::AppBookmark => 200,
            Scancode::AppForward => 201,
            Scancode::AppHome => 202,
            Scancode::AppRefresh => 203,
            Scancode::AppSearch => 204,
            Scancode::AppStop => 205,
            Scancode::BrightnessDown => 206,
            Scancode::BrightnessUp => 207,
            Scancode::KeyboardIllumDown => 208,
            Scancode::KeyboardIllumUp => 209,
            Scancode::KeyboardIllumToggle => 210,
            Scancode::Again => 211,
            Scancode::AltErase => 212,
            Scancode::Calculator => 213,
            Scancode::Cancel => 214,
            Scancode::Clear => 215,
            Scancode::ClearAgain => 216,
            Scancode::Computer => 217,
            Scancode::CrSel => 218,
            Scancode::CurrencySubUnit => 219,
            Scancode::CurrencyUnit => 220,
            Scancode::DecimalSeparator => 221,
            Scancode::DisplaySwitch => 222,
            Scancode::Eject => 223,
            Scancode::ExSel => 224,
            Scancode::Find => 225,
            Scancode::Help => 226,
            Scancode::Mail => 227,
            Scancode::MediaSelect => 228,
            Scancode::Mode => 229,
            Scancode::ModeSwitch => 230,
            Scancode::Oper => 231,
            Scancode::Out => 232,
            Scancode::Power => 233,
            Scancode::Prior => 234,
            Scancode::Select => 235,
            Scancode::Separator => 236,
            Scancode::Sleep => 237,
            Scancode::Stop => 238,
            Scancode::SysReq => 239,
            Scancode::ThousandsSeparator => 240,
            Scancode::WorldWideWeb => 241,
            Scancode::Unknown => 242,
            Scancode::Pause => 243,
            Scancode::Execute => 244,
        }
    }
}

/// The key with number `i`; `Unknown` where no key has it.
pub open spec fn spec_key_of_index(i: u32) -> Scancode {
    match i {
        0 => Scancode::A,
        1 => Scancode::B,
        2 => Scancode::C,
        3 => Scancode::D,
        4 => Scancode::E,
        5 => Scancode::F,
        6 => Scancode::G,
        7 => Scancode::H,
        8 => Scancode::I,
        9 => Scancode::J,
        10 => Scancode::K,
        11 => Scancode::L,
        12 => Scancode::M,
        13 => Scancode::N,
        14 => Scancode::O,
        15 => Scancode::P,
        16 => Scancode::Q,
        17 => Scancode::R,
        18 => Scancode::S,
        19 => Scancode::T,
        20 => Scancode::U,
        21 => Scancode::V,
        22 => Scancode::W,
        23 => Scancode::X,
        24 => Scancode::Y,
        25 => Scancode::Z,
        26 => Scancode::Zero,
        27 => Scancode::One,
        28 => Scancode::Two,
        29 => Scancode::Three,
        30 => Scancode::Four,
        31 => Scancode::Five,
        32 => Scancode::Six,
        33 => Scancode::Seven,
        34 => Scancode::Eight,
        35 => Scancode::Nine,
        36 => Scancode::KpZero,
        37 => Scancode::KpOne,
        38 => Scancode::KpTwo,
        39 => Scancode::KpThree,
        40 => Scancode::KpFour,
        41 => Scancode::KpFive,
        42 => Scancode::KpSix,
        43 => Scancode::KpSeven,
        44 => Scancode::KpEight,
        45 => Scancode::KpNine,
        46 => Scancode::KpZeroZero,
        47 => Scancode::KpZeroZeroZero,
        48 => Scancode::KpA,
        49 => Scancode::KpB,
        50 => Scancode::KpC,
        51 => Scancode::KpD,
        52 => Scancode::KpE,
        53 => Scancode::KpF,
        54 => Scancode::KpAnd,
        55 => Scancode::KpAndAnd,
        56 => Scancode::KpAt,
        57 => Scancode::KpCaret,
        58 => Scancode::KpColon,
        59 => Scancode::KpComma,
        60 => Scancode::KpDash,
        61 => Scancode::KpEquals,
        62 => Scancode::KpEqualsAs400,
        63 => Scancode::KpExclamation,
        64 => Scancode::KpHash,
        65 => Scancode::KpLeftBrace,
        66 => Scancode::KpLeftParen,
        67 => Scancode::KpLess,
        68 => Scancode::KpPercent,
        69 => Scancode::KpPeriod,
        70 => Scancode::KpPipe,
        71 => Scancode::KpPipePipe,
        72 => Scancode::KpPlusMinus,
        73 => Scancode::KpRightBrace,
        74 => Scancode::KpRightParen,
        75 => Scancode::KpSlash,
        76 => Scancode::KpSpace,
        77 => Scancode::KpStar,
        78 => Scancode::KpTab,
        79 => Scancode::KpXor,
        80 => Scancode::KpPlus,
        81 => Scancode::KpGreater,
        82 => Scancode::KpBackspace,
        83 => Scancode::KpClear,
        84 => Scancode::KpClearEntry,
        85 => Scancode::KpEnter,
        86 => Scancode::KpMemAdd,
        87 => Scancode::KpMemClear,
        88 => Scancode::KpMemDivide,
        89 => Scancode::KpMemMultiply,
        90 => Scancode::KpMemRecall,
        91 => Scancode::KpMemSubtract,
        92 => Scancode::KpMemStore,
        93 => Scancode::KpBinary,
        94 => Scancode::KpOctal,
        95 => Scancode::KpDecimal,
        96 => Scancode::KpHex,
        97 => Scancode::KpPower,
        98 => Scancode::Apostrophe,
        99 => Scancode::Backslash,
        100 => Scancode::Comma,
        101 => Scancode::Equals,
        102 => Scancode::Grave,
        103 => Scancode::LeftSquareBracket,
        104 => Scancode::LeftBracket,
        105 => Scancode::Dash,
        106 => Scancode::Period,
        107 => Scancode::RightSquareBracket,
        108 => Scancode::RightBracket,
        109 => Scancode::SemiColon,
        110 => Scancode::Slash,
        111 => Scancode::Space,
        112 => Scancode::Tab,
        113 => Scancode::AltHash,
        114 => Scancode::AltBackslash,
        115 => Scancode::Down,
        116 => Scancode::Left,
        117 => Scancode::Right,
        118 => Scancode::Up,
        119 => Scancode::Backspace,
        120 => Scancode::CapsLock,
        121 => Scancode::Copy,
        122 => Scancode::Cut,
        123 => Scancode::Delete,
        124 => Scancode::End,
        125 => Scancode::Escape,
        126 => Scancode::Home,
        127 => Scancode::Insert,
        128 => Scancode::LeftAlt,
        129 => Scancode::LeftControl,
        130 => Scancode::LeftShift,
        131 => Scancode::LeftMeta,
        132 => Scancode::Menu,
        133 => Scancode::NumLock,
        134 => Scancode::PageDown,
        135 => Scancode::PageUp,
        136 => Scancode::Paste,
        137 => Scancode::PrintScreen,
        138 => Scancode::RightAlt,
        139 => Scancode::RightControl,
        140 => Scancode::Return,
        141 => Scancode::Return2,
        142 => Scancode::RightMeta,
        143 => Scancode::RightShift,
        144 => Scancode::ScrollLock,
        145 => Scancode::Undo,
        146 => Scancode::F1,
        147 => Scancode::F2,
        148 => Scancode::F3,
        149 => Scancode::F4,
        150 => Scancode::F5,
        151 => Scancode::F6,
        152 => Scancode::F7,
        153 => Scancode::F8,
        154 => Scancode::F9,
        155 => Scancode::F10,
        156 => Scancode::F11,
        157 => Scancode::F12,
        158 => Scancode::F13,
        159 => Scancode::F14,
        160 => Scancode::F15,
        161 => Scancode::F16,
        162 => Scancode::F17,
        163 => Scancode::F18,
        164 => Scancode::F19,
        165 => Scancode::F20,
        166 => Scancode::F21,
        167 => Scancode::F22,
        168 => Scancode::F23,
        169 => Scancode::F24,
        170 => Scancode::InternationalOne,
        171 => Scancode::InternationalTwo,
        172 => Scancode::InternationalThree,
        173 => Scancode::InternationalFour,
        174 => Scancode::InternationalFive,
        175 => Scancode::InternationalSix,
        176 => Scancode::InternationalSeven,
        177 => Scancode::InternationalEight,
        178 => Scancode::InternationalNine,
        179 => Scancode::LangOne,
        180 => Scancode::LangTwo,
        181 => Scancode::LangThree,
        182 => Scancode::LangFour,
        183 => Scancode::LangFive,
        184 => Scancode::LangSix,
        185 => Scancode::LangSeven,
        186 => Scancode::LangEight,
        187 => Scancode::LangNine,
        188 => Scancode::AudioMute,
        189 => Scancode::AudioNext,
        190 => Scancode::AudioPlay,
        191 => Scancode::AudioPrev,
        192 => Scancode::AudioStop,
        193 => Scancode::Mute,
        194 => Scancode::VolumeDown,
        195 => Scancode::VolumeUp,
        196 => Scancode::Application,
        197 => Scancode::App1,
        198 => Scancode::App2,
        199 => Scancode::AppBack,
        200 => Scancode::AppBookmark,
        201 => Scancode::AppForward,
        202 => Scancode::AppHome,
        203 => Scancode::AppRefresh,
        204 => Scancode::AppSearch,
        205 => Scancode::AppStop,
        206 => Scancode::BrightnessDown,
        207 => Scancode::BrightnessUp,
        208 => Scancode::KeyboardIllumDown,
        209 => Scancode::KeyboardIllumUp,
        210 => Scancode::KeyboardIllumToggle,
        211 => Scancode::Again,
        212 => Scancode::AltErase,
        213 => Scancode::Calculator,
        214 => Scancode::Cancel,
        215 => Scancode::Clear,
        216 => Scancode::ClearAgain,
        217 => Scancode::Computer,
        218 => Scancode::CrSel,
        219 => Scancode::CurrencySubUnit,
        220 => Scancode::CurrencyUnit,
        221 => Scancode::DecimalSeparator,
        222 => Scancode::DisplaySwitch,
        223 => Scancode::Eject,
        224 => Scancode::ExSel,
        225 => Scancode::Find,
        226 => Scancode::Help,
        227 => Scancode::Mail,
        228 => Scancode::MediaSelect,
        229 => Scancode::Mode,
        230 => Scancode::ModeSwitch,
        231 => Scancode::Oper,
        232 => Scancode::Out,
        233 => Scancode::Power,
        234 => Scancode::Prior,
        235 => Scancode::Select,
        236 => Scancode::Separator,
        237 => Scancode::Sleep,
        238 => Scancode::Stop,
        239 => Scancode::SysReq,
        240 => Scancode::ThousandsSeparator,
        241 => Scancode::WorldWideWeb,
        242 => Scancode::Unknown,
        243 => Scancode::Pause,
        244 => Scancode::Execute,
        _ => Scancode::Unknown,
    }
}

/// A key's number gives the key back.
proof fn lemma_key_index_roundtrip(k: Scancode)
    ensures
        spec_key_of_index(k.spec_key_index()) == k,
{
}

/// Different keys have different numbers.
pub proof fn lemma_key_index_injective(a: Scancode, b: Scancode)
    ensures
        a.spec_key_index() == b.spec_key_index() ==> a == b,
{
    lemma_key_index_roundtrip(a);
    lemma_key_index_roundtrip(b);
}


/// The key that SDL's scancode number `code` stands for (the values of
/// SDL's `SDL_Scancode`, which follow the USB usage table); `None` for a
/// number that names no key, such as SDL's count of scancodes.
pub open spec fn spec_convert_scancode(code: i32) -> Option<Scancode> {
    match code {
        4 => Some(Scancode::A),
        5 => Some(Scancode::B),
        6 => Some(Scancode::C),
        7 => Some(Scancode::D),
        8 => Some(Scancode::E),
        9 => Some(Scancode::F),
        10 => Some(Scancode::G),
        11 => Some(Scancode::H),
        12 => Some(Scancode::I),
        13 => Some(Scancode::J),
        14 => Some(Scancode::K),
        15 => Some(Scancode::L),
        16 => Some(Scancode::M),
        17 => Some(Scancode::N),
        18 => Some(Scancode::O),
        19 => Some(Scancode::P),
        20 => Some(Scancode::Q),
        21 => Some(Scancode::R),
        22 => Some(Scancode::S),
        23 => Some(Scancode::T),
        24 => Some(Scancode::U),
        25 => Some(Scancode::V),
        26 => Some(Scancode::W),
        27 => Some(Scancode::X),
        28 => Some(Scancode::Y),
        29 => Some(Scancode::Z),
        30 => Some(Scancode::One),
        31 => Some(Scancode::Two),
        32 => Some(Scancode::Three),
        33 => Some(Scancode::Four),
        34 => Some(Scancode::Five),
        35 => Some(Scancode::Six),
        36 => Some(Scancode::Seven),
        37 => Some(Scancode::Eight),
        38 => Some(Scancode::Nine),
        39 => Some(Scancode::Zero),
        40 => Some(Scancode::Return),
        41 => Some(Scancode::Escape),
        42 => Some(Scancode::Backspace),
        43 => Some(Scancode::Tab),
        44 => Some(Scancode::Space),
        45 => Some(Scancode::Dash),
        46 => Some(Scancode::Equals),
        47 => Some(Scancode::LeftBracket),
        48 => Some(Scancode::RightBracket),
        49 => Some(Scancode::Backslash),
        50 => Some(Scancode::AltHash),
        51 => Some(Scancode::SemiColon),
        52 => Some(Scancode::Apostrophe),
        53 => Some(Scancode::Grave),
        54 => Some(Scancode::Comma),
        55 => Some(Scancode::Period),
        56 => Some(Scancode::Slash),
        57 => Some(Scancode::CapsLock),
        58 => Some(Scancode::F1),
        59 => Some(Scancode::F2),
        60 => Some(Scancode::F3),
        61 => Some(Scancode::F4),
        62 => Some(Scancode::F5),
        63 => Some(Scancode::F6),
        64 => Some(Scancode::F7),
        65 => Some(Scancode::F8),
        66 => Some(Scancode::F9),
        67 => Some(Scancode::F10),
        68 => Some(Scancode::F11),
        69 => Some(Scancode::F12),
        70 => Some(Scancode::PrintScreen),
        71 => Some(Scancode::ScrollLock),
        72 => Some(Scancode::Pause),
        73 => Some(Scancode::Insert),
        74 => Some(Scancode::Home),
        75 => Some(Scancode::PageUp),
        76 => Some(Scancode::Delete),
        77 => Some(Scancode::End),
        78 => Some(Scancode::PageDown),
        79 => Some(Scancode::Right),
        80 => Some(Scancode::Left),
        81 => Some(Scancode::Down),
        82 => Some(Scancode::Up),
        83 => Some(Scancode::NumLock),
        84 => Some(Scancode::KpSlash),
        85 => Some(Scancode::KpStar),
        86 => Some(Scancode::KpDash),
        87 => Some(Scancode::KpPlus),
        88 => Some(Scancode::KpEnter),
        89 => Some(Scancode::KpOne),
        90 => Some(Scancode::KpTwo),
        91 => Some(Scancode::KpThree),
        92 => Some(Scancode::KpFour),
        93 => Some(Scancode::KpFive),
        94 => Some(Scancode::KpSix),
        95 => Some(Scancode::KpSeven),
        96 => Some(Scancode::KpEight),
        97 => Some(Scancode::KpNine),
        98 => Some(Scancode::KpZero),
        99 => Some(Scancode::KpPeriod),
        100 => Some(Scancode::AltBackslash),
        101 => Some(Scancode::Application),
        102 => Some(Scancode::Power),
        103 => Some(Scancode::KpEquals),
        104 => Some(Scancode::F13),
        105 => Some(Scancode::F14),
        106 => Some(Scancode::F15),
        107 => Some(Scancode::F16),
        108 => Some(Scancode::F17),
        109 => Some(Scancode::F18),
        110 => Some(Scancode::F19),
        111 => Some(Scancode::F20),
        112 => Some(Scancode::F21),
        113 => Some(Scancode::F22),
        114 => Some(Scancode::F23),
        115 => Some(Scancode::F24),
        116 => Some(Scancode::Execute),
        117 => Some(Scancode::Help),
        118 => Some(Scancode::Menu),
        119 => Some(Scancode::Select),
        120 => Some(Scancode::Stop),
        121 => Some(Scancode::Again),
        122 => Some(Scancode::Undo),
        123 => Some(Scancode::Cut),
        124 => Some(Scancode::Copy),
        125 => Some(Scancode::Paste),
        126 => Some(Scancode::Find),
        127 => Some(Scancode::Mute),
        128 => Some(Scancode::VolumeUp),
        129 => Some(Scancode::VolumeDown),
        133 => Some(Scancode::KpComma),
        134 => Some(Scancode::KpEqualsAs400),
        135 => Some(Scancode::InternationalOne),
        136 => Some(Scancode::InternationalTwo),
        137 => Some(Scancode::InternationalThree),
        138 => Some(Scancode::InternationalFour),
        139 => Some(Scancode::InternationalFive),
        140 => Some(Scancode::InternationalSix),
        141 => Some(Scancode::InternationalSeven),
        142 => Some(Scancode::InternationalEight),
        143 => Some(Scancode::InternationalNine),
        144 => Some(Scancode::LangOne),
        145 => Some(Scancode::LangTwo),
        146 => Some(Scancode::LangThree),
        147 => Some(Scancode::LangFour),
        148 => Some(Scancode::LangFive),
        149 => Some(Scancode::LangSix),
        150 => Some(Scancode::LangSeven),
        151 => Some(Scancode::LangEight),
        152 => Some(Scancode::LangNine),
        153 => Some(Scancode::AltErase),
        154 => Some(Scancode::SysReq),
        155 => Some(Scancode::Cancel),
        156 => Some(Scancode::Clear),
        157 => Some(Scancode::Prior),
        158 => Some(Scancode::Return2),
        159 => Some(Scancode::Separator),
        160 => Some(Scancode::Out),
        161 => Some(Scancode::Oper),
        162 => Some(Scancode::ClearAgain),
        163 => Some(Scancode::CrSel),
        164 => Some(Scancode::ExSel),
        176 => Some(Scancode::KpZeroZero),
        177 => Some(Scancode::KpZeroZeroZero),
        178 => Some(Scancode::ThousandsSeparator),
        179 => Some(Scancode::DecimalSeparator),
        180 => Some(Scancode::CurrencyUnit),
        181 => Some(Scancode::CurrencySubUnit),
        182 => Some(Scancode::KpLeftParen),
        183 => Some(Scancode::KpRightParen),
        184 => Some(Scancode::KpLeftBrace),
        185 => Some(Scancode::KpRightBrace),
        186 => Some(Scancode::KpTab),
        187 => Some(Scancode::KpBackspace),
        188 => Some(Scancode::KpA),
        189 => Some(Scancode::KpB),
        190 => Some(Scancode::KpC),
        191 => Some(Scancode::KpD),
        192 => Some(Scancode::KpE),
        193 => Some(Scancode::KpF),
        194 => Some(Scancode::KpXor),
        195 => Some(Scancode::KpPower),
        196 => Some(Scancode::KpPercent),
        197 => Some(Scancode::KpLess),
        198 => Some(Scancode::KpGreater),
        199 => Some(Scancode::KpAnd),
        200 => Some(Scancode::KpAndAnd),
        201 => Some(Scancode::KpPipe),
        202 => Some(Scancode::KpPipePipe),
        203 => Some(Scancode::KpColon),
        204 => Some(Scancode::KpHash),
        205 => Some(Scancode::KpSpace),
        206 => Some(Scancode::KpAt),
        207 => Some(Scancode::KpExclamation),
        208 => Some(Scancode::KpMemStore),
        209 => Some(Scancode::KpMemRecall),
        210 => Some(Scancode::KpMemClear),
        211 => Some(Scancode::KpMemAdd),
        212 => Some(Scancode::KpMemSubtract),
        213 => Some(Scancode::KpMemMultiply),
        214 => Some(Scancode::KpMemDivide),
        215 => Some(Scancode::KpPlusMinus),
        216 => Some(Scancode::KpClear),
        217 => Some(Scancode::KpClearEntry),
        218 => Some(Scancode::KpBinary),
        219 => Some(Scancode::KpOctal),
        220 => Some(Scancode::KpDecimal),
        221 => Some(Scancode::KpHex),
        224 => Some(Scancode::LeftControl),
        225 => Some(Scancode::LeftShift),
        226 => Some(Scancode::LeftAlt),
        227 => Some(Scancode::LeftMeta),
        228 => Some(Scancode::RightControl),
        229 => Some(Scancode::RightShift),
        230 => Some(Scancode::RightAlt),
        231 => Some(Scancode::RightMeta),
        257 => Some(Scancode::Mode),
        258 => Some(Scancode::AudioNext),
        259 => Some(Scancode::AudioPrev),
        260 => Some(Scancode::AudioStop),
        261 => Some(Scancode::AudioPlay),
        262 => Some(Scancode::AudioMute),
        263 => Some(Scancode::MediaSelect),
        264 => Some(Scancode::WorldWideWeb),
        265 => Some(Scancode::Mail),
        266 => Some(Scancode::Calculator),
        267 => Some(Scancode::Computer),
        268 => Some(Scancode::AppSearch),
        269 => Some(Scancode::AppHome),
        270 => Some(Scancode::AppBack),
        271 => Some(Scancode::AppForward),
        272 => Some(Scancode::AppStop),
        273 => Some(Scancode::AppRefresh),
        274 => Some(Scancode::AppBookmark),
        275 => Some(Scancode::BrightnessDown),
        276 => Some(Scancode::BrightnessUp),
        277 => Some(Scancode::DisplaySwitch),
        278 => Some(Scancode::KeyboardIllumToggle),
        279 => Some(Scancode::KeyboardIllumDown),
        280 => Some(Scancode::KeyboardIllumUp),
        281 => Some(Scancode::Eject),
        282 => Some(Scancode::Sleep),
        283 => Some(Scancode::App1),
        284 => Some(Scancode::App2),
        _ => None,
    }
}

/// Converts SDL's scancode number `code` into the engine's key.
pub fn convert_scancode(code: i32) -> (r: Option<Scancode>)
    ensures
        r == spec_convert_scancode(code),
{
    match code {
        4 => Some(Scancode::A),
        5 => Some(Scancode::B),
        6 => Some(Scancode::C),
        7 => Some(Scancode::D),
        8 => Some(Scancode::E),
        9 => Some(Scancode::F),
        10 => Some(Scancode::G),
        11 => Some(Scancode::H),
        12 => Some(Scancode::I),
        13 => Some(Scancode::J),
        14 => Some(Scancode::K),
        15 => Some(Scancode::L),
        16 => Some(Scancode::M),
        17 => Some(Scancode::N),
        18 => Some(Scancode::O),
        19 => Some(Scancode::P),
        20 => Some(Scancode::Q),
        21 => Some(Scancode::R),
        22 => Some(Scancode::S),
        23 => Some(Scancode::T),
        24 => Some(Scancode::U),
        25 => Some(Scancode::V),
        26 => Some(Scancode::W),
        27 => Some(Scancode::X),
        28 => Some(Scancode::Y),
        29 => Some(Scancode::Z),
        30 => Some(Scancode::One),
        31 => Some(Scancode::Two),
        32 => Some(Scancode::Three),
        33 => Some(Scancode::Four),
        34 => Some(Scancode::Five),
        35 => Some(Scancode::Six),
        36 => Some(Scancode::Seven),
        37 => Some(Scancode::Eight),
        38 => Some(Scancode::Nine),
        39 => Some(Scancode::Zero),
        40 => Some(Scancode::Return),
        41 => Some(Scancode::Escape),
        42 => Some(Scancode::Backspace),
        43 => Some(Scancode::Tab),
        44 => Some(Scancode::Space),
        45 => Some(Scancode::Dash),
        46 => Some(Scancode::Equals),
        47 => Some(Scancode::LeftBracket),
        48 => Some(Scancode::RightBracket),
        49 => Some(Scancode::Backslash),
        50 => Some(Scancode::AltHash),
        51 => Some(Scancode::SemiColon),
        52 => Some(Scancode::Apostrophe),
        53 => Some(Scancode::Grave),
        54 => Some(Scancode::Comma),
        55 => Some(Scancode::Period),
        56 => Some(Scancode::Slash),
        57 => Some(Scancode::CapsLock),
        58 => Some(Scancode::F1),
        59 => Some(Scancode::F2),
        60 => Some(Scancode::F3),
        61 => Some(Scancode::F4),
        62 => Some(Scancode::F5),
        63 => Some(Scancode::F6),
        64 => Some(Scancode::F7),
        65 => Some(Scancode::F8),
        66 => Some(Scancode::F9),
        67 => Some(Scancode::F10),
        68 => Some(Scancode::F11),
        69 => Some(Scancode::F12),
        70 => Some(Scancode::PrintScreen),
        71 => Some(Scancode::ScrollLock),
        72 => Some(Scancode::Pause),
        73 => Some(Scancode::Insert),
        74 => Some(Scancode::Home),
        75 => Some(Scancode::PageUp),
        76 => Some(Scancode::Delete),
        77 => Some(Scancode::End),
        78 => Some(Scancode::PageDown),
        79 => Some(Scancode::Right),
        80 => Some(Scancode::Left),
        81 => Some(Scancode::Down),
        82 => Some(Scancode::Up),
        83 => Some(Scancode::NumLock),
        84 => Some(Scancode::KpSlash),
        85 => Some(Scancode::KpStar),
        86 => Some(Scancode::KpDash),
        87 => Some(Scancode::KpPlus),
        88 => Some(Scancode::KpEnter),
        89 => Some(Scancode::KpOne),
        90 => Some(Scancode::KpTwo),
        91 => Some(Scancode::KpThree),
        92 => Some(Scancode::KpFour),
        93 => Some(Scancode::KpFive),
        94 => Some(Scancode::KpSix),
        95 => Some(Scancode::KpSeven),
        96 => Some(Scancode::KpEight),
        97 => Some(Scancode::KpNine),
        98 => Some(Scancode::KpZero),
        99 => Some(Scancode::KpPeriod),
        100 => Some(Scancode::AltBackslash),
        101 => Some(Scancode::Application),
        102 => Some(Scancode::Power),
        103 => Some(Scancode::KpEquals),
        104 => Some(Scancode::F13),
        105 => Some(Scancode::F14),
        106 => Some(Scancode::F15),
        107 => Some(Scancode::F16),
        108 => Some(Scancode::F17),
        109 => Some(Scancode::F18),
        110 => Some(Scancode::F19),
        111 => Some(Scancode::F20),
        112 => Some(Scancode::F21),
        113 => Some(Scancode::F22),
        114 => Some(Scancode::F23),
        115 => Some(Scancode::F24),
        116 => Some(Scancode::Execute),
        117 => Some(Scancode::Help),
        118 => Some(Scancode::Menu),
        119 => Some(Scancode::Select),
        120 => Some(Scancode::Stop),
        121 => Some(Scancode::Again),
        122 => Some(Scancode::Undo),
        123 => Some(Scancode::Cut),
        124 => Some(Scancode::Copy),
        125 => Some(Scancode::Paste),
        126 => Some(Scancode::Find),
        127 => Some(Scancode::Mute),
        128 => Some(Scancode::VolumeUp),
        129 => Some(Scancode::VolumeDown),
        133 => Some(Scancode::KpComma),
        134 => Some(Scancode::KpEqualsAs400),
        135 => Some(Scancode::InternationalOne),
        136 => Some(Scancode::InternationalTwo),
        137 => Some(Scancode::InternationalThree),
        138 => Some(Scancode::InternationalFour),
        139 => Some(Scancode::InternationalFive),
        140 => Some(Scancode::InternationalSix),
        141 => Some(Scancode::InternationalSeven),
        142 => Some(Scancode::InternationalEight),
        143 => Some(Scancode::InternationalNine),
        144 => Some(Scancode::LangOne),
        145 => Some(Scancode::LangTwo),
        146 => Some(Scancode::LangThree),
        147 => Some(Scancode::LangFour),
        148 => Some(Scancode::LangFive),
        149 => Some(Scancode::LangSix),
        150 => Some(Scancode::LangSeven),
        151 => Some(Scancode::LangEight),
        152 => Some(Scancode::LangNine),
        153 => Some(Scancode::AltErase),
        154 => Some(Scancode::SysReq),
        155 => Some(Scancode::Cancel),
        156 => Some(Scancode::Clear),
        157 => Some(Scancode::Prior),
        158 => Some(Scancode::Return2),
        159 => Some(Scancode::Separator),
        160 => Some(Scancode::Out),
        161 => Some(Scancode::Oper),
        162 => Some(Scancode::ClearAgain),
        163 => Some(Scancode::CrSel),
        164 => Some(Scancode::ExSel),
        176 => Some(Scancode::KpZeroZero),
        177 => Some(Scancode::KpZeroZeroZero),
        178 => Some(Scancode::ThousandsSeparator),
        179 => Some(Scancode::DecimalSeparator),
        180 => Some(Scancode::CurrencyUnit),
        181 => Some(Scancode::CurrencySubUnit),
        182 => Some(Scancode::KpLeftParen),
        183 => Some(Scancode::KpRightParen),
        184 => Some(Scancode::KpLeftBrace),
        185 => Some(Scancode::KpRightBrace),
        186 => Some(Scancode::KpTab),
        187 => Some(Scancode::KpBackspace),
        188 => Some(Scancode::KpA),
        189 => Some(Scancode::KpB),
        190 => Some(Scancode::KpC),
        191 => Some(Scancode::KpD),
        192 => Some(Scancode::KpE),
        193 => Some(Scancode::KpF),
        194 => Some(Scancode::KpXor),
        195 => Some(Scancode::KpPower),
        196 => Some(Scancode::KpPercent),
        197 => Some(Scancode::KpLess),
        198 => Some(Scancode::KpGreater),
        199 => Some(Scancode::KpAnd),
        200 => Some(Scancode::KpAndAnd),
        201 => Some(Scancode::KpPipe),
        202 => Some(Scancode::KpPipePipe),
        203 => Some(Scancode::KpColon),
        204 => Some(Scancode::KpHash),
        205 => Some(Scancode::KpSpace),
        206 => Some(Scancode::KpAt),
        207 => Some(Scancode::KpExclamation),
        208 => Some(Scancode::KpMemStore),
        209 => Some(Scancode::KpMemRecall),
        210 => Some(Scancode::KpMemClear),
        211 => Some(Scancode::KpMemAdd),
        212 => Some(Scancode::KpMemSubtract),
        213 => Some(Scancode::KpMemMultiply),
        214 => Some(Scancode::KpMemDivide),
        215 => Some(Scancode::KpPlusMinus),
        216 => Some(Scancode::KpClear),
        217 => Some(Scancode::KpClearEntry),
        218 => Some(Scancode::KpBinary),
        219 => Some(Scancode::KpOctal),
        220 => Some(Scancode::KpDecimal),
        221 => Some(Scancode::KpHex),
        224 => Some(Scancode::LeftControl),
        225 => Some(Scancode::LeftShift),
        226 => Some(Scancode::LeftAlt),
        227 => Some(Scancode::LeftMeta),
        228 => Some(Scancode::RightControl),
        229 => Some(Scancode::RightShift),
        230 => Some(Scancode::RightAlt),
        231 => Some(Scancode::RightMeta),
        257 => Some(Scancode::Mode),
        258 => Some(Scancode::AudioNext),
        259 => Some(Scancode::AudioPrev),
        260 => Some(Scancode::AudioStop),
        261 => Some(Scancode::AudioPlay),
        262 => Some(Scancode::AudioMute),
        263 => Some(Scancode::MediaSelect),
        264 => Some(Scancode::WorldWideWeb),
        265 => Some(Scancode::Mail),
        266 => Some(Scancode::Calculator),
        267 => Some(Scancode::Computer),
        268 => Some(Scancode::AppSearch),
        269 => Some(Scancode::AppHome),
        270 => Some(Scancode::AppBack),
        271 => Some(Scancode::AppForward),
        272 => Some(Scancode::AppStop),
        273 => Some(Scancode::AppRefresh),
        274 => Some(Scancode::AppBookmark),
        275 => Some(Scancode::BrightnessDown),
        276 => Some(Scancode::BrightnessUp),
        277 => Some(Scancode::DisplaySwitch),
        278 => Some(Scancode::KeyboardIllumToggle),
        279 => Some(Scancode::KeyboardIllumDown),
        280 => Some(Scancode::KeyboardIllumUp),
        281 => Some(Scancode::Eject),
        282 => Some(Scancode::Sleep),
        283 => Some(Scancode::App1),
        284 => Some(Scancode::App2),
        _ => None,
    }
}

} // verus!
