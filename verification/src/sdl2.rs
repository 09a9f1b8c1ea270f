//! Data types of the SDL2 bindings: versions, key and button codes, and events.
use vstd::prelude::*;

verus! {

pub const MAJOR_VERSION: u8 = 2;
pub const MINOR_VERSION: u8 = 24;
pub const PATCH_VERSION: u8 = 2;

/// An SDL boolean.
#[derive(Clone, Copy, PartialEq, Eq, Structural, Debug)]
pub enum Bool {
    False,
    True,
}

impl Bool {
    /// The value SDL uses for this boolean.
    pub open spec fn code(self) -> i32 {
        match self {
            Bool::False => 0,
            Bool::True => 1,
        }
    }

    /// The value SDL uses for this boolean.
    pub fn as_raw(self) -> (res: i32)
        ensures
            res == self.code(),
    {
        match self {
            Bool::False => 0,
            Bool::True => 1,
        }
    }
}

/// Whether a key or button is down.
#[derive(Clone, Copy, PartialEq, Eq, Structural)]
pub enum PressedState {
    Released,
    Pressed,
}

impl PressedState {
    /// The value SDL uses for this state.
    pub open spec fn code(self) -> u8 {
        match self {
            PressedState::Released => 0,
            PressedState::Pressed => 1,
        }
    }

    /// The value SDL uses for this state.
    pub fn as_raw(self) -> (res: u8)
        ensures
            res == self.code(),
    {
        match self {
            PressedState::Released => 0,
            PressedState::Pressed => 1,
        }
    }
}

/// A mouse button.
#[derive(Clone, Copy, PartialEq, Eq, Structural)]
pub enum MouseButton {
    Left,
    Middle,
    Right,
    X1,
    X2,
}

impl MouseButton {
    /// The number SDL gives this button.
    pub open spec fn code(self) -> u8 {
        match self {
            MouseButton::Left => 1,
            MouseButton::Middle => 2,
            MouseButton::Right => 3,
            MouseButton::X1 => 4,
            MouseButton::X2 => 5,
        }
    }

    /// The number SDL gives this button.
    pub fn as_raw(self) -> (res: u8)
        ensures
            res == self.code(),
    {
        match self {
            MouseButton::Left => 1,
            MouseButton::Middle => 2,
            MouseButton::Right => 3,
            MouseButton::X1 => 4,
            MouseButton::X2 => 5,
        }
    }
}

/// A physical key position, by its USB usage code.
#[derive(Clone, Copy, PartialEq, Eq, Structural)]
#[allow(non_camel_case_types)]
pub enum Scancode {
    UNKNOWN,
    A,
    B,
    C,
    D,
    E,
    F,
    G,
    H,
    I,
    J,
    K,
    L,
    M,
    N,
    O,
    P,
    Q,
    R,
    S,
    T,
    U,
    V,
    W,
    X,
    Y,
    Z,
    SCANCODE_1,
    SCANCODE_2,
    SCANCODE_3,
    SCANCODE_4,
    SCANCODE_5,
    SCANCODE_6,
    SCANCODE_7,
    SCANCODE_8,
    SCANCODE_9,
    SCANCODE_0,
    RETURN,
    ESCAPE,
    BACKSPACE,
    TAB,
    SPACE,
    MINUS,
    EQUALS,
    LEFTBRACKET,
    RIGHTBRACKET,
    BACKSLASH,
    NONUSHASH,
    SEMICOLON,
    APOSTROPHE,
    GRAVE,
    COMMA,
    PERIOD,
    SLASH,
    CAPSLOCK,
    F1,
    F2,
    F3,
    F4,
    F5,
    F6,
    F7,
    F8,
    F9,
    F10,
    F11,
    F12,
    PRINTSCREEN,
    SCROLLLOCK,
    PAUSE,
    INSERT,
    HOME,
    PAGEUP,
    DELETE,
    END,
    PAGEDOWN,
    RIGHT,
    LEFT,
    DOWN,
    UP,
    NUMLOCKCLEAR,
    KP_DIVIDE,
    KP_MULTIPLY,
    KP_MINUS,
    KP_PLUS,
    KP_ENTER,
    KP_1,
    KP_2,
    KP_3,
    KP_4,
    KP_5,
    KP_6,
    KP_7,
    KP_8,
    KP_9,
    KP_0,
    KP_PERIOD,
    NONUSBACKSLASH,
    APPLICATION,
    POWER,
    KP_EQUALS,
    F13,
    F14,
    F15,
    F16,
    F17,
    F18,
    F19,
    F20,
    F21,
    F22,
    F23,
    F24,
    EXECUTE,
    HELP,
    MENU,
    SELECT,
    STOP,
    AGAIN,
    UNDO,
    CUT,
    COPY,
    PASTE,
    FIND,
    MUTE,
    VOLUMEUP,
    VOLUMEDOWN,
    KP_COMMA,
    KP_EQUALSAS400,
    INTERNATIONAL1,
    INTERNATIONAL2,
    INTERNATIONAL3,
    INTERNATIONAL4,
    INTERNATIONAL5,
    INTERNATIONAL6,
    INTERNATIONAL7,
    INTERNATIONAL8,
    INTERNATIONAL9,
    LANG1,
    LANG2,
    LANG3,
    LANG4,
    LANG5,
    LANG6,
    LANG7,
    LANG8,
    LANG9,
    ALTERASE,
    SYSREQ,
    CANCEL,
    CLEAR,
    PRIOR,
    RETURN2,
    SEPARATOR,
    OUT,
    OPER,
    CLEARAGAIN,
    CRSEL,
    EXSEL,
    KP_00,
    KP_000,
    THOUSANDSSEPARATOR,
    DECIMALSEPARATOR,
    CURRENCYUNIT,
    CURRENCYSUBUNIT,
    KP_LEFTPAREN,
    KP_RIGHTPAREN,
    KP_LEFTBRACE,
    KP_RIGHTBRACE,
    KP_TAB,
    KP_BACKSPACE,
    KP_A,
    KP_B,
    KP_C,
    KP_D,
    KP_E,
    KP_F,
    KP_XOR,
    KP_POWER,
    KP_PERCENT,
    KP_LESS,
    KP_GREATER,
    KP_AMPERSAND,
    KP_DBLAMPERSAND,
    KP_VERTICALBAR,
    KP_DBLVERTICALBAR,
    KP_COLON,
    KP_HASH,
    KP_SPACE,
    KP_AT,
    KP_EXCLAM,
    KP_MEMSTORE,
    KP_MEMRECALL,
    KP_MEMCLEAR,
    KP_MEMADD,
    KP_MEMSUBTRACT,
    KP_MEMMULTIPLY,
    KP_MEMDIVIDE,
    KP_PLUSMINUS,
    KP_CLEAR,
    KP_CLEARENTRY,
    KP_BINARY,
    KP_OCTAL,
    KP_DECIMAL,
    KP_HEXADECIMAL,
    LCTRL,
    LSHIFT,
    LALT,
    LGUI,
    RCTRL,
    RSHIFT,
    RALT,
    RGUI,
    MODE,
    AUDIONEXT,
    AUDIOPREV,
    AUDIOSTOP,
    AUDIOPLAY,
    AUDIOMUTE,
    MEDIASELECT,
    WWW,
    MAIL,
    CALCULATOR,
    COMPUTER,
    AC_SEARCH,
    AC_HOME,
    AC_BACK,
    AC_FORWARD,
    AC_STOP,
    AC_REFRESH,
    AC_BOOKMARKS,
    BRIGHTNESSDOWN,
    BRIGHTNESSUP,
    DISPLAYSWITCH,
    KBDILLUMTOGGLE,
    KBDILLUMDOWN,
    KBDILLUMUP,
    EJECT,
    SLEEP,
    APP1,
    APP2,
    AUDIOREWIND,
    AUDIOFASTFORWARD,
    NUM_SCANCODES,
}

impl Scancode {
    /// The SDL code of this key position.
    pub open spec fn code(self) -> i32 {
        match self {
            Scancode::UNKNOWN => 0,
            Scancode::A => 4,
            Scancode::B => 5,
            Scancode::C => 6,
            Scancode::D => 7,
            Scancode::E => 8,
            Scancode::F => 9,
            Scancode::G => 10,
            Scancode::H => 11,
            Scancode::I => 12,
            Scancode::J => 13,
            Scancode::K => 14,
            Scancode::L => 15,
            Scancode::M => 16,
            Scancode::N => 17,
            Scancode::O => 18,
            Scancode::P => 19,
            Scancode::Q => 20,
            Scancode::R => 21,
            Scancode::S => 22,
            Scancode::T => 23,
            Scancode::U => 24,
            Scancode::V => 25,
            Scancode::W => 26,
            Scancode::X => 27,
            Scancode::Y => 28,
            Scancode::Z => 29,
            Scancode::SCANCODE_1 => 30,
            Scancode::SCANCODE_2 => 31,
            Scancode::SCANCODE_3 => 32,
            Scancode::SCANCODE_4 => 33,
            Scancode::SCANCODE_5 => 34,
            Scancode::SCANCODE_6 => 35,
            Scancode::SCANCODE_7 => 36,
            Scancode::SCANCODE_8 => 37,
            Scancode::SCANCODE_9 => 38,
            Scancode::SCANCODE_0 => 39,
            Scancode::RETURN => 40,
            Scancode::ESCAPE => 41,
            Scancode::BACKSPACE => 42,
            Scancode::TAB => 43,
            Scancode::SPACE => 44,
            Scancode::MINUS => 45,
            Scancode::EQUALS => 46,
            Scancode::LEFTBRACKET => 47,
            Scancode::RIGHTBRACKET => 48,
            Scancode::BACKSLASH => 49,
            Scancode::NONUSHASH => 50,
            Scancode::SEMICOLON => 51,
            Scancode::APOSTROPHE => 52,
            Scancode::GRAVE => 53,
            Scancode::COMMA => 54,
            Scancode::PERIOD => 55,
            Scancode::SLASH => 56,
            Scancode::CAPSLOCK => 57,
            Scancode::F1 => 58,
            Scancode::F2 => 59,
            Scancode::F3 => 60,
            Scancode::F4 => 61,
            Scancode::F5 => 62,
            Scancode::F6 => 63,
            Scancode::F7 => 64,
            Scancode::F8 => 65,
            Scancode::F9 => 66,
            Scancode::F10 => 67,
            Scancode::F11 => 68,
            Scancode::F12 => 69,
            Scancode::PRINTSCREEN => 70,
            Scancode::SCROLLLOCK => 71,
            Scancode::PAUSE => 72,
            Scancode::INSERT => 73,
            Scancode::HOME => 74,
            Scancode::PAGEUP => 75,
            Scancode::DELETE => 76,
            Scancode::END => 77,
            Scancode::PAGEDOWN => 78,
            Scancode::RIGHT => 79,
            Scancode::LEFT => 80,
            Scancode::DOWN => 81,
            Scancode::UP => 82,
            Scancode::NUMLOCKCLEAR => 83,
            Scancode::KP_DIVIDE => 84,
            Scancode::KP_MULTIPLY => 85,
            Scancode::KP_MINUS => 86,
            Scancode::KP_PLUS => 87,
            Scancode::KP_ENTER => 88,
            Scancode::KP_1 => 89,
            Scancode::KP_2 => 90,
            Scancode::KP_3 => 91,
            Scancode::KP_4 => 92,
            Scancode::KP_5 => 93,
            Scancode::KP_6 => 94,
            Scancode::KP_7 => 95,
            Scancode::KP_8 => 96,
            Scancode::KP_9 => 97,
            Scancode::KP_0 => 98,
            Scancode::KP_PERIOD => 99,
            Scancode::NONUSBACKSLASH => 100,
            Scancode::APPLICATION => 101,
            Scancode::POWER => 102,
            Scancode::KP_EQUALS => 103,
            Scancode::F13 => 104,
            Scancode::F14 => 105,
            Scancode::F15 => 106,
            Scancode::F16 => 107,
            Scancode::F17 => 108,
            Scancode::F18 => 109,
            Scancode::F19 => 110,
            Scancode::F20 => 111,
            Scancode::F21 => 112,
            Scancode::F22 => 113,
            Scancode::F23 => 114,
            Scancode::F24 => 115,
            Scancode::EXECUTE => 116,
            Scancode::HELP => 117,
            Scancode::MENU => 118,
            Scancode::SELECT => 119,
            Scancode::STOP => 120,
            Scancode::AGAIN => 121,
            Scancode::UNDO => 122,
            Scancode::CUT => 123,
            Scancode::COPY => 124,
            Scancode::PASTE => 125,
            Scancode::FIND => 126,
            Scancode::MUTE => 127,
            Scancode::VOLUMEUP => 128,
            Scancode::VOLUMEDOWN => 129,
            Scancode::KP_COMMA => 133,
            Scancode::KP_EQUALSAS400 => 134,
            Scancode::INTERNATIONAL1 => 135,
            Scancode::INTERNATIONAL2 => 136,
            Scancode::INTERNATIONAL3 => 137,
            Scancode::INTERNATIONAL4 => 138,
            Scancode::INTERNATIONAL5 => 139,
            Scancode::INTERNATIONAL6 => 140,
            Scancode::INTERNATIONAL7 => 141,
            Scancode::INTERNATIONAL8 => 142,
            Scancode::INTERNATIONAL9 => 143,
            Scancode::LANG1 => 144,
            Scancode::LANG2 => 145,
            Scancode::LANG3 => 146,
            Scancode::LANG4 => 147,
            Scancode::LANG5 => 148,
            Scancode::LANG6 => 149,
            Scancode::LANG7 => 150,
            Scancode::LANG8 => 151,
            Scancode::LANG9 => 152,
            Scancode::ALTERASE => 153,
            Scancode::SYSREQ => 154,
            Scancode::CANCEL => 155,
            Scancode::CLEAR => 156,
            Scancode::PRIOR => 157,
            Scancode::RETURN2 => 158,
            Scancode::SEPARATOR => 159,
            Scancode::OUT => 160,
            Scancode::OPER => 161,
            Scancode::CLEARAGAIN => 162,
            Scancode::CRSEL => 163,
            Scancode::EXSEL => 164,
            Scancode::KP_00 => 176,
            Scancode::KP_000 => 177,
            Scancode::THOUSANDSSEPARATOR => 178,
            Scancode::DECIMALSEPARATOR => 179,
            Scancode::CURRENCYUNIT => 180,
            Scancode::CURRENCYSUBUNIT => 181,
            Scancode::KP_LEFTPAREN => 182,
            Scancode::KP_RIGHTPAREN => 183,
            Scancode::KP_LEFTBRACE => 184,
            Scancode::KP_RIGHTBRACE => 185,
            Scancode::KP_TAB => 186,
            Scancode::KP_BACKSPACE => 187,
            Scancode::KP_A => 188,
            Scancode::KP_B => 189,
            Scancode::KP_C => 190,
            Scancode::KP_D => 191,
            Scancode::KP_E => 192,
            Scancode::KP_F => 193,
            Scancode::KP_XOR => 194,
            Scancode::KP_POWER => 195,
            Scancode::KP_PERCENT => 196,
            Scancode::KP_LESS => 197,
            Scancode::KP_GREATER => 198,
            Scancode::KP_AMPERSAND => 199,
            Scancode::KP_DBLAMPERSAND => 200,
            Scancode::KP_VERTICALBAR => 201,
            Scancode::KP_DBLVERTICALBAR => 202,
            Scancode::KP_COLON => 203,
            Scancode::KP_HASH => 204,
            Scancode::KP_SPACE => 205,
            Scancode::KP_AT => 206,
            Scancode::KP_EXCLAM => 207,
            Scancode::KP_MEMSTORE => 208,
            Scancode::KP_MEMRECALL => 209,
            Scancode::KP_MEMCLEAR => 210,
            Scancode::KP_MEMADD => 211,
            Scancode::KP_MEMSUBTRACT => 212,
            Scancode::KP_MEMMULTIPLY => 213,
            Scancode::KP_MEMDIVIDE => 214,
            Scancode::KP_PLUSMINUS => 215,
            Scancode::KP_CLEAR => 216,
            Scancode::KP_CLEARENTRY => 217,
            Scancode::KP_BINARY => 218,
            Scancode::KP_OCTAL => 219,
            Scancode::KP_DECIMAL => 220,
            Scancode::KP_HEXADECIMAL => 221,
            Scancode::LCTRL => 224,
            Scancode::LSHIFT => 225,
            Scancode::LALT => 226,
            Scancode::LGUI => 227,
            Scancode::RCTRL => 228,
            Scancode::RSHIFT => 229,
            Scancode::RALT => 230,
            Scancode::RGUI => 231,
            Scancode::MODE => 0x101,
            Scancode::AUDIONEXT => 0x102,
            Scancode::AUDIOPREV => 0x103,
            Scancode::AUDIOSTOP => 0x104,
            Scancode::AUDIOPLAY => 0x105,
            Scancode::AUDIOMUTE => 0x106,
            Scancode::MEDIASELECT => 0x107,
            Scancode::WWW => 0x108,
            Scancode::MAIL => 0x109,
            Scancode::CALCULATOR => 0x10a,
            Scancode::COMPUTER => 0x10b,
            Scancode::AC_SEARCH => 0x10c,
            Scancode::AC_HOME => 0x10d,
            Scancode::AC_BACK => 0x10e,
            Scancode::AC_FORWARD => 0x10f,
            Scancode::AC_STOP => 0x110,
            Scancode::AC_REFRESH => 0x111,
            Scancode::AC_BOOKMARKS => 0x112,
            Scancode::BRIGHTNESSDOWN => 0x113,
            Scancode::BRIGHTNESSUP => 0x114,
            Scancode::DISPLAYSWITCH => 0x115,
            Scancode::KBDILLUMTOGGLE => 0x116,
            Scancode::KBDILLUMDOWN => 0x117,
            Scancode::KBDILLUMUP => 0x118,
            Scancode::EJECT => 0x119,
            Scancode::SLEEP => 0x11a,
            Scancode::APP1 => 0x11b,
            Scancode::APP2 => 0x11c,
            Scancode::AUDIOREWIND => 0x11d,
            Scancode::AUDIOFASTFORWARD => 0x11e,
            Scancode::NUM_SCANCODES => 0x200,
        }
    }

    /// The SDL code of this key position.
    pub fn as_raw(self) -> (res: i32)
        ensures
            res == self.code(),
    {
        match self {
            Scancode::UNKNOWN => 0,
            Scancode::A => 4,
            Scancode::B => 5,
            Scancode::C => 6,
            Scancode::D => 7,
            Scancode::E => 8,
            Scancode::F => 9,
            Scancode::G => 10,
            Scancode::H => 11,
            Scancode::I => 12,
            Scancode::J => 13,
            Scancode::K => 14,
            Scancode::L => 15,
            Scancode::M => 16,
            Scancode::N => 17,
            Scancode::O => 18,
            Scancode::P => 19,
            Scancode::Q => 20,
            Scancode::R => 21,
            Scancode::S => 22,
            Scancode::T => 23,
            Scancode::U => 24,
            Scancode::V => 25,
            Scancode::W => 26,
            Scancode::X => 27,
            Scancode::Y => 28,
            Scancode::Z => 29,
            Scancode::SCANCODE_1 => 30,
            Scancode::SCANCODE_2 => 31,
            Scancode::SCANCODE_3 => 32,
            Scancode::SCANCODE_4 => 33,
            Scancode::SCANCODE_5 => 34,
            Scancode::SCANCODE_6 => 35,
            Scancode::SCANCODE_7 => 36,
            Scancode::SCANCODE_8 => 37,
            Scancode::SCANCODE_9 => 38,
            Scancode::SCANCODE_0 => 39,
            Scancode::RETURN => 40,
            Scancode::ESCAPE => 41,
            Scancode::BACKSPACE => 42,
            Scancode::TAB => 43,
            Scancode::SPACE => 44,
            Scancode::MINUS => 45,
            Scancode::EQUALS => 46,
            Scancode::LEFTBRACKET => 47,
            Scancode::RIGHTBRACKET => 48,
            Scancode::BACKSLASH => 49,
            Scancode::NONUSHASH => 50,
            Scancode::SEMICOLON => 51,
            Scancode::APOSTROPHE => 52,
            Scancode::GRAVE => 53,
            Scancode::COMMA => 54,
            Scancode::PERIOD => 55,
            Scancode::SLASH => 56,
            Scancode::CAPSLOCK => 57,
            Scancode::F1 => 58,
            Scancode::F2 => 59,
            Scancode::F3 => 60,
            Scancode::F4 => 61,
            Scancode::F5 => 62,
            Scancode::F6 => 63,
            Scancode::F7 => 64,
            Scancode::F8 => 65,
            Scancode::F9 => 66,
            Scancode::F10 => 67,
            Scancode::F11 => 68,
            Scancode::F12 => 69,
            Scancode::PRINTSCREEN => 70,
            Scancode::SCROLLLOCK => 71,
            Scancode::PAUSE => 72,
            Scancode::INSERT => 73,
            Scancode::HOME => 74,
            Scancode::PAGEUP => 75,
            Scancode::DELETE => 76,
            Scancode::END => 77,
            Scancode::PAGEDOWN => 78,
            Scancode::RIGHT => 79,
            Scancode::LEFT => 80,
            Scancode::DOWN => 81,
            Scancode::UP => 82,
            Scancode::NUMLOCKCLEAR => 83,
            Scancode::KP_DIVIDE => 84,
            Scancode::KP_MULTIPLY => 85,
            Scancode::KP_MINUS => 86,
            Scancode::KP_PLUS => 87,
            Scancode::KP_ENTER => 88,
            Scancode::KP_1 => 89,
            Scancode::KP_2 => 90,
            Scancode::KP_3 => 91,
            Scancode::KP_4 => 92,
            Scancode::KP_5 => 93,
            Scancode::KP_6 => 94,
            Scancode::KP_7 => 95,
            Scancode::KP_8 => 96,
            Scancode::KP_9 => 97,
            Scancode::KP_0 => 98,
            Scancode::KP_PERIOD => 99,
            Scancode::NONUSBACKSLASH => 100,
            Scancode::APPLICATION => 101,
            Scancode::POWER => 102,
            Scancode::KP_EQUALS => 103,
            Scancode::F13 => 104,
            Scancode::F14 => 105,
            Scancode::F15 => 106,
            Scancode::F16 => 107,
            Scancode::F17 => 108,
            Scancode::F18 => 109,
            Scancode::F19 => 110,
            Scancode::F20 => 111,
            Scancode::F21 => 112,
            Scancode::F22 => 113,
            Scancode::F23 => 114,
            Scancode::F24 => 115,
            Scancode::EXECUTE => 116,
            Scancode::HELP => 117,
            Scancode::MENU => 118,
            Scancode::SELECT => 119,
            Scancode::STOP => 120,
            Scancode::AGAIN => 121,
            Scancode::UNDO => 122,
            Scancode::CUT => 123,
            Scancode::COPY => 124,
            Scancode::PASTE => 125,
            Scancode::FIND => 126,
            Scancode::MUTE => 127,
            Scancode::VOLUMEUP => 128,
            Scancode::VOLUMEDOWN => 129,
            Scancode::KP_COMMA => 133,
            Scancode::KP_EQUALSAS400 => 134,
            Scancode::INTERNATIONAL1 => 135,
            Scancode::INTERNATIONAL2 => 136,
            Scancode::INTERNATIONAL3 => 137,
            Scancode::INTERNATIONAL4 => 138,
            Scancode::INTERNATIONAL5 => 139,
            Scancode::INTERNATIONAL6 => 140,
            Scancode::INTERNATIONAL7 => 141,
            Scancode::INTERNATIONAL8 => 142,
            Scancode::INTERNATIONAL9 => 143,
            Scancode::LANG1 => 144,
            Scancode::LANG2 => 145,
            Scancode::LANG3 => 146,
            Scancode::LANG4 => 147,
            Scancode::LANG5 => 148,
            Scancode::LANG6 => 149,
            Scancode::LANG7 => 150,
            Scancode::LANG8 => 151,
            Scancode::LANG9 => 152,
            Scancode::ALTERASE => 153,
            Scancode::SYSREQ => 154,
            Scancode::CANCEL => 155,
            Scancode::CLEAR => 156,
            Scancode::PRIOR => 157,
            Scancode::RETURN2 => 158,
            Scancode::SEPARATOR => 159,
            Scancode::OUT => 160,
            Scancode::OPER => 161,
            Scancode::CLEARAGAIN => 162,
            Scancode::CRSEL => 163,
            Scancode::EXSEL => 164,
            Scancode::KP_00 => 176,
            Scancode::KP_000 => 177,
            Scancode::THOUSANDSSEPARATOR => 178,
            Scancode::DECIMALSEPARATOR => 179,
            Scancode::CURRENCYUNIT => 180,
            Scancode::CURRENCYSUBUNIT => 181,
            Scancode::KP_LEFTPAREN => 182,
            Scancode::KP_RIGHTPAREN => 183,
            Scancode::KP_LEFTBRACE => 184,
            Scancode::KP_RIGHTBRACE => 185,
            Scancode::KP_TAB => 186,
            Scancode::KP_BACKSPACE => 187,
            Scancode::KP_A => 188,
            Scancode::KP_B => 189,
            Scancode::KP_C => 190,
            Scancode::KP_D => 191,
            Scancode::KP_E => 192,
            Scancode::KP_F => 193,
            Scancode::KP_XOR => 194,
            Scancode::KP_POWER => 195,
            Scancode::KP_PERCENT => 196,
            Scancode::KP_LESS => 197,
            Scancode::KP_GREATER => 198,
            Scancode::KP_AMPERSAND => 199,
            Scancode::KP_DBLAMPERSAND => 200,
            Scancode::KP_VERTICALBAR => 201,
            Scancode::KP_DBLVERTICALBAR => 202,
            Scancode::KP_COLON => 203,
            Scancode::KP_HASH => 204,
            Scancode::KP_SPACE => 205,
            Scancode::KP_AT => 206,
            Scancode::KP_EXCLAM => 207,
            Scancode::KP_MEMSTORE => 208,
            Scancode::KP_MEMRECALL => 209,
            Scancode::KP_MEMCLEAR => 210,
            Scancode::KP_MEMADD => 211,
            Scancode::KP_MEMSUBTRACT => 212,
            Scancode::KP_MEMMULTIPLY => 213,
            Scancode::KP_MEMDIVIDE => 214,
            Scancode::KP_PLUSMINUS => 215,
            Scancode::KP_CLEAR => 216,
            Scancode::KP_CLEARENTRY => 217,
            Scancode::KP_BINARY => 218,
            Scancode::KP_OCTAL => 219,
            Scancode::KP_DECIMAL => 220,
            Scancode::KP_HEXADECIMAL => 221,
            Scancode::LCTRL => 224,
            Scancode::LSHIFT => 225,
            Scancode::LALT => 226,
            Scancode::LGUI => 227,
            Scancode::RCTRL => 228,
            Scancode::RSHIFT => 229,
            Scancode::RALT => 230,
            Scancode::RGUI => 231,
            Scancode::MODE => 0x101,
            Scancode::AUDIONEXT => 0x102,
            Scancode::AUDIOPREV => 0x103,
            Scancode::AUDIOSTOP => 0x104,
            Scancode::AUDIOPLAY => 0x105,
            Scancode::AUDIOMUTE => 0x106,
            Scancode::MEDIASELECT => 0x107,
            Scancode::WWW => 0x108,
            Scancode::MAIL => 0x109,
            Scancode::CALCULATOR => 0x10a,
            Scancode::COMPUTER => 0x10b,
            Scancode::AC_SEARCH => 0x10c,
            Scancode::AC_HOME => 0x10d,
            Scancode::AC_BACK => 0x10e,
            Scancode::AC_FORWARD => 0x10f,
            Scancode::AC_STOP => 0x110,
            Scancode::AC_REFRESH => 0x111,
            Scancode::AC_BOOKMARKS => 0x112,
            Scancode::BRIGHTNESSDOWN => 0x113,
            Scancode::BRIGHTNESSUP => 0x114,
            Scancode::DISPLAYSWITCH => 0x115,
            Scancode::KBDILLUMTOGGLE => 0x116,
            Scancode::KBDILLUMDOWN => 0x117,
            Scancode::KBDILLUMUP => 0x118,
            Scancode::EJECT => 0x119,
            Scancode::SLEEP => 0x11a,
            Scancode::APP1 => 0x11b,
            Scancode::APP2 => 0x11c,
            Scancode::AUDIOREWIND => 0x11d,
            Scancode::AUDIOFASTFORWARD => 0x11e,
            Scancode::NUM_SCANCODES => 0x200,
        }
    }
}

/// The keycode of a key that has no character: its scancode with bit 30 set.
fn keycode_from_scancode(scancode: Scancode) -> (res: i32)
    ensures
        res == scancode.code() | (1i32 << 30u32),
{
    scancode.as_raw() | (1i32 << 30u32)
}

/// A virtual key: the character it types, or, for other keys, the scancode with bit 30 set.
#[derive(Clone, Copy)]
#[allow(non_camel_case_types)]
pub enum Keycode {
    UNKNOWN,
    RETURN,
    ESCAPE,
    BACKSPACE,
    TAB,
    SPACE,
    EXCLAIM,
    QUOTEDBL,
    HASH,
    PERCENT,
    DOLLAR,
    AMPERSAND,
    QUOTE,
    LEFTPAREN,
    RIGHTPAREN,
    ASTERISK,
    PLUS,
    COMMA,
    MINUS,
    PERIOD,
    SLASH,
    KEY_0,
    KEY_1,
    KEY_2,
    KEY_3,
    KEY_4,
    KEY_5,
    KEY_6,
    KEY_7,
    KEY_8,
    KEY_9,
    COLON,
    SEMICOLON,
    LESS,
    EQUALS,
    GREATER,
    QUESTION,
    AT,
    LEFTBRACKET,
    BACKSLASH,
    RIGHTBRACKET,
    CARET,
    UNDERSCORE,
    BACKQUOTE,
    a,
    b,
    c,
    d,
    e,
    f,
    g,
    h,
    i,
    j,
    k,
    l,
    m,
    n,
    o,
    p,
    q,
    r,
    s,
    t,
    u,
    v,
    w,
    x,
    y,
    z,
    CAPSLOCK,
    F1,
    F2,
    F3,
    F4,
    F5,
    F6,
    F7,
    F8,
    F9,
    F10,
    F11,
    F12,
    PRINTSCREEN,
    SCROLLLOCK,
    PAUSE,
    INSERT,
    HOME,
    PAGEUP,
    DELETE,
    END,
    PAGEDOWN,
    RIGHT,
    LEFT,
    DOWN,
    UP,
    NUMLOCKCLEAR,
    KP_DIVIDE,
    KP_MULTIPLY,
    KP_MINUS,
    KP_PLUS,
    KP_ENTER,
    KP_1,
    KP_2,
    KP_3,
    KP_4,
    KP_5,
    KP_6,
    KP_7,
    KP_8,
    KP_9,
    KP_0,
    KP_PERIOD,
    APPLICATION,
    POWER,
    KP_EQUALS,
    F13,
    F14,
    F15,
    F16,
    F17,
    F18,
    F19,
    F20,
    F21,
    F22,
    F23,
    F24,
    EXECUTE,
    HELP,
    MENU,
    SELECT,
    STOP,
    AGAIN,
    UNDO,
    CUT,
    COPY,
    PASTE,
    FIND,
    MUTE,
    VOLUMEUP,
    VOLUMEDOWN,
    KP_COMMA,
    KP_EQUALSAS400,
    ALTERASE,
    SYSREQ,
    CANCEL,
    CLEAR,
    PRIOR,
    RETURN2,
    SEPARATOR,
    OUT,
    OPER,
    CLEARAGAIN,
    CRSEL,
    EXSEL,
    KP_00,
    KP_000,
    THOUSANDSSEPARATOR,
    DECIMALSEPARATOR,
    CURRENCYUNIT,
    CURRENCYSUBUNIT,
    KP_LEFTPAREN,
    KP_RIGHTPAREN,
    KP_LEFTBRACE,
    KP_RIGHTBRACE,
    KP_TAB,
    KP_BACKSPACE,
    KP_A,
    KP_B,
    KP_C,
    KP_D,
    KP_E,
    KP_F,
    KP_XOR,
    KP_POWER,
    KP_PERCENT,
    KP_LESS,
    KP_GREATER,
    KP_AMPERSAND,
    KP_DBLAMPERSAND,
    KP_VERTICALBAR,
    KP_DBLVERTICALBAR,
    KP_COLON,
    KP_HASH,
    KP_SPACE,
    KP_AT,
    KP_EXCLAM,
    KP_MEMSTORE,
    KP_MEMRECALL,
    KP_MEMCLEAR,
    KP_MEMADD,
    KP_MEMSUBTRACT,
    KP_MEMMULTIPLY,
    KP_MEMDIVIDE,
    KP_PLUSMINUS,
    KP_CLEAR,
    KP_CLEARENTRY,
    KP_BINARY,
    KP_OCTAL,
    KP_DECIMAL,
    KP_HEXADECIMAL,
    LCTRL,
    LSHIFT,
    LALT,
    LGUI,
    RCTRL,
    RSHIFT,
    RALT,
    RGUI,
    MODE,
    AUDIONEXT,
    AUDIOPREV,
    AUDIOSTOP,
    AUDIOPLAY,
    AUDIOMUTE,
    MEDIASELECT,
    WWW,
    MAIL,
    CALCULATOR,
    COMPUTER,
    AC_SEARCH,
    AC_HOME,
    AC_BACK,
    AC_FORWARD,
    AC_STOP,
    AC_REFRESH,
    AC_BOOKMARKS,
    BRIGHTNESSDOWN,
    BRIGHTNESSUP,
    DISPLAYSWITCH,
    KBDILLUMTOGGLE,
    KBDILLUMDOWN,
    KBDILLUMUP,
    EJECT,
    SLEEP,
    APP1,
    APP2,
    AUDIOREWIND,
    AUDIOFASTFORWARD,
}

impl Keycode {
    /// The SDL code of this virtual key.
    pub open spec fn code(self) -> i32 {
        match self {
            Keycode::UNKNOWN => 0,
            Keycode::RETURN => 13,
            Keycode::ESCAPE => 27,
            Keycode::BACKSPACE => 8,
            Keycode::TAB => 9,
            Keycode::SPACE => 32,
            Keycode::EXCLAIM => 33,
            Keycode::QUOTEDBL => 34,
            Keycode::HASH => 35,
            Keycode::PERCENT => 37,
            Keycode::DOLLAR => 36,
            Keycode::AMPERSAND => 38,
            Keycode::QUOTE => 39,
            Keycode::LEFTPAREN => 40,
            Keycode::RIGHTPAREN => 41,
            Keycode::ASTERISK => 42,
            Keycode::PLUS => 43,
            Keycode::COMMA => 44,
            Keycode::MINUS => 45,
            Keycode::PERIOD => 46,
            Keycode::SLASH => 47,
            Keycode::KEY_0 => 48,
            Keycode::KEY_1 => 49,
            Keycode::KEY_2 => 50,
            Keycode::KEY_3 => 51,
            Keycode::KEY_4 => 52,
            Keycode::KEY_5 => 53,
            Keycode::KEY_6 => 54,
            Keycode::KEY_7 => 55,
            Keycode::KEY_8 => 56,
            Keycode::KEY_9 => 57,
            Keycode::COLON => 58,
            Keycode::SEMICOLON => 59,
            Keycode::LESS => 60,
            Keycode::EQUALS => 61,
            Keycode::GREATER => 62,
            Keycode::QUESTION => 63,
            Keycode::AT => 64,
            Keycode::LEFTBRACKET => 91,
            Keycode::BACKSLASH => 92,
            Keycode::RIGHTBRACKET => 93,
            Keycode::CARET => 94,
            Keycode::UNDERSCORE => 95,
            Keycode::BACKQUOTE => 96,
            Keycode::a => 97,
            Keycode::b => 98,
            Keycode::c => 99,
            Keycode::d => 100,
            Keycode::e => 101,
            Keycode::f => 102,
            Keycode::g => 103,
            Keycode::h => 104,
            Keycode::i => 105,
            Keycode::j => 106,
            Keycode::k => 107,
            Keycode::l => 108,
            Keycode::m => 109,
            Keycode::n => 110,
            Keycode::o => 111,
            Keycode::p => 112,
            Keycode::q => 113,
            Keycode::r => 114,
            Keycode::s => 115,
            Keycode::t => 116,
            Keycode::u => 117,
            Keycode::v => 118,
            Keycode::w => 119,
            Keycode::x => 120,
            Keycode::y => 121,
            Keycode::z => 122,
            Keycode::CAPSLOCK => Scancode::CAPSLOCK.code() | (1i32 << 30u32),
            Keycode::F1 => Scancode::F1.code() | (1i32 << 30u32),
            Keycode::F2 => Scancode::F2.code() | (1i32 << 30u32),
            Keycode::F3 => Scancode::F3.code() | (1i32 << 30u32),
            Keycode::F4 => Scancode::F4.code() | (1i32 << 30u32),
            Keycode::F5 => Scancode::F5.code() | (1i32 << 30u32),
            Keycode::F6 => Scancode::F6.code() | (1i32 << 30u32),
            Keycode::F7 => Scancode::F7.code() | (1i32 << 30u32),
            Keycode::F8 => Scancode::F8.code() | (1i32 << 30u32),
            Keycode::F9 => Scancode::F9.code() | (1i32 << 30u32),
            Keycode::F10 => Scancode::F10.code() | (1i32 << 30u32),
            Keycode::F11 => Scancode::F11.code() | (1i32 << 30u32),
            Keycode::F12 => Scancode::F12.code() | (1i32 << 30u32),
            Keycode::PRINTSCREEN => Scancode::PRINTSCREEN.code() | (1i32 << 30u32),
            Keycode::SCROLLLOCK => Scancode::SCROLLLOCK.code() | (1i32 << 30u32),
            Keycode::PAUSE => Scancode::PAUSE.code() | (1i32 << 30u32),
            Keycode::INSERT => Scancode::INSERT.code() | (1i32 << 30u32),
            Keycode::HOME => Scancode::HOME.code() | (1i32 << 30u32),
            Keycode::PAGEUP => Scancode::PAGEUP.code() | (1i32 << 30u32),
            Keycode::DELETE => 127,
            Keycode::END => Scancode::END.code() | (1i32 << 30u32),
            Keycode::PAGEDOWN => Scancode::PAGEDOWN.code() | (1i32 << 30u32),
            Keycode::RIGHT => Scancode::RIGHT.code() | (1i32 << 30u32),
            Keycode::LEFT => Scancode::LEFT.code() | (1i32 << 30u32),
            Keycode::DOWN => Scancode::DOWN.code() | (1i32 << 30u32),
            Keycode::UP => Scancode::UP.code() | (1i32 << 30u32),
            Keycode::NUMLOCKCLEAR => Scancode::NUMLOCKCLEAR.code() | (1i32 << 30u32),
            Keycode::KP_DIVIDE => Scancode::KP_DIVIDE.code() | (1i32 << 30u32),
            Keycode::KP_MULTIPLY => Scancode::KP_MULTIPLY.code() | (1i32 << 30u32),
            Keycode::KP_MINUS => Scancode::KP_MINUS.code() | (1i32 << 30u32),
            Keycode::KP_PLUS => Scancode::KP_PLUS.code() | (1i32 << 30u32),
            Keycode::KP_ENTER => Scancode::KP_ENTER.code() | (1i32 << 30u32),
            Keycode::KP_1 => Scancode::KP_1.code() | (1i32 << 30u32),
            Keycode::KP_2 => Scancode::KP_2.code() | (1i32 << 30u32),
            Keycode::KP_3 => Scancode::KP_3.code() | (1i32 << 30u32),
            Keycode::KP_4 => Scancode::KP_4.code() | (1i32 << 30u32),
            Keycode::KP_5 => Scancode::KP_5.code() | (1i32 << 30u32),
            Keycode::KP_6 => Scancode::KP_6.code() | (1i32 << 30u32),
            Keycode::KP_7 => Scancode::KP_7.code() | (1i32 << 30u32),
            Keycode::KP_8 => Scancode::KP_8.code() | (1i32 << 30u32),
            Keycode::KP_9 => Scancode::KP_9.code() | (1i32 << 30u32),
            Keycode::KP_0 => Scancode::KP_0.code() | (1i32 << 30u32),
            Keycode::KP_PERIOD => Scancode::KP_PERIOD.code() | (1i32 << 30u32),
            Keycode::APPLICATION => Scancode::APPLICATION.code() | (1i32 << 30u32),
            Keycode::POWER => Scancode::POWER.code() | (1i32 << 30u32),
            Keycode::KP_EQUALS => Scancode::KP_EQUALS.code() | (1i32 << 30u32),
            Keycode::F13 => Scancode::F13.code() | (1i32 << 30u32),
            Keycode::F14 => Scancode::F14.code() | (1i32 << 30u32),
            Keycode::F15 => Scancode::F15.code() | (1i32 << 30u32),
            Keycode::F16 => Scancode::F16.code() | (1i32 << 30u32),
            Keycode::F17 => Scancode::F17.code() | (1i32 << 30u32),
            Keycode::F18 => Scancode::F18.code() | (1i32 << 30u32),
            Keycode::F19 => Scancode::F19.code() | (1i32 << 30u32),
            Keycode::F20 => Scancode::F20.code() | (1i32 << 30u32),
            Keycode::F21 => Scancode::F21.code() | (1i32 << 30u32),
            Keycode::F22 => Scancode::F22.code() | (1i32 << 30u32),
            Keycode::F23 => Scancode::F23.code() | (1i32 << 30u32),
            Keycode::F24 => Scancode::F24.code() | (1i32 << 30u32),
            Keycode::EXECUTE => Scancode::EXECUTE.code() | (1i32 << 30u32),
            Keycode::HELP => Scancode::HELP.code() | (1i32 << 30u32),
            Keycode::MENU => Scancode::MENU.code() | (1i32 << 30u32),
            Keycode::SELECT => Scancode::SELECT.code() | (1i32 << 30u32),
            Keycode::STOP => Scancode::STOP.code() | (1i32 << 30u32),
            Keycode::AGAIN => Scancode::AGAIN.code() | (1i32 << 30u32),
            Keycode::UNDO => Scancode::UNDO.code() | (1i32 << 30u32),
            Keycode::CUT => Scancode::CUT.code() | (1i32 << 30u32),
            Keycode::COPY => Scancode::COPY.code() | (1i32 << 30u32),
            Keycode::PASTE => Scancode::PASTE.code() | (1i32 << 30u32),
            Keycode::FIND => Scancode::FIND.code() | (1i32 << 30u32),
            Keycode::MUTE => Scancode::MUTE.code() | (1i32 << 30u32),
            Keycode::VOLUMEUP => Scancode::VOLUMEUP.code() | (1i32 << 30u32),
            Keycode::VOLUMEDOWN => Scancode::VOLUMEDOWN.code() | (1i32 << 30u32),
            Keycode::KP_COMMA => Scancode::KP_COMMA.code() | (1i32 << 30u32),
            Keycode::KP_EQUALSAS400 => Scancode::KP_EQUALSAS400.code() | (1i32 << 30u32),
            Keycode::ALTERASE => Scancode::ALTERASE.code() | (1i32 << 30u32),
            Keycode::SYSREQ => Scancode::SYSREQ.code() | (1i32 << 30u32),
            Keycode::CANCEL => Scancode::CANCEL.code() | (1i32 << 30u32),
            Keycode::CLEAR => Scancode::CLEAR.code() | (1i32 << 30u32),
            Keycode::PRIOR => Scancode::PRIOR.code() | (1i32 << 30u32),
            Keycode::RETURN2 => Scancode::RETURN2.code() | (1i32 << 30u32),
            Keycode::SEPARATOR => Scancode::SEPARATOR.code() | (1i32 << 30u32),
            Keycode::OUT => Scancode::OUT.code() | (1i32 << 30u32),
            Keycode::OPER => Scancode::OPER.code() | (1i32 << 30u32),
            Keycode::CLEARAGAIN => Scancode::CLEARAGAIN.code() | (1i32 << 30u32),
            Keycode::CRSEL => Scancode::CRSEL.code() | (1i32 << 30u32),
            Keycode::EXSEL => Scancode::EXSEL.code() | (1i32 << 30u32),
            Keycode::KP_00 => Scancode::KP_00.code() | (1i32 << 30u32),
            Keycode::KP_000 => Scancode::KP_000.code() | (1i32 << 30u32),
            Keycode::THOUSANDSSEPARATOR => Scancode::THOUSANDSSEPARATOR.code() | (1i32 << 30u32),
            Keycode::DECIMALSEPARATOR => Scancode::DECIMALSEPARATOR.code() | (1i32 << 30u32),
            Keycode::CURRENCYUNIT => Scancode::CURRENCYUNIT.code() | (1i32 << 30u32),
            Keycode::CURRENCYSUBUNIT => Scancode::CURRENCYSUBUNIT.code() | (1i32 << 30u32),
            Keycode::KP_LEFTPAREN => Scancode::KP_LEFTPAREN.code() | (1i32 << 30u32),
            Keycode::KP_RIGHTPAREN => Scancode::KP_RIGHTPAREN.code() | (1i32 << 30u32),
            Keycode::KP_LEFTBRACE => Scancode::KP_LEFTBRACE.code() | (1i32 << 30u32),
            Keycode::KP_RIGHTBRACE => Scancode::KP_RIGHTBRACE.code() | (1i32 << 30u32),
            Keycode::KP_TAB => Scancode::KP_TAB.code() | (1i32 << 30u32),
            Keycode::KP_BACKSPACE => Scancode::KP_BACKSPACE.code() | (1i32 << 30u32),
            Keycode::KP_A => Scancode::KP_A.code() | (1i32 << 30u32),
            Keycode::KP_B => Scancode::KP_B.code() | (1i32 << 30u32),
            Keycode::KP_C => Scancode::KP_C.code() | (1i32 << 30u32),
            Keycode::KP_D => Scancode::KP_D.code() | (1i32 << 30u32),
            Keycode::KP_E => Scancode::KP_E.code() | (1i32 << 30u32),
            Keycode::KP_F => Scancode::KP_F.code() | (1i32 << 30u32),
            Keycode::KP_XOR => Scancode::KP_XOR.code() | (1i32 << 30u32),
            Keycode::KP_POWER => Scancode::KP_POWER.code() | (1i32 << 30u32),
            Keycode::KP_PERCENT => Scancode::KP_PERCENT.code() | (1i32 << 30u32),
            Keycode::KP_LESS => Scancode::KP_LESS.code() | (1i32 << 30u32),
            Keycode::KP_GREATER => Scancode::KP_GREATER.code() | (1i32 << 30u32),
            Keycode::KP_AMPERSAND => Scancode::KP_AMPERSAND.code() | (1i32 << 30u32),
            Keycode::KP_DBLAMPERSAND => Scancode::KP_DBLAMPERSAND.code() | (1i32 << 30u32),
            Keycode::KP_VERTICALBAR => Scancode::KP_VERTICALBAR.code() | (1i32 << 30u32),
            Keycode::KP_DBLVERTICALBAR => Scancode::KP_DBLVERTICALBAR.code() | (1i32 << 30u32),
            Keycode::KP_COLON => Scancode::KP_COLON.code() | (1i32 << 30u32),
            Keycode::KP_HASH => Scancode::KP_HASH.code() | (1i32 << 30u32),
            Keycode::KP_SPACE => Scancode::KP_SPACE.code() | (1i32 << 30u32),
            Keycode::KP_AT => Scancode::KP_AT.code() | (1i32 << 30u32),
            Keycode::KP_EXCLAM => Scancode::KP_EXCLAM.code() | (1i32 << 30u32),
            Keycode::KP_MEMSTORE => Scancode::KP_MEMSTORE.code() | (1i32 << 30u32),
            Keycode::KP_MEMRECALL => Scancode::KP_MEMRECALL.code() | (1i32 << 30u32),
            Keycode::KP_MEMCLEAR => Scancode::KP_MEMCLEAR.code() | (1i32 << 30u32),
            Keycode::KP_MEMADD => Scancode::KP_MEMADD.code() | (1i32 << 30u32),
            Keycode::KP_MEMSUBTRACT => Scancode::KP_MEMSUBTRACT.code() | (1i32 << 30u32),
            Keycode::KP_MEMMULTIPLY => Scancode::KP_MEMMULTIPLY.code() | (1i32 << 30u32),
            Keycode::KP_MEMDIVIDE => Scancode::KP_MEMDIVIDE.code() | (1i32 << 30u32),
            Keycode::KP_PLUSMINUS => Scancode::KP_PLUSMINUS.code() | (1i32 << 30u32),
            Keycode::KP_CLEAR => Scancode::KP_CLEAR.code() | (1i32 << 30u32),
            Keycode::KP_CLEARENTRY => Scancode::KP_CLEARENTRY.code() | (1i32 << 30u32),
            Keycode::KP_BINARY => Scancode::KP_BINARY.code() | (1i32 << 30u32),
            Keycode::KP_OCTAL => Scancode::KP_OCTAL.code() | (1i32 << 30u32),
            Keycode::KP_DECIMAL => Scancode::KP_DECIMAL.code() | (1i32 << 30u32),
            Keycode::KP_HEXADECIMAL => Scancode::KP_HEXADECIMAL.code() | (1i32 << 30u32),
            Keycode::LCTRL => Scancode::LCTRL.code() | (1i32 << 30u32),
            Keycode::LSHIFT => Scancode::LSHIFT.code() | (1i32 << 30u32),
            Keycode::LALT => Scancode::LALT.code() | (1i32 << 30u32),
            Keycode::LGUI => Scancode::LGUI.code() | (1i32 << 30u32),
            Keycode::RCTRL => Scancode::RCTRL.code() | (1i32 << 30u32),
            Keycode::RSHIFT => Scancode::RSHIFT.code() | (1i32 << 30u32),
            Keycode::RALT => Scancode::RALT.code() | (1i32 << 30u32),
            Keycode::RGUI => Scancode::RGUI.code() | (1i32 << 30u32),
            Keycode::MODE => Scancode::MODE.code() | (1i32 << 30u32),
            Keycode::AUDIONEXT => Scancode::AUDIONEXT.code() | (1i32 << 30u32),
            Keycode::AUDIOPREV => Scancode::AUDIOPREV.code() | (1i32 << 30u32),
            Keycode::AUDIOSTOP => Scancode::AUDIOSTOP.code() | (1i32 << 30u32),
            Keycode::AUDIOPLAY => Scancode::AUDIOPLAY.code() | (1i32 << 30u32),
            Keycode::AUDIOMUTE => Scancode::AUDIOMUTE.code() | (1i32 << 30u32),
            Keycode::MEDIASELECT => Scancode::MEDIASELECT.code() | (1i32 << 30u32),
            Keycode::WWW => Scancode::WWW.code() | (1i32 << 30u32),
            Keycode::MAIL => Scancode::MAIL.code() | (1i32 << 30u32),
            Keycode::CALCULATOR => Scancode::CALCULATOR.code() | (1i32 << 30u32),
            Keycode::COMPUTER => Scancode::COMPUTER.code() | (1i32 << 30u32),
            Keycode::AC_SEARCH => Scancode::AC_SEARCH.code() | (1i32 << 30u32),
            Keycode::AC_HOME => Scancode::AC_HOME.code() | (1i32 << 30u32),
            Keycode::AC_BACK => Scancode::AC_BACK.code() | (1i32 << 30u32),
            Keycode::AC_FORWARD => Scancode::AC_FORWARD.code() | (1i32 << 30u32),
            Keycode::AC_STOP => Scancode::AC_STOP.code() | (1i32 << 30u32),
            Keycode::AC_REFRESH => Scancode::AC_REFRESH.code() | (1i32 << 30u32),
            Keycode::AC_BOOKMARKS => Scancode::AC_BOOKMARKS.code() | (1i32 << 30u32),
            Keycode::BRIGHTNESSDOWN => Scancode::BRIGHTNESSDOWN.code() | (1i32 << 30u32),
            Keycode::BRIGHTNESSUP => Scancode::BRIGHTNESSUP.code() | (1i32 << 30u32),
            Keycode::DISPLAYSWITCH => Scancode::DISPLAYSWITCH.code() | (1i32 << 30u32),
            Keycode::KBDILLUMTOGGLE => Scancode::KBDILLUMTOGGLE.code() | (1i32 << 30u32),
            Keycode::KBDILLUMDOWN => Scancode::KBDILLUMDOWN.code() | (1i32 << 30u32),
            Keycode::KBDILLUMUP => Scancode::KBDILLUMUP.code() | (1i32 << 30u32),
            Keycode::EJECT => Scancode::EJECT.code() | (1i32 << 30u32),
            Keycode::SLEEP => Scancode::SLEEP.code() | (1i32 << 30u32),
            Keycode::APP1 => Scancode::APP1.code() | (1i32 << 30u32),
            Keycode::APP2 => Scancode::APP2.code() | (1i32 << 30u32),
            Keycode::AUDIOREWIND => Scancode::AUDIOREWIND.code() | (1i32 << 30u32),
            Keycode::AUDIOFASTFORWARD => Scancode::AUDIOFASTFORWARD.code() | (1i32 << 30u32),
        }
    }

    /// The SDL code of this virtual key.
    pub fn as_raw(self) -> (res: i32)
        ensures
            res == self.code(),
    {
        match self {
            Keycode::UNKNOWN => 0,
            Keycode::RETURN => 13,
            Keycode::ESCAPE => 27,
            Keycode::BACKSPACE => 8,
            Keycode::TAB => 9,
            Keycode::SPACE => 32,
            Keycode::EXCLAIM => 33,
            Keycode::QUOTEDBL => 34,
            Keycode::HASH => 35,
            Keycode::PERCENT => 37,
            Keycode::DOLLAR => 36,
            Keycode::AMPERSAND => 38,
            Keycode::QUOTE => 39,
            Keycode::LEFTPAREN => 40,
            Keycode::RIGHTPAREN => 41,
            Keycode::ASTERISK => 42,
            Keycode::PLUS => 43,
            Keycode::COMMA => 44,
            Keycode::MINUS => 45,
            Keycode::PERIOD => 46,
            Keycode::SLASH => 47,
            Keycode::KEY_0 => 48,
            Keycode::KEY_1 => 49,
            Keycode::KEY_2 => 50,
            Keycode::KEY_3 => 51,
            Keycode::KEY_4 => 52,
            Keycode::KEY_5 => 53,
            Keycode::KEY_6 => 54,
            Keycode::KEY_7 => 55,
            Keycode::KEY_8 => 56,
            Keycode::KEY_9 => 57,
            Keycode::COLON => 58,
            Keycode::SEMICOLON => 59,
            Keycode::LESS => 60,
            Keycode::EQUALS => 61,
            Keycode::GREATER => 62,
            Keycode::QUESTION => 63,
            Keycode::AT => 64,
            Keycode::LEFTBRACKET => 91,
            Keycode::BACKSLASH => 92,
            Keycode::RIGHTBRACKET => 93,
            Keycode::CARET => 94,
            Keycode::UNDERSCORE => 95,
            Keycode::BACKQUOTE => 96,
            Keycode::a => 97,
            Keycode::b => 98,
            Keycode::c => 99,
            Keycode::d => 100,
            Keycode::e => 101,
            Keycode::f => 102,
            Keycode::g => 103,
            Keycode::h => 104,
            Keycode::i => 105,
            Keycode::j => 106,
            Keycode::k => 107,
            Keycode::l => 108,
            Keycode::m => 109,
            Keycode::n => 110,
            Keycode::o => 111,
            Keycode::p => 112,
            Keycode::q => 113,
            Keycode::r => 114,
            Keycode::s => 115,
            Keycode::t => 116,
            Keycode::u => 117,
            Keycode::v => 118,
            Keycode::w => 119,
            Keycode::x => 120,
            Keycode::y => 121,
            Keycode::z => 122,
            Keycode::CAPSLOCK => keycode_from_scancode(Scancode::CAPSLOCK),
            Keycode::F1 => keycode_from_scancode(Scancode::F1),
            Keycode::F2 => keycode_from_scancode(Scancode::F2),
            Keycode::F3 => keycode_from_scancode(Scancode::F3),
            Keycode::F4 => keycode_from_scancode(Scancode::F4),
            Keycode::F5 => keycode_from_scancode(Scancode::F5),
            Keycode::F6 => keycode_from_scancode(Scancode::F6),
            Keycode::F7 => keycode_from_scancode(Scancode::F7),
            Keycode::F8 => keycode_from_scancode(Scancode::F8),
            Keycode::F9 => keycode_from_scancode(Scancode::F9),
            Keycode::F10 => keycode_from_scancode(Scancode::F10),
            Keycode::F11 => keycode_from_scancode(Scancode::F11),
            Keycode::F12 => keycode_from_scancode(Scancode::F12),
            Keycode::PRINTSCREEN => keycode_from_scancode(Scancode::PRINTSCREEN),
            Keycode::SCROLLLOCK => keycode_from_scancode(Scancode::SCROLLLOCK),
            Keycode::PAUSE => keycode_from_scancode(Scancode::PAUSE),
            Keycode::INSERT => keycode_from_scancode(Scancode::INSERT),
            Keycode::HOME => keycode_from_scancode(Scancode::HOME),
            Keycode::PAGEUP => keycode_from_scancode(Scancode::PAGEUP),
            Keycode::DELETE => 127,
            Keycode::END => keycode_from_scancode(Scancode::END),
            Keycode::PAGEDOWN => keycode_from_scancode(Scancode::PAGEDOWN),
            Keycode::RIGHT => keycode_from_scancode(Scancode::RIGHT),
            Keycode::LEFT => keycode_from_scancode(Scancode::LEFT),
            Keycode::DOWN => keycode_from_scancode(Scancode::DOWN),
            Keycode::UP => keycode_from_scancode(Scancode::UP),
            Keycode::NUMLOCKCLEAR => keycode_from_scancode(Scancode::NUMLOCKCLEAR),
            Keycode::KP_DIVIDE => keycode_from_scancode(Scancode::KP_DIVIDE),
            Keycode::KP_MULTIPLY => keycode_from_scancode(Scancode::KP_MULTIPLY),
            Keycode::KP_MINUS => keycode_from_scancode(Scancode::KP_MINUS),
            Keycode::KP_PLUS => keycode_from_scancode(Scancode::KP_PLUS),
            Keycode::KP_ENTER => keycode_from_scancode(Scancode::KP_ENTER),
            Keycode::KP_1 => keycode_from_scancode(Scancode::KP_1),
            Keycode::KP_2 => keycode_from_scancode(Scancode::KP_2),
            Keycode::KP_3 => keycode_from_scancode(Scancode::KP_3),
            Keycode::KP_4 => keycode_from_scancode(Scancode::KP_4),
            Keycode::KP_5 => keycode_from_scancode(Scancode::KP_5),
            Keycode::KP_6 => keycode_from_scancode(Scancode::KP_6),
            Keycode::KP_7 => keycode_from_scancode(Scancode::KP_7),
            Keycode::KP_8 => keycode_from_scancode(Scancode::KP_8),
            Keycode::KP_9 => keycode_from_scancode(Scancode::KP_9),
            Keycode::KP_0 => keycode_from_scancode(Scancode::KP_0),
            Keycode::KP_PERIOD => keycode_from_scancode(Scancode::KP_PERIOD),
            Keycode::APPLICATION => keycode_from_scancode(Scancode::APPLICATION),
            Keycode::POWER => keycode_from_scancode(Scancode::POWER),
            Keycode::KP_EQUALS => keycode_from_scancode(Scancode::KP_EQUALS),
            Keycode::F13 => keycode_from_scancode(Scancode::F13),
            Keycode::F14 => keycode_from_scancode(Scancode::F14),
            Keycode::F15 => keycode_from_scancode(Scancode::F15),
            Keycode::F16 => keycode_from_scancode(Scancode::F16),
            Keycode::F17 => keycode_from_scancode(Scancode::F17),
            Keycode::F18 => keycode_from_scancode(Scancode::F18),
            Keycode::F19 => keycode_from_scancode(Scancode::F19),
            Keycode::F20 => keycode_from_scancode(Scancode::F20),
            Keycode::F21 => keycode_from_scancode(Scancode::F21),
            Keycode::F22 => keycode_from_scancode(Scancode::F22),
            Keycode::F23 => keycode_from_scancode(Scancode::F23),
            Keycode::F24 => keycode_from_scancode(Scancode::F24),
            Keycode::EXECUTE => keycode_from_scancode(Scancode::EXECUTE),
            Keycode::HELP => keycode_from_scancode(Scancode::HELP),
            Keycode::MENU => keycode_from_scancode(Scancode::MENU),
            Keycode::SELECT => keycode_from_scancode(Scancode::SELECT),
            Keycode::STOP => keycode_from_scancode(Scancode::STOP),
            Keycode::AGAIN => keycode_from_scancode(Scancode::AGAIN),
            Keycode::UNDO => keycode_from_scancode(Scancode::UNDO),
            Keycode::CUT => keycode_from_scancode(Scancode::CUT),
            Keycode::COPY => keycode_from_scancode(Scancode::COPY),
            Keycode::PASTE => keycode_from_scancode(Scancode::PASTE),
            Keycode::FIND => keycode_from_scancode(Scancode::FIND),
            Keycode::MUTE => keycode_from_scancode(Scancode::MUTE),
            Keycode::VOLUMEUP => keycode_from_scancode(Scancode::VOLUMEUP),
            Keycode::VOLUMEDOWN => keycode_from_scancode(Scancode::VOLUMEDOWN),
            Keycode::KP_COMMA => keycode_from_scancode(Scancode::KP_COMMA),
            Keycode::KP_EQUALSAS400 => keycode_from_scancode(Scancode::KP_EQUALSAS400),
            Keycode::ALTERASE => keycode_from_scancode(Scancode::ALTERASE),
            Keycode::SYSREQ => keycode_from_scancode(Scancode::SYSREQ),
            Keycode::CANCEL => keycode_from_scancode(Scancode::CANCEL),
            Keycode::CLEAR => keycode_from_scancode(Scancode::CLEAR),
            Keycode::PRIOR => keycode_from_scancode(Scancode::PRIOR),
            Keycode::RETURN2 => keycode_from_scancode(Scancode::RETURN2),
            Keycode::SEPARATOR => keycode_from_scancode(Scancode::SEPARATOR),
            Keycode::OUT => keycode_from_scancode(Scancode::OUT),
            Keycode::OPER => keycode_from_scancode(Scancode::OPER),
            Keycode::CLEARAGAIN => keycode_from_scancode(Scancode::CLEARAGAIN),
            Keycode::CRSEL => keycode_from_scancode(Scancode::CRSEL),
            Keycode::EXSEL => keycode_from_scancode(Scancode::EXSEL),
            Keycode::KP_00 => keycode_from_scancode(Scancode::KP_00),
            Keycode::KP_000 => keycode_from_scancode(Scancode::KP_000),
            Keycode::THOUSANDSSEPARATOR => keycode_from_scancode(Scancode::THOUSANDSSEPARATOR),
            Keycode::DECIMALSEPARATOR => keycode_from_scancode(Scancode::DECIMALSEPARATOR),
            Keycode::CURRENCYUNIT => keycode_from_scancode(Scancode::CURRENCYUNIT),
            Keycode::CURRENCYSUBUNIT => keycode_from_scancode(Scancode::CURRENCYSUBUNIT),
            Keycode::KP_LEFTPAREN => keycode_from_scancode(Scancode::KP_LEFTPAREN),
            Keycode::KP_RIGHTPAREN => keycode_from_scancode(Scancode::KP_RIGHTPAREN),
            Keycode::KP_LEFTBRACE => keycode_from_scancode(Scancode::KP_LEFTBRACE),
            Keycode::KP_RIGHTBRACE => keycode_from_scancode(Scancode::KP_RIGHTBRACE),
            Keycode::KP_TAB => keycode_from_scancode(Scancode::KP_TAB),
            Keycode::KP_BACKSPACE => keycode_from_scancode(Scancode::KP_BACKSPACE),
            Keycode::KP_A => keycode_from_scancode(Scancode::KP_A),
            Keycode::KP_B => keycode_from_scancode(Scancode::KP_B),
            Keycode::KP_C => keycode_from_scancode(Scancode::KP_C),
            Keycode::KP_D => keycode_from_scancode(Scancode::KP_D),
            Keycode::KP_E => keycode_from_scancode(Scancode::KP_E),
            Keycode::KP_F => keycode_from_scancode(Scancode::KP_F),
            Keycode::KP_XOR => keycode_from_scancode(Scancode::KP_XOR),
            Keycode::KP_POWER => keycode_from_scancode(Scancode::KP_POWER),
            Keycode::KP_PERCENT => keycode_from_scancode(Scancode::KP_PERCENT),
            Keycode::KP_LESS => keycode_from_scancode(Scancode::KP_LESS),
            Keycode::KP_GREATER => keycode_from_scancode(Scancode::KP_GREATER),
            Keycode::KP_AMPERSAND => keycode_from_scancode(Scancode::KP_AMPERSAND),
            Keycode::KP_DBLAMPERSAND => keycode_from_scancode(Scancode::KP_DBLAMPERSAND),
            Keycode::KP_VERTICALBAR => keycode_from_scancode(Scancode::KP_VERTICALBAR),
            Keycode::KP_DBLVERTICALBAR => keycode_from_scancode(Scancode::KP_DBLVERTICALBAR),
            Keycode::KP_COLON => keycode_from_scancode(Scancode::KP_COLON),
            Keycode::KP_HASH => keycode_from_scancode(Scancode::KP_HASH),
            Keycode::KP_SPACE => keycode_from_scancode(Scancode::KP_SPACE),
            Keycode::KP_AT => keycode_from_scancode(Scancode::KP_AT),
            Keycode::KP_EXCLAM => keycode_from_scancode(Scancode::KP_EXCLAM),
            Keycode::KP_MEMSTORE => keycode_from_scancode(Scancode::KP_MEMSTORE),
            Keycode::KP_MEMRECALL => keycode_from_scancode(Scancode::KP_MEMRECALL),
            Keycode::KP_MEMCLEAR => keycode_from_scancode(Scancode::KP_MEMCLEAR),
            Keycode::KP_MEMADD => keycode_from_scancode(Scancode::KP_MEMADD),
            Keycode::KP_MEMSUBTRACT => keycode_from_scancode(Scancode::KP_MEMSUBTRACT),
            Keycode::KP_MEMMULTIPLY => keycode_from_scancode(Scancode::KP_MEMMULTIPLY),
            Keycode::KP_MEMDIVIDE => keycode_from_scancode(Scancode::KP_MEMDIVIDE),
            Keycode::KP_PLUSMINUS => keycode_from_scancode(Scancode::KP_PLUSMINUS),
            Keycode::KP_CLEAR => keycode_from_scancode(Scancode::KP_CLEAR),
            Keycode::KP_CLEARENTRY => keycode_from_scancode(Scancode::KP_CLEARENTRY),
            Keycode::KP_BINARY => keycode_from_scancode(Scancode::KP_BINARY),
            Keycode::KP_OCTAL => keycode_from_scancode(Scancode::KP_OCTAL),
            Keycode::KP_DECIMAL => keycode_from_scancode(Scancode::KP_DECIMAL),
            Keycode::KP_HEXADECIMAL => keycode_from_scancode(Scancode::KP_HEXADECIMAL),
            Keycode::LCTRL => keycode_from_scancode(Scancode::LCTRL),
            Keycode::LSHIFT => keycode_from_scancode(Scancode::LSHIFT),
            Keycode::LALT => keycode_from_scancode(Scancode::LALT),
            Keycode::LGUI => keycode_from_scancode(Scancode::LGUI),
            Keycode::RCTRL => keycode_from_scancode(Scancode::RCTRL),
            Keycode::RSHIFT => keycode_from_scancode(Scancode::RSHIFT),
            Keycode::RALT => keycode_from_scancode(Scancode::RALT),
            Keycode::RGUI => keycode_from_scancode(Scancode::RGUI),
            Keycode::MODE => keycode_from_scancode(Scancode::MODE),
            Keycode::AUDIONEXT => keycode_from_scancode(Scancode::AUDIONEXT),
            Keycode::AUDIOPREV => keycode_from_scancode(Scancode::AUDIOPREV),
            Keycode::AUDIOSTOP => keycode_from_scancode(Scancode::AUDIOSTOP),
            Keycode::AUDIOPLAY => keycode_from_scancode(Scancode::AUDIOPLAY),
            Keycode::AUDIOMUTE => keycode_from_scancode(Scancode::AUDIOMUTE),
            Keycode::MEDIASELECT => keycode_from_scancode(Scancode::MEDIASELECT),
            Keycode::WWW => keycode_from_scancode(Scancode::WWW),
            Keycode::MAIL => keycode_from_scancode(Scancode::MAIL),
            Keycode::CALCULATOR => keycode_from_scancode(Scancode::CALCULATOR),
            Keycode::COMPUTER => keycode_from_scancode(Scancode::COMPUTER),
            Keycode::AC_SEARCH => keycode_from_scancode(Scancode::AC_SEARCH),
            Keycode::AC_HOME => keycode_from_scancode(Scancode::AC_HOME),
            Keycode::AC_BACK => keycode_from_scancode(Scancode::AC_BACK),
            Keycode::AC_FORWARD => keycode_from_scancode(Scancode::AC_FORWARD),
            Keycode::AC_STOP => keycode_from_scancode(Scancode::AC_STOP),
            Keycode::AC_REFRESH => keycode_from_scancode(Scancode::AC_REFRESH),
            Keycode::AC_BOOKMARKS => keycode_from_scancode(Scancode::AC_BOOKMARKS),
            Keycode::BRIGHTNESSDOWN => keycode_from_scancode(Scancode::BRIGHTNESSDOWN),
            Keycode::BRIGHTNESSUP => keycode_from_scancode(Scancode::BRIGHTNESSUP),
            Keycode::DISPLAYSWITCH => keycode_from_scancode(Scancode::DISPLAYSWITCH),
            Keycode::KBDILLUMTOGGLE => keycode_from_scancode(Scancode::KBDILLUMTOGGLE),
            Keycode::KBDILLUMDOWN => keycode_from_scancode(Scancode::KBDILLUMDOWN),
            Keycode::KBDILLUMUP => keycode_from_scancode(Scancode::KBDILLUMUP),
            Keycode::EJECT => keycode_from_scancode(Scancode::EJECT),
            Keycode::SLEEP => keycode_from_scancode(Scancode::SLEEP),
            Keycode::APP1 => keycode_from_scancode(Scancode::APP1),
            Keycode::APP2 => keycode_from_scancode(Scancode::APP2),
            Keycode::AUDIOREWIND => keycode_from_scancode(Scancode::AUDIOREWIND),
            Keycode::AUDIOFASTFORWARD => keycode_from_scancode(Scancode::AUDIOFASTFORWARD),
        }
    }
}

/// The kind of an event.
#[derive(Clone, Copy, PartialEq, Eq, Structural)]
#[allow(non_camel_case_types)]
pub enum EventType {
    FIRSTEVENT,
    QUIT,
    APP_TERMINATING,
    APP_LOWMEMORY,
    APP_WILLENTERBACKGROUND,
    APP_DIDENTERBACKGROUND,
    APP_WILLENTERFOREGROUND,
    APP_DIDENTERFOREGROUND,
    LOCALECHANGED,
    DISPLAYEVENT,
    WINDOWEVENT,
    SYSWMEVENT,
    KEYDOWN,
    KEYUP,
    TEXTEDITING,
    TEXTINPUT,
    KEYMAPCHANGED,
    MOUSEMOTION,
    MOUSEBUTTONDOWN,
    MOUSEBUTTONUP,
    MOUSEWHEEL,
    JOYAXISMOTION,
    JOYBALLMOTION,
    JOYHATMOTION,
    JOYBUTTONDOWN,
    JOYBUTTONUP,
    JOYDEVICEADDED,
    JOYDEVICEREMOVED,
    CONTROLLERAXISMOTION,
    CONTROLLERBUTTONDOWN,
    CONTROLLERBUTTONUP,
    CONTROLLERDEVICEADDED,
    CONTROLLERDEVICEREMOVED,
    CONTROLLERDEVICEREMAPPED,
    CONTROLLERTOUCHPADDOWN,
    CONTROLLERTOUCHPADMOTION,
    CONTROLLERTOUCHPADUP,
    CONTROLLERSENSORUPDATE,
    FINGERDOWN,
    FINGERUP,
    FINGERMOTION,
    DOLLARGESTURE,
    DOLLARRECORD,
    MULTIGESTURE,
    CLIPBOARDUPDATE,
    DROPFILE,
    DROPTEXT,
    DROPBEGIN,
    DROPCOMPLETE,
    AUDIODEVICEADDED,
    AUDIODEVICEREMOVED,
    SENSORUPDATE,
    RENDER_TARGETS_RESET,
    RENDER_DEVICE_RESET,
    POLLSENTINEL,
    USEREVENT,
    LASTEVENT,
}

impl EventType {
    /// The number SDL gives this kind of event.
    pub open spec fn code(self) -> u32 {
        match self {
            EventType::FIRSTEVENT => 0,
            EventType::QUIT => 0x100,
            EventType::APP_TERMINATING => 0x101,
            EventType::APP_LOWMEMORY => 0x102,
            EventType::APP_WILLENTERBACKGROUND => 0x103,
            EventType::APP_DIDENTERBACKGROUND => 0x104,
            EventType::APP_WILLENTERFOREGROUND => 0x105,
            EventType::APP_DIDENTERFOREGROUND => 0x106,
            EventType::LOCALECHANGED => 0x107,
            EventType::DISPLAYEVENT => 0x150,
            EventType::WINDOWEVENT => 0x200,
            EventType::SYSWMEVENT => 0x201,
            EventType::KEYDOWN => 0x300,
            EventType::KEYUP => 0x301,
            EventType::TEXTEDITING => 0x302,
            EventType::TEXTINPUT => 0x303,
            EventType::KEYMAPCHANGED => 0x304,
            EventType::MOUSEMOTION => 0x400,
            EventType::MOUSEBUTTONDOWN => 0x401,
            EventType::MOUSEBUTTONUP => 0x402,
            EventType::MOUSEWHEEL => 0x403,
            EventType::JOYAXISMOTION => 0x600,
            EventType::JOYBALLMOTION => 0x601,
            EventType::JOYHATMOTION => 0x602,
            EventType::JOYBUTTONDOWN => 0x603,
            EventType::JOYBUTTONUP => 0x604,
            EventType::JOYDEVICEADDED => 0x605,
            EventType::JOYDEVICEREMOVED => 0x606,
            EventType::CONTROLLERAXISMOTION => 0x650,
            EventType::CONTROLLERBUTTONDOWN => 0x651,
            EventType::CONTROLLERBUTTONUP => 0x652,
            EventType::CONTROLLERDEVICEADDED => 0x653,
            EventType::CONTROLLERDEVICEREMOVED => 0x654,
            EventType::CONTROLLERDEVICEREMAPPED => 0x655,
            EventType::CONTROLLERTOUCHPADDOWN => 0x656,
            EventType::CONTROLLERTOUCHPADMOTION => 0x657,
            EventType::CONTROLLERTOUCHPADUP => 0x658,
            EventType::CONTROLLERSENSORUPDATE => 0x659,
            EventType::FINGERDOWN => 0x700,
            EventType::FINGERUP => 0x701,
            EventType::FINGERMOTION => 0x702,
            EventType::DOLLARGESTURE => 0x800,
            EventType::DOLLARRECORD => 0x801,
            EventType::MULTIGESTURE => 0x802,
            EventType::CLIPBOARDUPDATE => 0x900,
            EventType::DROPFILE => 0x1000,
            EventType::DROPTEXT => 0x1001,
            EventType::DROPBEGIN => 0x1002,
            EventType::DROPCOMPLETE => 0x1003,
            EventType::AUDIODEVICEADDED => 0x1100,
            EventType::AUDIODEVICEREMOVED => 0x1101,
            EventType::SENSORUPDATE => 0x1200,
            EventType::RENDER_TARGETS_RESET => 0x2000,
            EventType::RENDER_DEVICE_RESET => 0x2001,
            EventType::POLLSENTINEL => 0x7f00,
            EventType::USEREVENT => 0x8000,
            EventType::LASTEVENT => 0xffff,
        }
    }

    /// The number SDL gives this kind of event.
    pub fn as_raw(self) -> (res: u32)
        ensures
            res == self.code(),
    {
        match self {
            EventType::FIRSTEVENT => 0,
            EventType::QUIT => 0x100,
            EventType::APP_TERMINATING => 0x101,
            EventType::APP_LOWMEMORY => 0x102,
            EventType::APP_WILLENTERBACKGROUND => 0x103,
            EventType::APP_DIDENTERBACKGROUND => 0x104,
            EventType::APP_WILLENTERFOREGROUND => 0x105,
            EventType::APP_DIDENTERFOREGROUND => 0x106,
            EventType::LOCALECHANGED => 0x107,
            EventType::DISPLAYEVENT => 0x150,
            EventType::WINDOWEVENT => 0x200,
            EventType::SYSWMEVENT => 0x201,
            EventType::KEYDOWN => 0x300,
            EventType::KEYUP => 0x301,
            EventType::TEXTEDITING => 0x302,
            EventType::TEXTINPUT => 0x303,
            EventType::KEYMAPCHANGED => 0x304,
            EventType::MOUSEMOTION => 0x400,
            EventType::MOUSEBUTTONDOWN => 0x401,
            EventType::MOUSEBUTTONUP => 0x402,
            EventType::MOUSEWHEEL => 0x403,
            EventType::JOYAXISMOTION => 0x600,
            EventType::JOYBALLMOTION => 0x601,
            EventType::JOYHATMOTION => 0x602,
            EventType::JOYBUTTONDOWN => 0x603,
            EventType::JOYBUTTONUP => 0x604,
            EventType::JOYDEVICEADDED => 0x605,
            EventType::JOYDEVICEREMOVED => 0x606,
            EventType::CONTROLLERAXISMOTION => 0x650,
            EventType::CONTROLLERBUTTONDOWN => 0x651,
            EventType::CONTROLLERBUTTONUP => 0x652,
            EventType::CONTROLLERDEVICEADDED => 0x653,
            EventType::CONTROLLERDEVICEREMOVED => 0x654,
            EventType::CONTROLLERDEVICEREMAPPED => 0x655,
            EventType::CONTROLLERTOUCHPADDOWN => 0x656,
            EventType::CONTROLLERTOUCHPADMOTION => 0x657,
            EventType::CONTROLLERTOUCHPADUP => 0x658,
            EventType::CONTROLLERSENSORUPDATE => 0x659,
            EventType::FINGERDOWN => 0x700,
            EventType::FINGERUP => 0x701,
            EventType::FINGERMOTION => 0x702,
            EventType::DOLLARGESTURE => 0x800,
            EventType::DOLLARRECORD => 0x801,
            EventType::MULTIGESTURE => 0x802,
            EventType::CLIPBOARDUPDATE => 0x900,
            EventType::DROPFILE => 0x1000,
            EventType::DROPTEXT => 0x1001,
            EventType::DROPBEGIN => 0x1002,
            EventType::DROPCOMPLETE => 0x1003,
            EventType::AUDIODEVICEADDED => 0x1100,
            EventType::AUDIODEVICEREMOVED => 0x1101,
            EventType::SENSORUPDATE => 0x1200,
            EventType::RENDER_TARGETS_RESET => 0x2000,
            EventType::RENDER_DEVICE_RESET => 0x2001,
            EventType::POLLSENTINEL => 0x7f00,
            EventType::USEREVENT => 0x8000,
            EventType::LASTEVENT => 0xffff,
        }
    }
}

/// What happened to a window.
#[derive(Clone, Copy, PartialEq, Eq, Structural)]
pub enum WindowEventId {
    /// Never used.
    Unused,
    /// Window has been shown.
    Shown,
    /// Window has been hidden.
    Hidden,
    /// Window has been exposed and should be redrawn.
    Exposed,
    /// Window has been moved to data1, data2.
    Moved,
    /// Window has been resized to data1xdata2.
    Resized,
    /// The window size has changed, either as a result of an API call or through the system or user changing the window size.
    SizeChanged,
    /// Window has been minimized.
    Minimized,
    /// Window has been maximized.
    Maximized,
    /// Window has been restored to normal size and position.
    Restored,
    /// Window has gained mouse focus.
    Enter,
    /// Window has lost mouse focus.
    Leave,
    /// Window has gained keyboard focus.
    FocusGained,
    /// Window has lost keyboard focus.
    FocusLost,
    /// The window manager requests that the window be closed.
    Close,
    /// Window is being offered a focus (should SetWindowInputFocus() on itself or a subwindow, or ignore).
    TakeFocus,
    /// Window had a hit test that wasn't SDL_HITTEST_NORMAL.
    HitTest,
    /// The ICC profile of the window's display has changed.
    IccprofChanged,
    /// Window has been moved to display data1.
    DisplayChanged,
}

impl WindowEventId {
    /// The number SDL gives this window event.
    pub open spec fn code(self) -> u8 {
        match self {
            WindowEventId::Unused => 0,
            WindowEventId::Shown => 1,
            WindowEventId::Hidden => 2,
            WindowEventId::Exposed => 3,
            WindowEventId::Moved => 4,
            WindowEventId::Resized => 5,
            WindowEventId::SizeChanged => 6,
            WindowEventId::Minimized => 7,
            WindowEventId::Maximized => 8,
            WindowEventId::Restored => 9,
            WindowEventId::Enter => 10,
            WindowEventId::Leave => 11,
            WindowEventId::FocusGained => 12,
            WindowEventId::FocusLost => 13,
            WindowEventId::Close => 14,
            WindowEventId::TakeFocus => 15,
            WindowEventId::HitTest => 16,
            WindowEventId::IccprofChanged => 17,
            WindowEventId::DisplayChanged => 18,
        }
    }

    /// The number SDL gives this window event.
    pub fn as_raw(self) -> (res: u8)
        ensures
            res == self.code(),
    {
        match self {
            WindowEventId::Unused => 0,
            WindowEventId::Shown => 1,
            WindowEventId::Hidden => 2,
            WindowEventId::Exposed => 3,
            WindowEventId::Moved => 4,
            WindowEventId::Resized => 5,
            WindowEventId::SizeChanged => 6,
            WindowEventId::Minimized => 7,
            WindowEventId::Maximized => 8,
            WindowEventId::Restored => 9,
            WindowEventId::Enter => 10,
            WindowEventId::Leave => 11,
            WindowEventId::FocusGained => 12,
            WindowEventId::FocusLost => 13,
            WindowEventId::Close => 14,
            WindowEventId::TakeFocus => 15,
            WindowEventId::HitTest => 16,
            WindowEventId::IccprofChanged => 17,
            WindowEventId::DisplayChanged => 18,
        }
    }
}

/// The windowing system underneath SDL.
#[allow(non_camel_case_types)]
pub enum SysWMType {
    UNKNOWN,
    WINDOWS,
    X11,
    DIRECTFB,
    COCOA,
    UIKIT,
    WAYLAND,
    MIR,
    WINRT,
    ANDROID,
    VIVANTE,
    OS2,
    HAIKU,
    KMSDRM,
    RISCOS,
}

impl SysWMType {
    /// The number SDL gives this windowing system.
    pub open spec fn code(self) -> i32 {
        match self {
            SysWMType::UNKNOWN => 0,
            SysWMType::WINDOWS => 1,
            SysWMType::X11 => 2,
            SysWMType::DIRECTFB => 3,
            SysWMType::COCOA => 4,
            SysWMType::UIKIT => 5,
            SysWMType::WAYLAND => 6,
            SysWMType::MIR => 7,
            SysWMType::WINRT => 8,
            SysWMType::ANDROID => 9,
            SysWMType::VIVANTE => 10,
            SysWMType::OS2 => 11,
            SysWMType::HAIKU => 12,
            SysWMType::KMSDRM => 13,
            SysWMType::RISCOS => 14,
        }
    }

    /// The number SDL gives this windowing system.
    pub fn as_raw(self) -> (res: i32)
        ensures
            res == self.code(),
    {
        match self {
            SysWMType::UNKNOWN => 0,
            SysWMType::WINDOWS => 1,
            SysWMType::X11 => 2,
            SysWMType::DIRECTFB => 3,
            SysWMType::COCOA => 4,
            SysWMType::UIKIT => 5,
            SysWMType::WAYLAND => 6,
            SysWMType::MIR => 7,
            SysWMType::WINRT => 8,
            SysWMType::ANDROID => 9,
            SysWMType::VIVANTE => 10,
            SysWMType::OS2 => 11,
            SysWMType::HAIKU => 12,
            SysWMType::KMSDRM => 13,
            SysWMType::RISCOS => 14,
        }
    }
}

/// Keyboard modifier state, a bit mask.
#[derive(Clone, Copy, PartialEq, Eq, Structural)]
pub struct Keymod(pub u16);

/// An SDL version number.
#[derive(Clone, Copy, PartialEq, Eq, Structural, Debug)]
pub struct Version {
    pub major: u8,
    pub minor: u8,
    pub patch: u8,
}

impl Version {
    /// The version of SDL these bindings were written for.
    pub fn current() -> (res: Self)
        ensures
            res == (Version { major: MAJOR_VERSION, minor: MINOR_VERSION, patch: PATCH_VERSION }),
    {
        Self { major: MAJOR_VERSION, minor: MINOR_VERSION, patch: PATCH_VERSION }
    }
}

/// A window, only ever handled by reference.
pub struct Window {
    _unused: [u8; 0],
}

pub type JoystickID = i32;

pub type TouchID = i64;

pub type FingerID = i64;

pub type GestureID = i64;

/// A key press: the physical key, the virtual key and the modifiers held.
#[derive(Clone, Copy)]
pub struct Keysym {
    pub scancode: Scancode,
    pub sym: Keycode,
    pub modifiers: Keymod,
    pub _unused: u32,
}

/// The fields every event starts with.
#[derive(Clone, Copy)]
pub struct CommonEvent {
    pub type_: EventType,
    pub timestamp: u32,
}

/// A display changed.
#[derive(Clone, Copy)]
pub struct DisplayEvent {
    pub type_: EventType,
    pub timestamp: u32,
    pub display: u32,
    pub event: u8,
    pub _padding1: u8,
    pub _padding2: u8,
    pub _padding3: u8,
    pub data1: i32,
}

/// A window changed.
#[derive(Clone, Copy)]
pub struct WindowEvent {
    pub type_: EventType,
    pub timestamp: u32,
    pub window_id: u32,
    pub event: WindowEventId,
    pub padding1: u8,
    pub padding2: u8,
    pub padding3: u8,
    pub data1: i32,
    pub data2: i32,
}

/// A key went down or up.
#[derive(Clone, Copy)]
pub struct KeyboardEvent {
    pub type_: EventType,
    pub timestamp: u32,
    pub window_id: u32,
    pub state: PressedState,
    pub repeat: u8,
    pub _padding2: u8,
    pub _padding3: u8,
    pub keysym: Keysym,
}

const TEXTEDITINGEVENT_TEXT_SIZE: usize = 32;

/// Text being composed by an input method.
#[derive(Clone, Copy)]
pub struct TextEditingEvent {
    pub type_: EventType,
    pub timestamp: u32,
    pub window_id: u32,
    pub text: [u8; TEXTEDITINGEVENT_TEXT_SIZE],
    pub start: i32,
    pub length: i32,
}

const TEXTINPUTEVENT_TEXT_SIZE: usize = 32;

/// Text was entered.
#[derive(Clone, Copy)]
pub struct TextInputEvent {
    pub type_: EventType,
    pub timestamp: u32,
    pub window_id: u32,
    pub text: [u8; TEXTINPUTEVENT_TEXT_SIZE],
}

/// The mouse moved.
#[derive(Clone, Copy)]
pub struct MouseMotionEvent {
    pub type_: EventType,
    pub timestamp: u32,
    pub window_id: u32,
    pub which: u32,
    pub state: u32,
    pub x: i32,
    pub y: i32,
    pub xrel: i32,
    pub yrel: i32,
}

/// A mouse button went down or up.
#[derive(Clone, Copy)]
pub struct MouseButtonEvent {
    pub type_: EventType,
    pub timestamp: u32,
    pub window_id: u32,
    pub which: u32,
    pub button: MouseButton,
    pub state: PressedState,
    pub clicks: u8,
    pub padding1: u8,
    pub x: i32,
    pub y: i32,
}

/// The mouse wheel turned.
#[derive(Clone, Copy)]
pub struct MouseWheelEvent {
    pub type_: EventType,
    pub timestamp: u32,
    pub window_id: u32,
    pub which: u32,
    pub x: i32,
    pub y: i32,
    pub direction: u32,
}

/// A joystick axis moved.
#[derive(Clone, Copy)]
pub struct JoyAxisEvent {
    pub type_: EventType,
    pub timestamp: u32,
    pub which: JoystickID,
    pub axis: u8,
    pub padding1: u8,
    pub padding2: u8,
    pub padding3: u8,
    pub value: i16,
    pub padding4: u16,
}

/// A joystick trackball moved.
#[derive(Clone, Copy)]
pub struct JoyBallEvent {
    pub type_: EventType,
    pub timestamp: u32,
    pub which: JoystickID,
    pub ball: u8,
    pub padding1: u8,
    pub padding2: u8,
    pub padding3: u8,
    pub xrel: i16,
    pub yrel: i16,
}

/// A joystick hat moved.
#[derive(Clone, Copy)]
pub struct JoyHatEvent {
    pub type_: EventType,
    pub timestamp: u32,
    pub which: JoystickID,
    pub hat: u8,
    pub value: u8,
    pub padding1: u8,
    pub padding2: u8,
}

/// A joystick button went down or up.
#[derive(Clone, Copy)]
pub struct JoyButtonEvent {
    pub type_: EventType,
    pub timestamp: u32,
    pub which: JoystickID,
    pub button: u8,
    pub state: u8,
    pub padding1: u8,
    pub padding2: u8,
}

/// A joystick was added or removed.
#[derive(Clone, Copy)]
pub struct JoyDeviceEvent {
    pub type_: EventType,
    pub timestamp: u32,
    pub which: i32,
}

/// A game controller axis moved.
#[derive(Clone, Copy)]
pub struct ControllerAxisEvent {
    pub type_: EventType,
    pub timestamp: u32,
    pub which: JoystickID,
    pub axis: u8,
    pub padding1: u8,
    pub padding2: u8,
    pub padding3: u8,
    pub value: i16,
    pub padding4: u16,
}

/// A game controller button went down or up.
#[derive(Clone, Copy)]
pub struct ControllerButtonEvent {
    pub type_: EventType,
    pub timestamp: u32,
    pub which: JoystickID,
    pub button: u8,
    pub state: u8,
    pub padding1: u8,
    pub padding2: u8,
}

/// A game controller was added, removed or remapped.
#[derive(Clone, Copy)]
pub struct ControllerDeviceEvent {
    pub type_: EventType,
    pub timestamp: u32,
    pub which: i32,
}

/// An audio device was added or removed.
#[derive(Clone, Copy)]
pub struct AudioDeviceEvent {
    pub type_: EventType,
    pub timestamp: u32,
    pub which: u32,
    pub iscapture: u8,
    pub padding1: u8,
    pub padding2: u8,
    pub padding3: u8,
}

/// The application was asked to quit.
#[derive(Clone, Copy)]
pub struct QuitEvent {
    pub type_: EventType,
    pub timestamp: u32,
}

/// An event of the operating system.
#[derive(Clone, Copy)]
pub struct OSEvent {
    pub type_: EventType,
    pub timestamp: u32,
}

/// A message of the windowing system, only ever handled by reference.
pub struct SysWMmsg {
    _unused: [u8; 0],
}


/// Setting bit 30 of a code below `2^30` adds `2^30` to it.
proof fn lemma_set_bit_30(x: i32)
    requires
        0 <= x < 0x4000_0000,
    ensures
        x | (1i32 << 30u32) == x + 0x4000_0000,
{
    assert(0 <= x < 0x4000_0000 ==> x | (1i32 << 30u32) == x + 0x4000_0000) by (bit_vector);
}

/// The key of the `n`-th letter of the alphabet, counting from zero.
pub open spec fn letter_scancode(n: u8) -> Scancode {
    match n {
        0 => Scancode::A,
        1 => Scancode::B,
        2 => Scancode::C,
        3 => Scancode::D,
        4 => Scancode::E,
        5 => Scancode::F,
        6 => Scancode::G,
        7 => Scancode::H,
        8 => Scancode::I,
        9 => Scancode::J,
        10 => Scancode::K,
        11 => Scancode::L,
        12 => Scancode::M,
        13 => Scancode::N,
        14 => Scancode::O,
        15 => Scancode::P,
        16 => Scancode::Q,
        17 => Scancode::R,
        18 => Scancode::S,
        19 => Scancode::T,
        20 => Scancode::U,
        21 => Scancode::V,
        22 => Scancode::W,
        23 => Scancode::X,
        24 => Scancode::Y,
        25 => Scancode::Z,
        _ => Scancode::UNKNOWN,
    }
}

/// The keycode of the `n`-th lower-case letter of the alphabet, counting from zero.
pub open spec fn letter_keycode(n: u8) -> Keycode {
    match n {
        0 => Keycode::a,
        1 => Keycode::b,
        2 => Keycode::c,
        3 => Keycode::d,
        4 => Keycode::e,
        5 => Keycode::f,
        6 => Keycode::g,
        7 => Keycode::h,
        8 => Keycode::i,
        9 => Keycode::j,
        10 => Keycode::k,
        11 => Keycode::l,
        12 => Keycode::m,
        13 => Keycode::n,
        14 => Keycode::o,
        15 => Keycode::p,
        16 => Keycode::q,
        17 => Keycode::r,
        18 => Keycode::s,
        19 => Keycode::t,
        20 => Keycode::u,
        21 => Keycode::v,
        22 => Keycode::w,
        23 => Keycode::x,
        24 => Keycode::y,
        25 => Keycode::z,
        _ => Keycode::UNKNOWN,
    }
}

/// The key of the digit `d`.
pub open spec fn digit_scancode(d: u8) -> Scancode {
    match d {
        0 => Scancode::SCANCODE_0,
        1 => Scancode::SCANCODE_1,
        2 => Scancode::SCANCODE_2,
        3 => Scancode::SCANCODE_3,
        4 => Scancode::SCANCODE_4,
        5 => Scancode::SCANCODE_5,
        6 => Scancode::SCANCODE_6,
        7 => Scancode::SCANCODE_7,
        8 => Scancode::SCANCODE_8,
        9 => Scancode::SCANCODE_9,
        _ => Scancode::UNKNOWN,
    }
}

/// The function key `F<n>`.
pub open spec fn function_scancode(n: u8) -> Scancode {
    match n {
        1 => Scancode::F1,
        2 => Scancode::F2,
        3 => Scancode::F3,
        4 => Scancode::F4,
        5 => Scancode::F5,
        6 => Scancode::F6,
        7 => Scancode::F7,
        8 => Scancode::F8,
        9 => Scancode::F9,
        10 => Scancode::F10,
        11 => Scancode::F11,
        12 => Scancode::F12,
        _ => Scancode::UNKNOWN,
    }
}

/// Letter keys carry their USB keyboard usage: `A` is 4 and each letter one more than the letter
/// before it.
pub proof fn law_scancode_letters(n: u8)
    requires
        n < 26,
    ensures
        letter_scancode(n).code() == 4 + n,
{
}

/// Digit keys carry their USB keyboard usage: `1` to `9` are 30 to 38, and `0` follows `9` as 39.
pub proof fn law_scancode_digits(d: u8)
    requires
        d < 10,
    ensures
        1 <= d ==> digit_scancode(d).code() == 29 + d,
        d == 0 ==> digit_scancode(d).code() == 39,
{
}

/// Function keys `F1` to `F12` carry their USB keyboard usages 58 to 69.
pub proof fn law_scancode_function_keys(n: u8)
    requires
        1 <= n <= 12,
    ensures
        function_scancode(n).code() == 57 + n,
{
}

/// The keycode of a letter key is the letter's lower-case character.
pub proof fn law_keycode_letters(n: u8)
    requires
        n < 26,
    ensures
        letter_keycode(n).code() == 'a' as i32 + n,
{
}

/// Mouse buttons are numbered from one in the order left, middle, right, first extra, second
/// extra.
pub proof fn law_mouse_button_numbers()
    ensures
        MouseButton::Left.code() == 1,
        MouseButton::Middle.code() == MouseButton::Left.code() + 1,
        MouseButton::Right.code() == MouseButton::Middle.code() + 1,
        MouseButton::X1.code() == MouseButton::Right.code() + 1,
        MouseButton::X2.code() == MouseButton::X1.code() + 1,
{
}

/// The values follow the order of the list: `False` is 0 and `True` is 1.
pub proof fn law_bool_numbered_in_order()
    ensures
        Bool::False.code() == 0,
        Bool::True.code() == Bool::False.code() + 1,
{
}

/// The values follow the order of the list: `Released` is 0 and `Pressed` is 1.
pub proof fn law_pressed_state_numbered_in_order()
    ensures
        PressedState::Released.code() == 0,
        PressedState::Pressed.code() == PressedState::Released.code() + 1,
{
}

/// The values follow the order of the list: window events are numbered from 0 in the order SDL lists them.
pub proof fn law_window_event_id_numbered_in_order()
    ensures
        WindowEventId::Unused.code() == 0,
        WindowEventId::Shown.code() == WindowEventId::Unused.code() + 1,
        WindowEventId::Hidden.code() == WindowEventId::Shown.code() + 1,
        WindowEventId::Exposed.code() == WindowEventId::Hidden.code() + 1,
        WindowEventId::Moved.code() == WindowEventId::Exposed.code() + 1,
        WindowEventId::Resized.code() == WindowEventId::Moved.code() + 1,
        WindowEventId::SizeChanged.code() == WindowEventId::Resized.code() + 1,
        WindowEventId::Minimized.code() == WindowEventId::SizeChanged.code() + 1,
        WindowEventId::Maximized.code() == WindowEventId::Minimized.code() + 1,
        WindowEventId::Restored.code() == WindowEventId::Maximized.code() + 1,
        WindowEventId::Enter.code() == WindowEventId::Restored.code() + 1,
        WindowEventId::Leave.code() == WindowEventId::Enter.code() + 1,
        WindowEventId::FocusGained.code() == WindowEventId::Leave.code() + 1,
        WindowEventId::FocusLost.code() == WindowEventId::FocusGained.code() + 1,
        WindowEventId::Close.code() == WindowEventId::FocusLost.code() + 1,
        WindowEventId::TakeFocus.code() == WindowEventId::Close.code() + 1,
        WindowEventId::HitTest.code() == WindowEventId::TakeFocus.code() + 1,
        WindowEventId::IccprofChanged.code() == WindowEventId::HitTest.code() + 1,
        WindowEventId::DisplayChanged.code() == WindowEventId::IccprofChanged.code() + 1,
{
}

/// The values follow the order of the list: windowing systems are numbered from 0 in the order SDL lists them.
pub proof fn law_sys_w_m_type_numbered_in_order()
    ensures
        SysWMType::UNKNOWN.code() == 0,
        SysWMType::WINDOWS.code() == SysWMType::UNKNOWN.code() + 1,
        SysWMType::X11.code() == SysWMType::WINDOWS.code() + 1,
        SysWMType::DIRECTFB.code() == SysWMType::X11.code() + 1,
        SysWMType::COCOA.code() == SysWMType::DIRECTFB.code() + 1,
        SysWMType::UIKIT.code() == SysWMType::COCOA.code() + 1,
        SysWMType::WAYLAND.code() == SysWMType::UIKIT.code() + 1,
        SysWMType::MIR.code() == SysWMType::WAYLAND.code() + 1,
        SysWMType::WINRT.code() == SysWMType::MIR.code() + 1,
        SysWMType::ANDROID.code() == SysWMType::WINRT.code() + 1,
        SysWMType::VIVANTE.code() == SysWMType::ANDROID.code() + 1,
        SysWMType::OS2.code() == SysWMType::VIVANTE.code() + 1,
        SysWMType::HAIKU.code() == SysWMType::OS2.code() + 1,
        SysWMType::KMSDRM.code() == SysWMType::HAIKU.code() + 1,
        SysWMType::RISCOS.code() == SysWMType::KMSDRM.code() + 1,
{
}

/// Kinds of events that SDL lists without a number of their own are numbered one after the kind
/// before them: the numbering runs on within each group, such as the mouse events from
/// `MOUSEMOTION` on.
pub proof fn law_event_type_groups_count_up()
    ensures
        EventType::APP_TERMINATING.code() == EventType::QUIT.code() + 1,
        EventType::APP_LOWMEMORY.code() == EventType::APP_TERMINATING.code() + 1,
        EventType::APP_WILLENTERBACKGROUND.code() == EventType::APP_LOWMEMORY.code() + 1,
        EventType::APP_DIDENTERBACKGROUND.code() == EventType::APP_WILLENTERBACKGROUND.code() + 1,
        EventType::APP_WILLENTERFOREGROUND.code() == EventType::APP_DIDENTERBACKGROUND.code() + 1,
        EventType::APP_DIDENTERFOREGROUND.code() == EventType::APP_WILLENTERFOREGROUND.code() + 1,
        EventType::LOCALECHANGED.code() == EventType::APP_DIDENTERFOREGROUND.code() + 1,
        EventType::SYSWMEVENT.code() == EventType::WINDOWEVENT.code() + 1,
        EventType::KEYUP.code() == EventType::KEYDOWN.code() + 1,
        EventType::TEXTEDITING.code() == EventType::KEYUP.code() + 1,
        EventType::TEXTINPUT.code() == EventType::TEXTEDITING.code() + 1,
        EventType::KEYMAPCHANGED.code() == EventType::TEXTINPUT.code() + 1,
        EventType::MOUSEBUTTONDOWN.code() == EventType::MOUSEMOTION.code() + 1,
        EventType::MOUSEBUTTONUP.code() == EventType::MOUSEBUTTONDOWN.code() + 1,
        EventType::MOUSEWHEEL.code() == EventType::MOUSEBUTTONUP.code() + 1,
        EventType::JOYBALLMOTION.code() == EventType::JOYAXISMOTION.code() + 1,
        EventType::JOYHATMOTION.code() == EventType::JOYBALLMOTION.code() + 1,
        EventType::JOYBUTTONDOWN.code() == EventType::JOYHATMOTION.code() + 1,
        EventType::JOYBUTTONUP.code() == EventType::JOYBUTTONDOWN.code() + 1,
        EventType::JOYDEVICEADDED.code() == EventType::JOYBUTTONUP.code() + 1,
        EventType::JOYDEVICEREMOVED.code() == EventType::JOYDEVICEADDED.code() + 1,
        EventType::CONTROLLERBUTTONDOWN.code() == EventType::CONTROLLERAXISMOTION.code() + 1,
        EventType::CONTROLLERBUTTONUP.code() == EventType::CONTROLLERBUTTONDOWN.code() + 1,
        EventType::CONTROLLERDEVICEADDED.code() == EventType::CONTROLLERBUTTONUP.code() + 1,
        EventType::CONTROLLERDEVICEREMOVED.code() == EventType::CONTROLLERDEVICEADDED.code() + 1,
        EventType::CONTROLLERDEVICEREMAPPED.code() == EventType::CONTROLLERDEVICEREMOVED.code() + 1,
        EventType::CONTROLLERTOUCHPADDOWN.code() == EventType::CONTROLLERDEVICEREMAPPED.code() + 1,
        EventType::CONTROLLERTOUCHPADMOTION.code() == EventType::CONTROLLERTOUCHPADDOWN.code() + 1,
        EventType::CONTROLLERTOUCHPADUP.code() == EventType::CONTROLLERTOUCHPADMOTION.code() + 1,
        EventType::CONTROLLERSENSORUPDATE.code() == EventType::CONTROLLERTOUCHPADUP.code() + 1,
        EventType::FINGERUP.code() == EventType::FINGERDOWN.code() + 1,
        EventType::FINGERMOTION.code() == EventType::FINGERUP.code() + 1,
        EventType::DOLLARRECORD.code() == EventType::DOLLARGESTURE.code() + 1,
        EventType::MULTIGESTURE.code() == EventType::DOLLARRECORD.code() + 1,
        EventType::DROPTEXT.code() == EventType::DROPFILE.code() + 1,
        EventType::DROPBEGIN.code() == EventType::DROPTEXT.code() + 1,
        EventType::DROPCOMPLETE.code() == EventType::DROPBEGIN.code() + 1,
        EventType::AUDIODEVICEREMOVED.code() == EventType::AUDIODEVICEADDED.code() + 1,
        EventType::RENDER_DEVICE_RESET.code() == EventType::RENDER_TARGETS_RESET.code() + 1,
{
}

/// The boolean whose SDL value is `code`, if there is one.
pub open spec fn bool_with_code(code: i32) -> Option<Bool> {
    match code {
        0 => Some(Bool::False),
        1 => Some(Bool::True),
        _ => None,
    }
}

/// Each boolean has a value of its own: looking the value up gives the same boolean back.
pub proof fn law_bool_identifies(value: Bool)
    ensures
        bool_with_code(value.code()) == Some(value),
{
    match value {
        Bool::False => {},
        Bool::True => {},
    }
}

/// The state whose SDL value is `code`, if there is one.
pub open spec fn pressed_state_with_code(code: u8) -> Option<PressedState> {
    match code {
        0 => Some(PressedState::Released),
        1 => Some(PressedState::Pressed),
        _ => None,
    }
}

/// Each state has a value of its own: looking the value up gives the same state back.
pub proof fn law_pressed_state_identifies(value: PressedState)
    ensures
        pressed_state_with_code(value.code()) == Some(value),
{
    match value {
        PressedState::Released => {},
        PressedState::Pressed => {},
    }
}

/// The button whose SDL number is `code`, if there is one.
pub open spec fn mouse_button_with_code(code: u8) -> Option<MouseButton> {
    match code {
        1 => Some(MouseButton::Left),
        2 => Some(MouseButton::Middle),
        3 => Some(MouseButton::Right),
        4 => Some(MouseButton::X1),
        5 => Some(MouseButton::X2),
        _ => None,
    }
}

/// Each button has a number of its own: looking the number up gives the same button back.
pub proof fn law_mouse_button_identifies(value: MouseButton)
    ensures
        mouse_button_with_code(value.code()) == Some(value),
{
    match value {
        MouseButton::Left => {},
        MouseButton::Middle => {},
        MouseButton::Right => {},
        MouseButton::X1 => {},
        MouseButton::X2 => {},
    }
}

/// The key position whose SDL code is `code`, if there is one.
pub open spec fn scancode_with_code(code: i32) -> Option<Scancode> {
    match code {
        0 => Some(Scancode::UNKNOWN),
        4 => Some(Scancode::A),
        5 => Some(Scancode::B),
        6 => Some(Scancode::C),
        7 => Some(Scancode::D),
        8 => Some(Scancode::E),
        9 => Some(Scancode::F),
        10 => Some(Scancode::G),
        11 => Some(Scancode::H),
        12 => Some(Scancode::I),
        13 => Some(Scancode::J),
        14 => Some(Scancode::K),
        15 => Some(Scancode::L),
        16 => Some(Scancode::M),
        17 => Some(Scancode::N),
        18 => Some(Scancode::O),
        19 => Some(Scancode::P),
        20 => Some(Scancode::Q),
        21 => Some(Scancode::R),
        22 => Some(Scancode::S),
        23 => Some(Scancode::T),
        24 => Some(Scancode::U),
        25 => Some(Scancode::V),
        26 => Some(Scancode::W),
        27 => Some(Scancode::X),
        28 => Some(Scancode::Y),
        29 => Some(Scancode::Z),
        30 => Some(Scancode::SCANCODE_1),
        31 => Some(Scancode::SCANCODE_2),
        32 => Some(Scancode::SCANCODE_3),
        33 => Some(Scancode::SCANCODE_4),
        34 => Some(Scancode::SCANCODE_5),
        35 => Some(Scancode::SCANCODE_6),
        36 => Some(Scancode::SCANCODE_7),
        37 => Some(Scancode::SCANCODE_8),
        38 => Some(Scancode::SCANCODE_9),
        39 => Some(Scancode::SCANCODE_0),
        40 => Some(Scancode::RETURN),
        41 => Some(Scancode::ESCAPE),
        42 => Some(Scancode::BACKSPACE),
        43 => Some(Scancode::TAB),
        44 => Some(Scancode::SPACE),
        45 => Some(Scancode::MINUS),
        46 => Some(Scancode::EQUALS),
        47 => Some(Scancode::LEFTBRACKET),
        48 => Some(Scancode::RIGHTBRACKET),
        49 => Some(Scancode::BACKSLASH),
        50 => Some(Scancode::NONUSHASH),
        51 => Some(Scancode::SEMICOLON),
        52 => Some(Scancode::APOSTROPHE),
        53 => Some(Scancode::GRAVE),
        54 => Some(Scancode::COMMA),
        55 => Some(Scancode::PERIOD),
        56 => Some(Scancode::SLASH),
        57 => Some(Scancode::CAPSLOCK),
        58 => Some(Scancode::F1),
        59 => Some(Scancode::F2),
        60 => Some(Scancode::F3),
        61 => Some(Scancode::F4),
        62 => Some(Scancode::F5),
        63 => Some(Scancode::F6),
        64 => Some(Scancode::F7),
        65 => Some(Scancode::F8),
        66 => Some(Scancode::F9),
        67 => Some(Scancode::F10),
        68 => Some(Scancode::F11),
        69 => Some(Scancode::F12),
        70 => Some(Scancode::PRINTSCREEN),
        71 => Some(Scancode::SCROLLLOCK),
        72 => Some(Scancode::PAUSE),
        73 => Some(Scancode::INSERT),
        74 => Some(Scancode::HOME),
        75 => Some(Scancode::PAGEUP),
        76 => Some(Scancode::DELETE),
        77 => Some(Scancode::END),
        78 => Some(Scancode::PAGEDOWN),
        79 => Some(Scancode::RIGHT),
        80 => Some(Scancode::LEFT),
        81 => Some(Scancode::DOWN),
        82 => Some(Scancode::UP),
        83 => Some(Scancode::NUMLOCKCLEAR),
        84 => Some(Scancode::KP_DIVIDE),
        85 => Some(Scancode::KP_MULTIPLY),
        86 => Some(Scancode::KP_MINUS),
        87 => Some(Scancode::KP_PLUS),
        88 => Some(Scancode::KP_ENTER),
        89 => Some(Scancode::KP_1),
        90 => Some(Scancode::KP_2),
        91 => Some(Scancode::KP_3),
        92 => Some(Scancode::KP_4),
        93 => Some(Scancode::KP_5),
        94 => Some(Scancode::KP_6),
        95 => Some(Scancode::KP_7),
        96 => Some(Scancode::KP_8),
        97 => Some(Scancode::KP_9),
        98 => Some(Scancode::KP_0),
        99 => Some(Scancode::KP_PERIOD),
        100 => Some(Scancode::NONUSBACKSLASH),
        101 => Some(Scancode::APPLICATION),
        102 => Some(Scancode::POWER),
        103 => Some(Scancode::KP_EQUALS),
        104 => Some(Scancode::F13),
        105 => Some(Scancode::F14),
        106 => Some(Scancode::F15),
        107 => Some(Scancode::F16),
        108 => Some(Scancode::F17),
        109 => Some(Scancode::F18),
        110 => Some(Scancode::F19),
        111 => Some(Scancode::F20),
        112 => Some(Scancode::F21),
        113 => Some(Scancode::F22),
        114 => Some(Scancode::F23),
        115 => Some(Scancode::F24),
        116 => Some(Scancode::EXECUTE),
        117 => Some(Scancode::HELP),
        118 => Some(Scancode::MENU),
        119 => Some(Scancode::SELECT),
        120 => Some(Scancode::STOP),
        121 => Some(Scancode::AGAIN),
        122 => Some(Scancode::UNDO),
        123 => Some(Scancode::CUT),
        124 => Some(Scancode::COPY),
        125 => Some(Scancode::PASTE),
        126 => Some(Scancode::FIND),
        127 => Some(Scancode::MUTE),
        128 => Some(Scancode::VOLUMEUP),
        129 => Some(Scancode::VOLUMEDOWN),
        133 => Some(Scancode::KP_COMMA),
        134 => Some(Scancode::KP_EQUALSAS400),
        135 => Some(Scancode::INTERNATIONAL1),
        136 => Some(Scancode::INTERNATIONAL2),
        137 => Some(Scancode::INTERNATIONAL3),
        138 => Some(Scancode::INTERNATIONAL4),
        139 => Some(Scancode::INTERNATIONAL5),
        140 => Some(Scancode::INTERNATIONAL6),
        141 => Some(Scancode::INTERNATIONAL7),
        142 => Some(Scancode::INTERNATIONAL8),
        143 => Some(Scancode::INTERNATIONAL9),
        144 => Some(Scancode::LANG1),
        145 => Some(Scancode::LANG2),
        146 => Some(Scancode::LANG3),
        147 => Some(Scancode::LANG4),
        148 => Some(Scancode::LANG5),
        149 => Some(Scancode::LANG6),
        150 => Some(Scancode::LANG7),
        151 => Some(Scancode::LANG8),
        152 => Some(Scancode::LANG9),
        153 => Some(Scancode::ALTERASE),
        154 => Some(Scancode::SYSREQ),
        155 => Some(Scancode::CANCEL),
        156 => Some(Scancode::CLEAR),
        157 => Some(Scancode::PRIOR),
        158 => Some(Scancode::RETURN2),
        159 => Some(Scancode::SEPARATOR),
        160 => Some(Scancode::OUT),
        161 => Some(Scancode::OPER),
        162 => Some(Scancode::CLEARAGAIN),
        163 => Some(Scancode::CRSEL),
        164 => Some(Scancode::EXSEL),
        176 => Some(Scancode::KP_00),
        177 => Some(Scancode::KP_000),
        178 => Some(Scancode::THOUSANDSSEPARATOR),
        179 => Some(Scancode::DECIMALSEPARATOR),
        180 => Some(Scancode::CURRENCYUNIT),
        181 => Some(Scancode::CURRENCYSUBUNIT),
        182 => Some(Scancode::KP_LEFTPAREN),
        183 => Some(Scancode::KP_RIGHTPAREN),
        184 => Some(Scancode::KP_LEFTBRACE),
        185 => Some(Scancode::KP_RIGHTBRACE),
        186 => Some(Scancode::KP_TAB),
        187 => Some(Scancode::KP_BACKSPACE),
        188 => Some(Scancode::KP_A),
        189 => Some(Scancode::KP_B),
        190 => Some(Scancode::KP_C),
        191 => Some(Scancode::KP_D),
        192 => Some(Scancode::KP_E),
        193 => Some(Scancode::KP_F),
        194 => Some(Scancode::KP_XOR),
        195 => Some(Scancode::KP_POWER),
        196 => Some(Scancode::KP_PERCENT),
        197 => Some(Scancode::KP_LESS),
        198 => Some(Scancode::KP_GREATER),
        199 => Some(Scancode::KP_AMPERSAND),
        200 => Some(Scancode::KP_DBLAMPERSAND),
        201 => Some(Scancode::KP_VERTICALBAR),
        202 => Some(Scancode::KP_DBLVERTICALBAR),
        203 => Some(Scancode::KP_COLON),
        204 => Some(Scancode::KP_HASH),
        205 => Some(Scancode::KP_SPACE),
        206 => Some(Scancode::KP_AT),
        207 => Some(Scancode::KP_EXCLAM),
        208 => Some(Scancode::KP_MEMSTORE),
        209 => Some(Scancode::KP_MEMRECALL),
        210 => Some(Scancode::KP_MEMCLEAR),
        211 => Some(Scancode::KP_MEMADD),
        212 => Some(Scancode::KP_MEMSUBTRACT),
        213 => Some(Scancode::KP_MEMMULTIPLY),
        214 => Some(Scancode::KP_MEMDIVIDE),
        215 => Some(Scancode::KP_PLUSMINUS),
        216 => Some(Scancode::KP_CLEAR),
        217 => Some(Scancode::KP_CLEARENTRY),
        218 => Some(Scancode::KP_BINARY),
        219 => Some(Scancode::KP_OCTAL),
        220 => Some(Scancode::KP_DECIMAL),
        221 => Some(Scancode::KP_HEXADECIMAL),
        224 => Some(Scancode::LCTRL),
        225 => Some(Scancode::LSHIFT),
        226 => Some(Scancode::LALT),
        227 => Some(Scancode::LGUI),
        228 => Some(Scancode::RCTRL),
        229 => Some(Scancode::RSHIFT),
        230 => Some(Scancode::RALT),
        231 => Some(Scancode::RGUI),
        0x101 => Some(Scancode::MODE),
        0x102 => Some(Scancode::AUDIONEXT),
        0x103 => Some(Scancode::AUDIOPREV),
        0x104 => Some(Scancode::AUDIOSTOP),
        0x105 => Some(Scancode::AUDIOPLAY),
        0x106 => Some(Scancode::AUDIOMUTE),
        0x107 => Some(Scancode::MEDIASELECT),
        0x108 => Some(Scancode::WWW),
        0x109 => Some(Scancode::MAIL),
        0x10a => Some(Scancode::CALCULATOR),
        0x10b => Some(Scancode::COMPUTER),
        0x10c => Some(Scancode::AC_SEARCH),
        0x10d => Some(Scancode::AC_HOME),
        0x10e => Some(Scancode::AC_BACK),
        0x10f => Some(Scancode::AC_FORWARD),
        0x110 => Some(Scancode::AC_STOP),
        0x111 => Some(Scancode::AC_REFRESH),
        0x112 => Some(Scancode::AC_BOOKMARKS),
        0x113 => Some(Scancode::BRIGHTNESSDOWN),
        0x114 => Some(Scancode::BRIGHTNESSUP),
        0x115 => Some(Scancode::DISPLAYSWITCH),
        0x116 => Some(Scancode::KBDILLUMTOGGLE),
        0x117 => Some(Scancode::KBDILLUMDOWN),
        0x118 => Some(Scancode::KBDILLUMUP),
        0x119 => Some(Scancode::EJECT),
        0x11a => Some(Scancode::SLEEP),
        0x11b => Some(Scancode::APP1),
        0x11c => Some(Scancode::APP2),
        0x11d => Some(Scancode::AUDIOREWIND),
        0x11e => Some(Scancode::AUDIOFASTFORWARD),
        0x200 => Some(Scancode::NUM_SCANCODES),
        _ => None,
    }
}

/// Each key position has a code of its own: looking the code up gives the same key position back.
#[verifier::spinoff_prover]
#[verifier::rlimit(60)]
pub proof fn law_scancode_identifies(value: Scancode)
    ensures
        scancode_with_code(value.code()) == Some(value),
{
    match value {
        Scancode::UNKNOWN => {},
        Scancode::A => {},
        Scancode::B => {},
        Scancode::C => {},
        Scancode::D => {},
        Scancode::E => {},
        Scancode::F => {},
        Scancode::G => {},
        Scancode::H => {},
        Scancode::I => {},
        Scancode::J => {},
        Scancode::K => {},
        Scancode::L => {},
        Scancode::M => {},
        Scancode::N => {},
        Scancode::O => {},
        Scancode::P => {},
        Scancode::Q => {},
        Scancode::R => {},
        Scancode::S => {},
        Scancode::T => {},
        Scancode::U => {},
        Scancode::V => {},
        Scancode::W => {},
        Scancode::X => {},
        Scancode::Y => {},
        Scancode::Z => {},
        Scancode::SCANCODE_1 => {},
        Scancode::SCANCODE_2 => {},
        Scancode::SCANCODE_3 => {},
        Scancode::SCANCODE_4 => {},
        Scancode::SCANCODE_5 => {},
        Scancode::SCANCODE_6 => {},
        Scancode::SCANCODE_7 => {},
        Scancode::SCANCODE_8 => {},
        Scancode::SCANCODE_9 => {},
        Scancode::SCANCODE_0 => {},
        Scancode::RETURN => {},
        Scancode::ESCAPE => {},
        Scancode::BACKSPACE => {},
        Scancode::TAB => {},
        Scancode::SPACE => {},
        Scancode::MINUS => {},
        Scancode::EQUALS => {},
        Scancode::LEFTBRACKET => {},
        Scancode::RIGHTBRACKET => {},
        Scancode::BACKSLASH => {},
        Scancode::NONUSHASH => {},
        Scancode::SEMICOLON => {},
        Scancode::APOSTROPHE => {},
        Scancode::GRAVE => {},
        Scancode::COMMA => {},
        Scancode::PERIOD => {},
        Scancode::SLASH => {},
        Scancode::CAPSLOCK => {},
        Scancode::F1 => {},
        Scancode::F2 => {},
        Scancode::F3 => {},
        Scancode::F4 => {},
        Scancode::F5 => {},
        Scancode::F6 => {},
        Scancode::F7 => {},
        Scancode::F8 => {},
        Scancode::F9 => {},
        Scancode::F10 => {},
        Scancode::F11 => {},
        Scancode::F12 => {},
        Scancode::PRINTSCREEN => {},
        Scancode::SCROLLLOCK => {},
        Scancode::PAUSE => {},
        Scancode::INSERT => {},
        Scancode::HOME => {},
        Scancode::PAGEUP => {},
        Scancode::DELETE => {},
        Scancode::END => {},
        Scancode::PAGEDOWN => {},
        Scancode::RIGHT => {},
        Scancode::LEFT => {},
        Scancode::DOWN => {},
        Scancode::UP => {},
        Scancode::NUMLOCKCLEAR => {},
        Scancode::KP_DIVIDE => {},
        Scancode::KP_MULTIPLY => {},
        Scancode::KP_MINUS => {},
        Scancode::KP_PLUS => {},
        Scancode::KP_ENTER => {},
        Scancode::KP_1 => {},
        Scancode::KP_2 => {},
        Scancode::KP_3 => {},
        Scancode::KP_4 => {},
        Scancode::KP_5 => {},
        Scancode::KP_6 => {},
        Scancode::KP_7 => {},
        Scancode::KP_8 => {},
        Scancode::KP_9 => {},
        Scancode::KP_0 => {},
        Scancode::KP_PERIOD => {},
        Scancode::NONUSBACKSLASH => {},
        Scancode::APPLICATION => {},
        Scancode::POWER => {},
        Scancode::KP_EQUALS => {},
        Scancode::F13 => {},
        Scancode::F14 => {},
        Scancode::F15 => {},
        Scancode::F16 => {},
        Scancode::F17 => {},
        Scancode::F18 => {},
        Scancode::F19 => {},
        Scancode::F20 => {},
        Scancode::F21 => {},
        Scancode::F22 => {},
        Scancode::F23 => {},
        Scancode::F24 => {},
        Scancode::EXECUTE => {},
        Scancode::HELP => {},
        Scancode::MENU => {},
        Scancode::SELECT => {},
        Scancode::STOP => {},
        Scancode::AGAIN => {},
        Scancode::UNDO => {},
        Scancode::CUT => {},
        Scancode::COPY => {},
        Scancode::PASTE => {},
        Scancode::FIND => {},
        Scancode::MUTE => {},
        Scancode::VOLUMEUP => {},
        Scancode::VOLUMEDOWN => {},
        Scancode::KP_COMMA => {},
        Scancode::KP_EQUALSAS400 => {},
        Scancode::INTERNATIONAL1 => {},
        Scancode::INTERNATIONAL2 => {},
        Scancode::INTERNATIONAL3 => {},
        Scancode::INTERNATIONAL4 => {},
        Scancode::INTERNATIONAL5 => {},
        Scancode::INTERNATIONAL6 => {},
        Scancode::INTERNATIONAL7 => {},
        Scancode::INTERNATIONAL8 => {},
        Scancode::INTERNATIONAL9 => {},
        Scancode::LANG1 => {},
        Scancode::LANG2 => {},
        Scancode::LANG3 => {},
        Scancode::LANG4 => {},
        Scancode::LANG5 => {},
        Scancode::LANG6 => {},
        Scancode::LANG7 => {},
        Scancode::LANG8 => {},
        Scancode::LANG9 => {},
        Scancode::ALTERASE => {},
        Scancode::SYSREQ => {},
        Scancode::CANCEL => {},
        Scancode::CLEAR => {},
        Scancode::PRIOR => {},
        Scancode::RETURN2 => {},
        Scancode::SEPARATOR => {},
        Scancode::OUT => {},
        Scancode::OPER => {},
        Scancode::CLEARAGAIN => {},
        Scancode::CRSEL => {},
        Scancode::EXSEL => {},
        Scancode::KP_00 => {},
        Scancode::KP_000 => {},
        Scancode::THOUSANDSSEPARATOR => {},
        Scancode::DECIMALSEPARATOR => {},
        Scancode::CURRENCYUNIT => {},
        Scancode::CURRENCYSUBUNIT => {},
        Scancode::KP_LEFTPAREN => {},
        Scancode::KP_RIGHTPAREN => {},
        Scancode::KP_LEFTBRACE => {},
        Scancode::KP_RIGHTBRACE => {},
        Scancode::KP_TAB => {},
        Scancode::KP_BACKSPACE => {},
        Scancode::KP_A => {},
        Scancode::KP_B => {},
        Scancode::KP_C => {},
        Scancode::KP_D => {},
        Scancode::KP_E => {},
        Scancode::KP_F => {},
        Scancode::KP_XOR => {},
        Scancode::KP_POWER => {},
        Scancode::KP_PERCENT => {},
        Scancode::KP_LESS => {},
        Scancode::KP_GREATER => {},
        Scancode::KP_AMPERSAND => {},
        Scancode::KP_DBLAMPERSAND => {},
        Scancode::KP_VERTICALBAR => {},
        Scancode::KP_DBLVERTICALBAR => {},
        Scancode::KP_COLON => {},
        Scancode::KP_HASH => {},
        Scancode::KP_SPACE => {},
        Scancode::KP_AT => {},
        Scancode::KP_EXCLAM => {},
        Scancode::KP_MEMSTORE => {},
        Scancode::KP_MEMRECALL => {},
        Scancode::KP_MEMCLEAR => {},
        Scancode::KP_MEMADD => {},
        Scancode::KP_MEMSUBTRACT => {},
        Scancode::KP_MEMMULTIPLY => {},
        Scancode::KP_MEMDIVIDE => {},
        Scancode::KP_PLUSMINUS => {},
        Scancode::KP_CLEAR => {},
        Scancode::KP_CLEARENTRY => {},
        Scancode::KP_BINARY => {},
        Scancode::KP_OCTAL => {},
        Scancode::KP_DECIMAL => {},
        Scancode::KP_HEXADECIMAL => {},
        Scancode::LCTRL => {},
        Scancode::LSHIFT => {},
        Scancode::LALT => {},
        Scancode::LGUI => {},
        Scancode::RCTRL => {},
        Scancode::RSHIFT => {},
        Scancode::RALT => {},
        Scancode::RGUI => {},
        Scancode::MODE => {},
        Scancode::AUDIONEXT => {},
        Scancode::AUDIOPREV => {},
        Scancode::AUDIOSTOP => {},
        Scancode::AUDIOPLAY => {},
        Scancode::AUDIOMUTE => {},
        Scancode::MEDIASELECT => {},
        Scancode::WWW => {},
        Scancode::MAIL => {},
        Scancode::CALCULATOR => {},
        Scancode::COMPUTER => {},
        Scancode::AC_SEARCH => {},
        Scancode::AC_HOME => {},
        Scancode::AC_BACK => {},
        Scancode::AC_FORWARD => {},
        Scancode::AC_STOP => {},
        Scancode::AC_REFRESH => {},
        Scancode::AC_BOOKMARKS => {},
        Scancode::BRIGHTNESSDOWN => {},
        Scancode::BRIGHTNESSUP => {},
        Scancode::DISPLAYSWITCH => {},
        Scancode::KBDILLUMTOGGLE => {},
        Scancode::KBDILLUMDOWN => {},
        Scancode::KBDILLUMUP => {},
        Scancode::EJECT => {},
        Scancode::SLEEP => {},
        Scancode::APP1 => {},
        Scancode::APP2 => {},
        Scancode::AUDIOREWIND => {},
        Scancode::AUDIOFASTFORWARD => {},
        Scancode::NUM_SCANCODES => {},
    }
}

/// The virtual key whose SDL code is `code`, if there is one.
pub open spec fn keycode_with_code(code: i32) -> Option<Keycode> {
    match code {
        0 => Some(Keycode::UNKNOWN),
        13 => Some(Keycode::RETURN),
        27 => Some(Keycode::ESCAPE),
        8 => Some(Keycode::BACKSPACE),
        9 => Some(Keycode::TAB),
        32 => Some(Keycode::SPACE),
        33 => Some(Keycode::EXCLAIM),
        34 => Some(Keycode::QUOTEDBL),
        35 => Some(Keycode::HASH),
        37 => Some(Keycode::PERCENT),
        36 => Some(Keycode::DOLLAR),
        38 => Some(Keycode::AMPERSAND),
        39 => Some(Keycode::QUOTE),
        40 => Some(Keycode::LEFTPAREN),
        41 => Some(Keycode::RIGHTPAREN),
        42 => Some(Keycode::ASTERISK),
        43 => Some(Keycode::PLUS),
        44 => Some(Keycode::COMMA),
        45 => Some(Keycode::MINUS),
        46 => Some(Keycode::PERIOD),
        47 => Some(Keycode::SLASH),
        48 => Some(Keycode::KEY_0),
        49 => Some(Keycode::KEY_1),
        50 => Some(Keycode::KEY_2),
        51 => Some(Keycode::KEY_3),
        52 => Some(Keycode::KEY_4),
        53 => Some(Keycode::KEY_5),
        54 => Some(Keycode::KEY_6),
        55 => Some(Keycode::KEY_7),
        56 => Some(Keycode::KEY_8),
        57 => Some(Keycode::KEY_9),
        58 => Some(Keycode::COLON),
        59 => Some(Keycode::SEMICOLON),
        60 => Some(Keycode::LESS),
        61 => Some(Keycode::EQUALS),
        62 => Some(Keycode::GREATER),
        63 => Some(Keycode::QUESTION),
        64 => Some(Keycode::AT),
        91 => Some(Keycode::LEFTBRACKET),
        92 => Some(Keycode::BACKSLASH),
        93 => Some(Keycode::RIGHTBRACKET),
        94 => Some(Keycode::CARET),
        95 => Some(Keycode::UNDERSCORE),
        96 => Some(Keycode::BACKQUOTE),
        97 => Some(Keycode::a),
        98 => Some(Keycode::b),
        99 => Some(Keycode::c),
        100 => Some(Keycode::d),
        101 => Some(Keycode::e),
        102 => Some(Keycode::f),
        103 => Some(Keycode::g),
        104 => Some(Keycode::h),
        105 => Some(Keycode::i),
        106 => Some(Keycode::j),
        107 => Some(Keycode::k),
        108 => Some(Keycode::l),
        109 => Some(Keycode::m),
        110 => Some(Keycode::n),
        111 => Some(Keycode::o),
        112 => Some(Keycode::p),
        113 => Some(Keycode::q),
        114 => Some(Keycode::r),
        115 => Some(Keycode::s),
        116 => Some(Keycode::t),
        117 => Some(Keycode::u),
        118 => Some(Keycode::v),
        119 => Some(Keycode::w),
        120 => Some(Keycode::x),
        121 => Some(Keycode::y),
        122 => Some(Keycode::z),
        0x40000039 => Some(Keycode::CAPSLOCK),
        0x4000003a => Some(Keycode::F1),
        0x4000003b => Some(Keycode::F2),
        0x4000003c => Some(Keycode::F3),
        0x4000003d => Some(Keycode::F4),
        0x4000003e => Some(Keycode::F5),
        0x4000003f => Some(Keycode::F6),
        0x40000040 => Some(Keycode::F7),
        0x40000041 => Some(Keycode::F8),
        0x40000042 => Some(Keycode::F9),
        0x40000043 => Some(Keycode::F10),
        0x40000044 => Some(Keycode::F11),
        0x40000045 => Some(Keycode::F12),
        0x40000046 => Some(Keycode::PRINTSCREEN),
        0x40000047 => Some(Keycode::SCROLLLOCK),
        0x40000048 => Some(Keycode::PAUSE),
        0x40000049 => Some(Keycode::INSERT),
        0x4000004a => Some(Keycode::HOME),
        0x4000004b => Some(Keycode::PAGEUP),
        127 => Some(Keycode::DELETE),
        0x4000004d => Some(Keycode::END),
        0x4000004e => Some(Keycode::PAGEDOWN),
        0x4000004f => Some(Keycode::RIGHT),
        0x40000050 => Some(Keycode::LEFT),
        0x40000051 => Some(Keycode::DOWN),
        0x40000052 => Some(Keycode::UP),
        0x40000053 => Some(Keycode::NUMLOCKCLEAR),
        0x40000054 => Some(Keycode::KP_DIVIDE),
        0x40000055 => Some(Keycode::KP_MULTIPLY),
        0x40000056 => Some(Keycode::KP_MINUS),
        0x40000057 => Some(Keycode::KP_PLUS),
        0x40000058 => Some(Keycode::KP_ENTER),
        0x40000059 => Some(Keycode::KP_1),
        0x4000005a => Some(Keycode::KP_2),
        0x4000005b => Some(Keycode::KP_3),
        0x4000005c => Some(Keycode::KP_4),
        0x4000005d => Some(Keycode::KP_5),
        0x4000005e => Some(Keycode::KP_6),
        0x4000005f => Some(Keycode::KP_7),
        0x40000060 => Some(Keycode::KP_8),
        0x40000061 => Some(Keycode::KP_9),
        0x40000062 => Some(Keycode::KP_0),
        0x40000063 => Some(Keycode::KP_PERIOD),
        0x40000065 => Some(Keycode::APPLICATION),
        0x40000066 => Some(Keycode::POWER),
        0x40000067 => Some(Keycode::KP_EQUALS),
        0x40000068 => Some(Keycode::F13),
        0x40000069 => Some(Keycode::F14),
        0x4000006a => Some(Keycode::F15),
        0x4000006b => Some(Keycode::F16),
        0x4000006c => Some(Keycode::F17),
        0x4000006d => Some(Keycode::F18),
        0x4000006e => Some(Keycode::F19),
        0x4000006f => Some(Keycode::F20),
        0x40000070 => Some(Keycode::F21),
        0x40000071 => Some(Keycode::F22),
        0x40000072 => Some(Keycode::F23),
        0x40000073 => Some(Keycode::F24),
        0x40000074 => Some(Keycode::EXECUTE),
        0x40000075 => Some(Keycode::HELP),
        0x40000076 => Some(Keycode::MENU),
        0x40000077 => Some(Keycode::SELECT),
        0x40000078 => Some(Keycode::STOP),
        0x40000079 => Some(Keycode::AGAIN),
        0x4000007a => Some(Keycode::UNDO),
        0x4000007b => Some(Keycode::CUT),
        0x4000007c => Some(Keycode::COPY),
        0x4000007d => Some(Keycode::PASTE),
        0x4000007e => Some(Keycode::FIND),
        0x4000007f => Some(Keycode::MUTE),
        0x40000080 => Some(Keycode::VOLUMEUP),
        0x40000081 => Some(Keycode::VOLUMEDOWN),
        0x40000085 => Some(Keycode::KP_COMMA),
        0x40000086 => Some(Keycode::KP_EQUALSAS400),
        0x40000099 => Some(Keycode::ALTERASE),
        0x4000009a => Some(Keycode::SYSREQ),
        0x4000009b => Some(Keycode::CANCEL),
        0x4000009c => Some(Keycode::CLEAR),
        0x4000009d => Some(Keycode::PRIOR),
        0x4000009e => Some(Keycode::RETURN2),
        0x4000009f => Some(Keycode::SEPARATOR),
        0x400000a0 => Some(Keycode::OUT),
        0x400000a1 => Some(Keycode::OPER),
        0x400000a2 => Some(Keycode::CLEARAGAIN),
        0x400000a3 => Some(Keycode::CRSEL),
        0x400000a4 => Some(Keycode::EXSEL),
        0x400000b0 => Some(Keycode::KP_00),
        0x400000b1 => Some(Keycode::KP_000),
        0x400000b2 => Some(Keycode::THOUSANDSSEPARATOR),
        0x400000b3 => Some(Keycode::DECIMALSEPARATOR),
        0x400000b4 => Some(Keycode::CURRENCYUNIT),
        0x400000b5 => Some(Keycode::CURRENCYSUBUNIT),
        0x400000b6 => Some(Keycode::KP_LEFTPAREN),
        0x400000b7 => Some(Keycode::KP_RIGHTPAREN),
        0x400000b8 => Some(Keycode::KP_LEFTBRACE),
        0x400000b9 => Some(Keycode::KP_RIGHTBRACE),
        0x400000ba => Some(Keycode::KP_TAB),
        0x400000bb => Some(Keycode::KP_BACKSPACE),
        0x400000bc => Some(Keycode::KP_A),
        0x400000bd => Some(Keycode::KP_B),
        0x400000be => Some(Keycode::KP_C),
        0x400000bf => Some(Keycode::KP_D),
        0x400000c0 => Some(Keycode::KP_E),
        0x400000c1 => Some(Keycode::KP_F),
        0x400000c2 => Some(Keycode::KP_XOR),
        0x400000c3 => Some(Keycode::KP_POWER),
        0x400000c4 => Some(Keycode::KP_PERCENT),
        0x400000c5 => Some(Keycode::KP_LESS),
        0x400000c6 => Some(Keycode::KP_GREATER),
        0x400000c7 => Some(Keycode::KP_AMPERSAND),
        0x400000c8 => Some(Keycode::KP_DBLAMPERSAND),
        0x400000c9 => Some(Keycode::KP_VERTICALBAR),
        0x400000ca => Some(Keycode::KP_DBLVERTICALBAR),
        0x400000cb => Some(Keycode::KP_COLON),
        0x400000cc => Some(Keycode::KP_HASH),
        0x400000cd => Some(Keycode::KP_SPACE),
        0x400000ce => Some(Keycode::KP_AT),
        0x400000cf => Some(Keycode::KP_EXCLAM),
        0x400000d0 => Some(Keycode::KP_MEMSTORE),
        0x400000d1 => Some(Keycode::KP_MEMRECALL),
        0x400000d2 => Some(Keycode::KP_MEMCLEAR),
        0x400000d3 => Some(Keycode::KP_MEMADD),
        0x400000d4 => Some(Keycode::KP_MEMSUBTRACT),
        0x400000d5 => Some(Keycode::KP_MEMMULTIPLY),
        0x400000d6 => Some(Keycode::KP_MEMDIVIDE),
        0x400000d7 => Some(Keycode::KP_PLUSMINUS),
        0x400000d8 => Some(Keycode::KP_CLEAR),
        0x400000d9 => Some(Keycode::KP_CLEARENTRY),
        0x400000da => Some(Keycode::KP_BINARY),
        0x400000db => Some(Keycode::KP_OCTAL),
        0x400000dc => Some(Keycode::KP_DECIMAL),
        0x400000dd => Some(Keycode::KP_HEXADECIMAL),
        0x400000e0 => Some(Keycode::LCTRL),
        0x400000e1 => Some(Keycode::LSHIFT),
        0x400000e2 => Some(Keycode::LALT),
        0x400000e3 => Some(Keycode::LGUI),
        0x400000e4 => Some(Keycode::RCTRL),
        0x400000e5 => Some(Keycode::RSHIFT),
        0x400000e6 => Some(Keycode::RALT),
        0x400000e7 => Some(Keycode::RGUI),
        0x40000101 => Some(Keycode::MODE),
        0x40000102 => Some(Keycode::AUDIONEXT),
        0x40000103 => Some(Keycode::AUDIOPREV),
        0x40000104 => Some(Keycode::AUDIOSTOP),
        0x40000105 => Some(Keycode::AUDIOPLAY),
        0x40000106 => Some(Keycode::AUDIOMUTE),
        0x40000107 => Some(Keycode::MEDIASELECT),
        0x40000108 => Some(Keycode::WWW),
        0x40000109 => Some(Keycode::MAIL),
        0x4000010a => Some(Keycode::CALCULATOR),
        0x4000010b => Some(Keycode::COMPUTER),
        0x4000010c => Some(Keycode::AC_SEARCH),
        0x4000010d => Some(Keycode::AC_HOME),
        0x4000010e => Some(Keycode::AC_BACK),
        0x4000010f => Some(Keycode::AC_FORWARD),
        0x40000110 => Some(Keycode::AC_STOP),
        0x40000111 => Some(Keycode::AC_REFRESH),
        0x40000112 => Some(Keycode::AC_BOOKMARKS),
        0x40000113 => Some(Keycode::BRIGHTNESSDOWN),
        0x40000114 => Some(Keycode::BRIGHTNESSUP),
        0x40000115 => Some(Keycode::DISPLAYSWITCH),
        0x40000116 => Some(Keycode::KBDILLUMTOGGLE),
        0x40000117 => Some(Keycode::KBDILLUMDOWN),
        0x40000118 => Some(Keycode::KBDILLUMUP),
        0x40000119 => Some(Keycode::EJECT),
        0x4000011a => Some(Keycode::SLEEP),
        0x4000011b => Some(Keycode::APP1),
        0x4000011c => Some(Keycode::APP2),
        0x4000011d => Some(Keycode::AUDIOREWIND),
        0x4000011e => Some(Keycode::AUDIOFASTFORWARD),
        _ => None,
    }
}

/// Each virtual key has a code of its own: looking the code up gives the same virtual key back.
pub proof fn law_keycode_identifies(value: Keycode)
    ensures
        keycode_with_code(value.code()) == Some(value),
{
    match value {
        Keycode::UNKNOWN => {},
        Keycode::RETURN => {},
        Keycode::ESCAPE => {},
        Keycode::BACKSPACE => {},
        Keycode::TAB => {},
        Keycode::SPACE => {},
        Keycode::EXCLAIM => {},
        Keycode::QUOTEDBL => {},
        Keycode::HASH => {},
        Keycode::PERCENT => {},
        Keycode::DOLLAR => {},
        Keycode::AMPERSAND => {},
        Keycode::QUOTE => {},
        Keycode::LEFTPAREN => {},
        Keycode::RIGHTPAREN => {},
        Keycode::ASTERISK => {},
        Keycode::PLUS => {},
        Keycode::COMMA => {},
        Keycode::MINUS => {},
        Keycode::PERIOD => {},
        Keycode::SLASH => {},
        Keycode::KEY_0 => {},
        Keycode::KEY_1 => {},
        Keycode::KEY_2 => {},
        Keycode::KEY_3 => {},
        Keycode::KEY_4 => {},
        Keycode::KEY_5 => {},
        Keycode::KEY_6 => {},
        Keycode::KEY_7 => {},
        Keycode::KEY_8 => {},
        Keycode::KEY_9 => {},
        Keycode::COLON => {},
        Keycode::SEMICOLON => {},
        Keycode::LESS => {},
        Keycode::EQUALS => {},
        Keycode::GREATER => {},
        Keycode::QUESTION => {},
        Keycode::AT => {},
        Keycode::LEFTBRACKET => {},
        Keycode::BACKSLASH => {},
        Keycode::RIGHTBRACKET => {},
        Keycode::CARET => {},
        Keycode::UNDERSCORE => {},
        Keycode::BACKQUOTE => {},
        Keycode::a => {},
        Keycode::b => {},
        Keycode::c => {},
        Keycode::d => {},
        Keycode::e => {},
        Keycode::f => {},
        Keycode::g => {},
        Keycode::h => {},
        Keycode::i => {},
        Keycode::j => {},
        Keycode::k => {},
        Keycode::l => {},
        Keycode::m => {},
        Keycode::n => {},
        Keycode::o => {},
        Keycode::p => {},
        Keycode::q => {},
        Keycode::r => {},
        Keycode::s => {},
        Keycode::t => {},
        Keycode::u => {},
        Keycode::v => {},
        Keycode::w => {},
        Keycode::x => {},
        Keycode::y => {},
        Keycode::z => {},
        Keycode::CAPSLOCK => lemma_set_bit_30(Scancode::CAPSLOCK.code()),
        Keycode::F1 => lemma_set_bit_30(Scancode::F1.code()),
        Keycode::F2 => lemma_set_bit_30(Scancode::F2.code()),
        Keycode::F3 => lemma_set_bit_30(Scancode::F3.code()),
        Keycode::F4 => lemma_set_bit_30(Scancode::F4.code()),
        Keycode::F5 => lemma_set_bit_30(Scancode::F5.code()),
        Keycode::F6 => lemma_set_bit_30(Scancode::F6.code()),
        Keycode::F7 => lemma_set_bit_30(Scancode::F7.code()),
        Keycode::F8 => lemma_set_bit_30(Scancode::F8.code()),
        Keycode::F9 => lemma_set_bit_30(Scancode::F9.code()),
        Keycode::F10 => lemma_set_bit_30(Scancode::F10.code()),
        Keycode::F11 => lemma_set_bit_30(Scancode::F11.code()),
        Keycode::F12 => lemma_set_bit_30(Scancode::F12.code()),
        Keycode::PRINTSCREEN => lemma_set_bit_30(Scancode::PRINTSCREEN.code()),
        Keycode::SCROLLLOCK => lemma_set_bit_30(Scancode::SCROLLLOCK.code()),
        Keycode::PAUSE => lemma_set_bit_30(Scancode::PAUSE.code()),
        Keycode::INSERT => lemma_set_bit_30(Scancode::INSERT.code()),
        Keycode::HOME => lemma_set_bit_30(Scancode::HOME.code()),
        Keycode::PAGEUP => lemma_set_bit_30(Scancode::PAGEUP.code()),
        Keycode::DELETE => {},
        Keycode::END => lemma_set_bit_30(Scancode::END.code()),
        Keycode::PAGEDOWN => lemma_set_bit_30(Scancode::PAGEDOWN.code()),
        Keycode::RIGHT => lemma_set_bit_30(Scancode::RIGHT.code()),
        Keycode::LEFT => lemma_set_bit_30(Scancode::LEFT.code()),
        Keycode::DOWN => lemma_set_bit_30(Scancode::DOWN.code()),
        Keycode::UP => lemma_set_bit_30(Scancode::UP.code()),
        Keycode::NUMLOCKCLEAR => lemma_set_bit_30(Scancode::NUMLOCKCLEAR.code()),
        Keycode::KP_DIVIDE => lemma_set_bit_30(Scancode::KP_DIVIDE.code()),
        Keycode::KP_MULTIPLY => lemma_set_bit_30(Scancode::KP_MULTIPLY.code()),
        Keycode::KP_MINUS => lemma_set_bit_30(Scancode::KP_MINUS.code()),
        Keycode::KP_PLUS => lemma_set_bit_30(Scancode::KP_PLUS.code()),
        Keycode::KP_ENTER => lemma_set_bit_30(Scancode::KP_ENTER.code()),
        Keycode::KP_1 => lemma_set_bit_30(Scancode::KP_1.code()),
        Keycode::KP_2 => lemma_set_bit_30(Scancode::KP_2.code()),
        Keycode::KP_3 => lemma_set_bit_30(Scancode::KP_3.code()),
        Keycode::KP_4 => lemma_set_bit_30(Scancode::KP_4.code()),
        Keycode::KP_5 => lemma_set_bit_30(Scancode::KP_5.code()),
        Keycode::KP_6 => lemma_set_bit_30(Scancode::KP_6.code()),
        Keycode::KP_7 => lemma_set_bit_30(Scancode::KP_7.code()),
        Keycode::KP_8 => lemma_set_bit_30(Scancode::KP_8.code()),
        Keycode::KP_9 => lemma_set_bit_30(Scancode::KP_9.code()),
        Keycode::KP_0 => lemma_set_bit_30(Scancode::KP_0.code()),
        Keycode::KP_PERIOD => lemma_set_bit_30(Scancode::KP_PERIOD.code()),
        Keycode::APPLICATION => lemma_set_bit_30(Scancode::APPLICATION.code()),
        Keycode::POWER => lemma_set_bit_30(Scancode::POWER.code()),
        Keycode::KP_EQUALS => lemma_set_bit_30(Scancode::KP_EQUALS.code()),
        Keycode::F13 => lemma_set_bit_30(Scancode::F13.code()),
        Keycode::F14 => lemma_set_bit_30(Scancode::F14.code()),
        Keycode::F15 => lemma_set_bit_30(Scancode::F15.code()),
        Keycode::F16 => lemma_set_bit_30(Scancode::F16.code()),
        Keycode::F17 => lemma_set_bit_30(Scancode::F17.code()),
        Keycode::F18 => lemma_set_bit_30(Scancode::F18.code()),
        Keycode::F19 => lemma_set_bit_30(Scancode::F19.code()),
        Keycode::F20 => lemma_set_bit_30(Scancode::F20.code()),
        Keycode::F21 => lemma_set_bit_30(Scancode::F21.code()),
        Keycode::F22 => lemma_set_bit_30(Scancode::F22.code()),
        Keycode::F23 => lemma_set_bit_30(Scancode::F23.code()),
        Keycode::F24 => lemma_set_bit_30(Scancode::F24.code()),
        Keycode::EXECUTE => lemma_set_bit_30(Scancode::EXECUTE.code()),
        Keycode::HELP => lemma_set_bit_30(Scancode::HELP.code()),
        Keycode::MENU => lemma_set_bit_30(Scancode::MENU.code()),
        Keycode::SELECT => lemma_set_bit_30(Scancode::SELECT.code()),
        Keycode::STOP => lemma_set_bit_30(Scancode::STOP.code()),
        Keycode::AGAIN => lemma_set_bit_30(Scancode::AGAIN.code()),
        Keycode::UNDO => lemma_set_bit_30(Scancode::UNDO.code()),
        Keycode::CUT => lemma_set_bit_30(Scancode::CUT.code()),
        Keycode::COPY => lemma_set_bit_30(Scancode::COPY.code()),
        Keycode::PASTE => lemma_set_bit_30(Scancode::PASTE.code()),
        Keycode::FIND => lemma_set_bit_30(Scancode::FIND.code()),
        Keycode::MUTE => lemma_set_bit_30(Scancode::MUTE.code()),
        Keycode::VOLUMEUP => lemma_set_bit_30(Scancode::VOLUMEUP.code()),
        Keycode::VOLUMEDOWN => lemma_set_bit_30(Scancode::VOLUMEDOWN.code()),
        Keycode::KP_COMMA => lemma_set_bit_30(Scancode::KP_COMMA.code()),
        Keycode::KP_EQUALSAS400 => lemma_set_bit_30(Scancode::KP_EQUALSAS400.code()),
        Keycode::ALTERASE => lemma_set_bit_30(Scancode::ALTERASE.code()),
        Keycode::SYSREQ => lemma_set_bit_30(Scancode::SYSREQ.code()),
        Keycode::CANCEL => lemma_set_bit_30(Scancode::CANCEL.code()),
        Keycode::CLEAR => lemma_set_bit_30(Scancode::CLEAR.code()),
        Keycode::PRIOR => lemma_set_bit_30(Scancode::PRIOR.code()),
        Keycode::RETURN2 => lemma_set_bit_30(Scancode::RETURN2.code()),
        Keycode::SEPARATOR => lemma_set_bit_30(Scancode::SEPARATOR.code()),
        Keycode::OUT => lemma_set_bit_30(Scancode::OUT.code()),
        Keycode::OPER => lemma_set_bit_30(Scancode::OPER.code()),
        Keycode::CLEARAGAIN => lemma_set_bit_30(Scancode::CLEARAGAIN.code()),
        Keycode::CRSEL => lemma_set_bit_30(Scancode::CRSEL.code()),
        Keycode::EXSEL => lemma_set_bit_30(Scancode::EXSEL.code()),
        Keycode::KP_00 => lemma_set_bit_30(Scancode::KP_00.code()),
        Keycode::KP_000 => lemma_set_bit_30(Scancode::KP_000.code()),
        Keycode::THOUSANDSSEPARATOR => lemma_set_bit_30(Scancode::THOUSANDSSEPARATOR.code()),
        Keycode::DECIMALSEPARATOR => lemma_set_bit_30(Scancode::DECIMALSEPARATOR.code()),
        Keycode::CURRENCYUNIT => lemma_set_bit_30(Scancode::CURRENCYUNIT.code()),
        Keycode::CURRENCYSUBUNIT => lemma_set_bit_30(Scancode::CURRENCYSUBUNIT.code()),
        Keycode::KP_LEFTPAREN => lemma_set_bit_30(Scancode::KP_LEFTPAREN.code()),
        Keycode::KP_RIGHTPAREN => lemma_set_bit_30(Scancode::KP_RIGHTPAREN.code()),
        Keycode::KP_LEFTBRACE => lemma_set_bit_30(Scancode::KP_LEFTBRACE.code()),
        Keycode::KP_RIGHTBRACE => lemma_set_bit_30(Scancode::KP_RIGHTBRACE.code()),
        Keycode::KP_TAB => lemma_set_bit_30(Scancode::KP_TAB.code()),
        Keycode::KP_BACKSPACE => lemma_set_bit_30(Scancode::KP_BACKSPACE.code()),
        Keycode::KP_A => lemma_set_bit_30(Scancode::KP_A.code()),
        Keycode::KP_B => lemma_set_bit_30(Scancode::KP_B.code()),
        Keycode::KP_C => lemma_set_bit_30(Scancode::KP_C.code()),
        Keycode::KP_D => lemma_set_bit_30(Scancode::KP_D.code()),
        Keycode::KP_E => lemma_set_bit_30(Scancode::KP_E.code()),
        Keycode::KP_F => lemma_set_bit_30(Scancode::KP_F.code()),
        Keycode::KP_XOR => lemma_set_bit_30(Scancode::KP_XOR.code()),
        Keycode::KP_POWER => lemma_set_bit_30(Scancode::KP_POWER.code()),
        Keycode::KP_PERCENT => lemma_set_bit_30(Scancode::KP_PERCENT.code()),
        Keycode::KP_LESS => lemma_set_bit_30(Scancode::KP_LESS.code()),
        Keycode::KP_GREATER => lemma_set_bit_30(Scancode::KP_GREATER.code()),
        Keycode::KP_AMPERSAND => lemma_set_bit_30(Scancode::KP_AMPERSAND.code()),
        Keycode::KP_DBLAMPERSAND => lemma_set_bit_30(Scancode::KP_DBLAMPERSAND.code()),
        Keycode::KP_VERTICALBAR => lemma_set_bit_30(Scancode::KP_VERTICALBAR.code()),
        Keycode::KP_DBLVERTICALBAR => lemma_set_bit_30(Scancode::KP_DBLVERTICALBAR.code()),
        Keycode::KP_COLON => lemma_set_bit_30(Scancode::KP_COLON.code()),
        Keycode::KP_HASH => lemma_set_bit_30(Scancode::KP_HASH.code()),
        Keycode::KP_SPACE => lemma_set_bit_30(Scancode::KP_SPACE.code()),
        Keycode::KP_AT => lemma_set_bit_30(Scancode::KP_AT.code()),
        Keycode::KP_EXCLAM => lemma_set_bit_30(Scancode::KP_EXCLAM.code()),
        Keycode::KP_MEMSTORE => lemma_set_bit_30(Scancode::KP_MEMSTORE.code()),
        Keycode::KP_MEMRECALL => lemma_set_bit_30(Scancode::KP_MEMRECALL.code()),
        Keycode::KP_MEMCLEAR => lemma_set_bit_30(Scancode::KP_MEMCLEAR.code()),
        Keycode::KP_MEMADD => lemma_set_bit_30(Scancode::KP_MEMADD.code()),
        Keycode::KP_MEMSUBTRACT => lemma_set_bit_30(Scancode::KP_MEMSUBTRACT.code()),
        Keycode::KP_MEMMULTIPLY => lemma_set_bit_30(Scancode::KP_MEMMULTIPLY.code()),
        Keycode::KP_MEMDIVIDE => lemma_set_bit_30(Scancode::KP_MEMDIVIDE.code()),
        Keycode::KP_PLUSMINUS => lemma_set_bit_30(Scancode::KP_PLUSMINUS.code()),
        Keycode::KP_CLEAR => lemma_set_bit_30(Scancode::KP_CLEAR.code()),
        Keycode::KP_CLEARENTRY => lemma_set_bit_30(Scancode::KP_CLEARENTRY.code()),
        Keycode::KP_BINARY => lemma_set_bit_30(Scancode::KP_BINARY.code()),
        Keycode::KP_OCTAL => lemma_set_bit_30(Scancode::KP_OCTAL.code()),
        Keycode::KP_DECIMAL => lemma_set_bit_30(Scancode::KP_DECIMAL.code()),
        Keycode::KP_HEXADECIMAL => lemma_set_bit_30(Scancode::KP_HEXADECIMAL.code()),
        Keycode::LCTRL => lemma_set_bit_30(Scancode::LCTRL.code()),
        Keycode::LSHIFT => lemma_set_bit_30(Scancode::LSHIFT.code()),
        Keycode::LALT => lemma_set_bit_30(Scancode::LALT.code()),
        Keycode::LGUI => lemma_set_bit_30(Scancode::LGUI.code()),
        Keycode::RCTRL => lemma_set_bit_30(Scancode::RCTRL.code()),
        Keycode::RSHIFT => lemma_set_bit_30(Scancode::RSHIFT.code()),
        Keycode::RALT => lemma_set_bit_30(Scancode::RALT.code()),
        Keycode::RGUI => lemma_set_bit_30(Scancode::RGUI.code()),
        Keycode::MODE => lemma_set_bit_30(Scancode::MODE.code()),
        Keycode::AUDIONEXT => lemma_set_bit_30(Scancode::AUDIONEXT.code()),
        Keycode::AUDIOPREV => lemma_set_bit_30(Scancode::AUDIOPREV.code()),
        Keycode::AUDIOSTOP => lemma_set_bit_30(Scancode::AUDIOSTOP.code()),
        Keycode::AUDIOPLAY => lemma_set_bit_30(Scancode::AUDIOPLAY.code()),
        Keycode::AUDIOMUTE => lemma_set_bit_30(Scancode::AUDIOMUTE.code()),
        Keycode::MEDIASELECT => lemma_set_bit_30(Scancode::MEDIASELECT.code()),
        Keycode::WWW => lemma_set_bit_30(Scancode::WWW.code()),
        Keycode::MAIL => lemma_set_bit_30(Scancode::MAIL.code()),
        Keycode::CALCULATOR => lemma_set_bit_30(Scancode::CALCULATOR.code()),
        Keycode::COMPUTER => lemma_set_bit_30(Scancode::COMPUTER.code()),
        Keycode::AC_SEARCH => lemma_set_bit_30(Scancode::AC_SEARCH.code()),
        Keycode::AC_HOME => lemma_set_bit_30(Scancode::AC_HOME.code()),
        Keycode::AC_BACK => lemma_set_bit_30(Scancode::AC_BACK.code()),
        Keycode::AC_FORWARD => lemma_set_bit_30(Scancode::AC_FORWARD.code()),
        Keycode::AC_STOP => lemma_set_bit_30(Scancode::AC_STOP.code()),
        Keycode::AC_REFRESH => lemma_set_bit_30(Scancode::AC_REFRESH.code()),
        Keycode::AC_BOOKMARKS => lemma_set_bit_30(Scancode::AC_BOOKMARKS.code()),
        Keycode::BRIGHTNESSDOWN => lemma_set_bit_30(Scancode::BRIGHTNESSDOWN.code()),
        Keycode::BRIGHTNESSUP => lemma_set_bit_30(Scancode::BRIGHTNESSUP.code()),
        Keycode::DISPLAYSWITCH => lemma_set_bit_30(Scancode::DISPLAYSWITCH.code()),
        Keycode::KBDILLUMTOGGLE => lemma_set_bit_30(Scancode::KBDILLUMTOGGLE.code()),
        Keycode::KBDILLUMDOWN => lemma_set_bit_30(Scancode::KBDILLUMDOWN.code()),
        Keycode::KBDILLUMUP => lemma_set_bit_30(Scancode::KBDILLUMUP.code()),
        Keycode::EJECT => lemma_set_bit_30(Scancode::EJECT.code()),
        Keycode::SLEEP => lemma_set_bit_30(Scancode::SLEEP.code()),
        Keycode::APP1 => lemma_set_bit_30(Scancode::APP1.code()),
        Keycode::APP2 => lemma_set_bit_30(Scancode::APP2.code()),
        Keycode::AUDIOREWIND => lemma_set_bit_30(Scancode::AUDIOREWIND.code()),
        Keycode::AUDIOFASTFORWARD => lemma_set_bit_30(Scancode::AUDIOFASTFORWARD.code()),
    }
}

/// The kind of event whose SDL number is `code`, if there is one.
pub open spec fn event_type_with_code(code: u32) -> Option<EventType> {
    match code {
        0 => Some(EventType::FIRSTEVENT),
        0x100 => Some(EventType::QUIT),
        0x101 => Some(EventType::APP_TERMINATING),
        0x102 => Some(EventType::APP_LOWMEMORY),
        0x103 => Some(EventType::APP_WILLENTERBACKGROUND),
        0x104 => Some(EventType::APP_DIDENTERBACKGROUND),
        0x105 => Some(EventType::APP_WILLENTERFOREGROUND),
        0x106 => Some(EventType::APP_DIDENTERFOREGROUND),
        0x107 => Some(EventType::LOCALECHANGED),
        0x150 => Some(EventType::DISPLAYEVENT),
        0x200 => Some(EventType::WINDOWEVENT),
        0x201 => Some(EventType::SYSWMEVENT),
        0x300 => Some(EventType::KEYDOWN),
        0x301 => Some(EventType::KEYUP),
        0x302 => Some(EventType::TEXTEDITING),
        0x303 => Some(EventType::TEXTINPUT),
        0x304 => Some(EventType::KEYMAPCHANGED),
        0x400 => Some(EventType::MOUSEMOTION),
        0x401 => Some(EventType::MOUSEBUTTONDOWN),
        0x402 => Some(EventType::MOUSEBUTTONUP),
        0x403 => Some(EventType::MOUSEWHEEL),
        0x600 => Some(EventType::JOYAXISMOTION),
        0x601 => Some(EventType::JOYBALLMOTION),
        0x602 => Some(EventType::JOYHATMOTION),
        0x603 => Some(EventType::JOYBUTTONDOWN),
        0x604 => Some(EventType::JOYBUTTONUP),
        0x605 => Some(EventType::JOYDEVICEADDED),
        0x606 => Some(EventType::JOYDEVICEREMOVED),
        0x650 => Some(EventType::CONTROLLERAXISMOTION),
        0x651 => Some(EventType::CONTROLLERBUTTONDOWN),
        0x652 => Some(EventType::CONTROLLERBUTTONUP),
        0x653 => Some(EventType::CONTROLLERDEVICEADDED),
        0x654 => Some(EventType::CONTROLLERDEVICEREMOVED),
        0x655 => Some(EventType::CONTROLLERDEVICEREMAPPED),
        0x656 => Some(EventType::CONTROLLERTOUCHPADDOWN),
        0x657 => Some(EventType::CONTROLLERTOUCHPADMOTION),
        0x658 => Some(EventType::CONTROLLERTOUCHPADUP),
        0x659 => Some(EventType::CONTROLLERSENSORUPDATE),
        0x700 => Some(EventType::FINGERDOWN),
        0x701 => Some(EventType::FINGERUP),
        0x702 => Some(EventType::FINGERMOTION),
        0x800 => Some(EventType::DOLLARGESTURE),
        0x801 => Some(EventType::DOLLARRECORD),
        0x802 => Some(EventType::MULTIGESTURE),
        0x900 => Some(EventType::CLIPBOARDUPDATE),
        0x1000 => Some(EventType::DROPFILE),
        0x1001 => Some(EventType::DROPTEXT),
        0x1002 => Some(EventType::DROPBEGIN),
        0x1003 => Some(EventType::DROPCOMPLETE),
        0x1100 => Some(EventType::AUDIODEVICEADDED),
        0x1101 => Some(EventType::AUDIODEVICEREMOVED),
        0x1200 => Some(EventType::SENSORUPDATE),
        0x2000 => Some(EventType::RENDER_TARGETS_RESET),
        0x2001 => Some(EventType::RENDER_DEVICE_RESET),
        0x7f00 => Some(EventType::POLLSENTINEL),
        0x8000 => Some(EventType::USEREVENT),
        0xffff => Some(EventType::LASTEVENT),
        _ => None,
    }
}

/// Each kind of event has a number of its own: looking the number up gives the same kind of event back.
pub proof fn law_event_type_identifies(value: EventType)
    ensures
        event_type_with_code(value.code()) == Some(value),
{
    match value {
        EventType::FIRSTEVENT => {},
        EventType::QUIT => {},
        EventType::APP_TERMINATING => {},
        EventType::APP_LOWMEMORY => {},
        EventType::APP_WILLENTERBACKGROUND => {},
        EventType::APP_DIDENTERBACKGROUND => {},
        EventType::APP_WILLENTERFOREGROUND => {},
        EventType::APP_DIDENTERFOREGROUND => {},
        EventType::LOCALECHANGED => {},
        EventType::DISPLAYEVENT => {},
        EventType::WINDOWEVENT => {},
        EventType::SYSWMEVENT => {},
        EventType::KEYDOWN => {},
        EventType::KEYUP => {},
        EventType::TEXTEDITING => {},
        EventType::TEXTINPUT => {},
        EventType::KEYMAPCHANGED => {},
        EventType::MOUSEMOTION => {},
        EventType::MOUSEBUTTONDOWN => {},
        EventType::MOUSEBUTTONUP => {},
        EventType::MOUSEWHEEL => {},
        EventType::JOYAXISMOTION => {},
        EventType::JOYBALLMOTION => {},
        EventType::JOYHATMOTION => {},
        EventType::JOYBUTTONDOWN => {},
        EventType::JOYBUTTONUP => {},
        EventType::JOYDEVICEADDED => {},
        EventType::JOYDEVICEREMOVED => {},
        EventType::CONTROLLERAXISMOTION => {},
        EventType::CONTROLLERBUTTONDOWN => {},
        EventType::CONTROLLERBUTTONUP => {},
        EventType::CONTROLLERDEVICEADDED => {},
        EventType::CONTROLLERDEVICEREMOVED => {},
        EventType::CONTROLLERDEVICEREMAPPED => {},
        EventType::CONTROLLERTOUCHPADDOWN => {},
        EventType::CONTROLLERTOUCHPADMOTION => {},
        EventType::CONTROLLERTOUCHPADUP => {},
        EventType::CONTROLLERSENSORUPDATE => {},
        EventType::FINGERDOWN => {},
        EventType::FINGERUP => {},
        EventType::FINGERMOTION => {},
        EventType::DOLLARGESTURE => {},
        EventType::DOLLARRECORD => {},
        EventType::MULTIGESTURE => {},
        EventType::CLIPBOARDUPDATE => {},
        EventType::DROPFILE => {},
        EventType::DROPTEXT => {},
        EventType::DROPBEGIN => {},
        EventType::DROPCOMPLETE => {},
        EventType::AUDIODEVICEADDED => {},
        EventType::AUDIODEVICEREMOVED => {},
        EventType::SENSORUPDATE => {},
        EventType::RENDER_TARGETS_RESET => {},
        EventType::RENDER_DEVICE_RESET => {},
        EventType::POLLSENTINEL => {},
        EventType::USEREVENT => {},
        EventType::LASTEVENT => {},
    }
}

/// The window event whose SDL number is `code`, if there is one.
pub open spec fn window_event_id_with_code(code: u8) -> Option<WindowEventId> {
    match code {
        0 => Some(WindowEventId::Unused),
        1 => Some(WindowEventId::Shown),
        2 => Some(WindowEventId::Hidden),
        3 => Some(WindowEventId::Exposed),
        4 => Some(WindowEventId::Moved),
        5 => Some(WindowEventId::Resized),
        6 => Some(WindowEventId::SizeChanged),
        7 => Some(WindowEventId::Minimized),
        8 => Some(WindowEventId::Maximized),
        9 => Some(WindowEventId::Restored),
        10 => Some(WindowEventId::Enter),
        11 => Some(WindowEventId::Leave),
        12 => Some(WindowEventId::FocusGained),
        13 => Some(WindowEventId::FocusLost),
        14 => Some(WindowEventId::Close),
        15 => Some(WindowEventId::TakeFocus),
        16 => Some(WindowEventId::HitTest),
        17 => Some(WindowEventId::IccprofChanged),
        18 => Some(WindowEventId::DisplayChanged),
        _ => None,
    }
}

/// Each window event has a number of its own: looking the number up gives the same window event back.
pub proof fn law_window_event_id_identifies(value: WindowEventId)
    ensures
        window_event_id_with_code(value.code()) == Some(value),
{
    match value {
        WindowEventId::Unused => {},
        WindowEventId::Shown => {},
        WindowEventId::Hidden => {},
        WindowEventId::Exposed => {},
        WindowEventId::Moved => {},
        WindowEventId::Resized => {},
        WindowEventId::SizeChanged => {},
        WindowEventId::Minimized => {},
        WindowEventId::Maximized => {},
        WindowEventId::Restored => {},
        WindowEventId::Enter => {},
        WindowEventId::Leave => {},
        WindowEventId::FocusGained => {},
        WindowEventId::FocusLost => {},
        WindowEventId::Close => {},
        WindowEventId::TakeFocus => {},
        WindowEventId::HitTest => {},
        WindowEventId::IccprofChanged => {},
        WindowEventId::DisplayChanged => {},
    }
}

/// The windowing system whose SDL number is `code`, if there is one.
pub open spec fn sys_w_m_type_with_code(code: i32) -> Option<SysWMType> {
    match code {
        0 => Some(SysWMType::UNKNOWN),
        1 => Some(SysWMType::WINDOWS),
        2 => Some(SysWMType::X11),
        3 => Some(SysWMType::DIRECTFB),
        4 => Some(SysWMType::COCOA),
        5 => Some(SysWMType::UIKIT),
        6 => Some(SysWMType::WAYLAND),
        7 => Some(SysWMType::MIR),
        8 => Some(SysWMType::WINRT),
        9 => Some(SysWMType::ANDROID),
        10 => Some(SysWMType::VIVANTE),
        11 => Some(SysWMType::OS2),
        12 => Some(SysWMType::HAIKU),
        13 => Some(SysWMType::KMSDRM),
        14 => Some(SysWMType::RISCOS),
        _ => None,
    }
}

/// Each windowing system has a number of its own: looking the number up gives the same windowing system back.
pub proof fn law_sys_w_m_type_identifies(value: SysWMType)
    ensures
        sys_w_m_type_with_code(value.code()) == Some(value),
{
    match value {
        SysWMType::UNKNOWN => {},
        SysWMType::WINDOWS => {},
        SysWMType::X11 => {},
        SysWMType::DIRECTFB => {},
        SysWMType::COCOA => {},
        SysWMType::UIKIT => {},
        SysWMType::WAYLAND => {},
        SysWMType::MIR => {},
        SysWMType::WINRT => {},
        SysWMType::ANDROID => {},
        SysWMType::VIVANTE => {},
        SysWMType::OS2 => {},
        SysWMType::HAIKU => {},
        SysWMType::KMSDRM => {},
        SysWMType::RISCOS => {},
    }
}

} // verus!
