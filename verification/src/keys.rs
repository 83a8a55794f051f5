use vstd::prelude::*;

verus! {

// Key codes as X11 keysym values. The engine performs no validation or
// translation on them: they are opaque numbers handed to the native grab.

pub const BACKSPACE: u32 = 0xFF08;

pub const TAB: u32 = 0xFF09;

pub const ENTER: u32 = 0xFF0D;

pub const CAPS_LOCK: u32 = 0xFFE5;

pub const ESCAPE: u32 = 0xFF1B;

pub const SPACEBAR: u32 = 0x20;

pub const PAGE_UP: u32 = 0xFF55;

pub const PAGE_DOWN: u32 = 0xFF56;

pub const END: u32 = 0xFF57;

pub const HOME: u32 = 0xFF50;

pub const ARROW_LEFT: u32 = 0xFF51;

pub const ARROW_RIGHT: u32 = 0xFF53;

pub const ARROW_UP: u32 = 0xFF52;

pub const ARROW_DOWN: u32 = 0xFF54;

pub const PRINT_SCREEN: u32 = 0xFF61;

pub const CLEAR: u32 = 0xFF0B;

pub const INSERT: u32 = 0xFF63;

pub const DELETE: u32 = 0xFFFF;

pub const SCROLL_LOCK: u32 = 0xFF14;

pub const HELP: u32 = 0xFF6A;

pub const NUMLOCK: u32 = 0xFF7F;

// Media keys

pub const VOLUME_MUTE: u32 = 0x1008FF12;

pub const VOLUME_DOWN: u32 = 0x1008FF11;

pub const VOLUME_UP: u32 = 0x1008FF13;

pub const MEDIA_NEXT: u32 = 0x1008FF17;

pub const MEDIA_PREV: u32 = 0x1008FF16;

pub const MEDIA_STOP: u32 = 0x1008FF15;

pub const MEDIA_PLAY_PAUSE: u32 = 0x1008FF14;

pub const LAUNCH_MAIL: u32 = 0x1008FF19;

// Function keys

pub const F1: u32 = 0xFFBE;

pub const F2: u32 = 0xFFBF;

pub const F3: u32 = 0xFFC0;

pub const F4: u32 = 0xFFC1;

pub const F5: u32 = 0xFFC2;

pub const F6: u32 = 0xFFC3;

pub const F7: u32 = 0xFFC4;

pub const F8: u32 = 0xFFC5;

pub const F9: u32 = 0xFFC6;

pub const F10: u32 = 0xFFC7;

pub const F11: u32 = 0xFFC8;

pub const F12: u32 = 0xFFC9;

// Numeric keypad

pub const ADD: u32 = 0xFFAB;

pub const SUBTRACT: u32 = 0xFFAD;

pub const MULTIPLY: u32 = 0xFFAA;

pub const DIVIDE: u32 = 0xFFAF;

pub const DECIMAL: u32 = 0xFFAE;

pub const NUMPAD0: u32 = 0xFFB0;

pub const NUMPAD1: u32 = 0xFFB1;

pub const NUMPAD2: u32 = 0xFFB2;

pub const NUMPAD3: u32 = 0xFFB3;

pub const NUMPAD4: u32 = 0xFFB4;

pub const NUMPAD5: u32 = 0xFFB5;

pub const NUMPAD6: u32 = 0xFFB6;

pub const NUMPAD7: u32 = 0xFFB7;

pub const NUMPAD8: u32 = 0xFFB8;

pub const NUMPAD9: u32 = 0xFFB9;

// Digit row

pub const KEY_0: u32 = 0x30;

pub const KEY_1: u32 = 0x31;

pub const KEY_2: u32 = 0x32;

pub const KEY_3: u32 = 0x33;

pub const KEY_4: u32 = 0x34;

pub const KEY_5: u32 = 0x35;

pub const KEY_6: u32 = 0x36;

pub const KEY_7: u32 = 0x37;

pub const KEY_8: u32 = 0x38;

pub const KEY_9: u32 = 0x39;

// Letters

pub const A: u32 = 0x41;

pub const B: u32 = 0x42;

pub const C: u32 = 0x43;

pub const D: u32 = 0x44;

pub const E: u32 = 0x45;

pub const F: u32 = 0x46;

pub const G: u32 = 0x47;

pub const H: u32 = 0x48;

pub const I: u32 = 0x49;

pub const J: u32 = 0x4A;

pub const K: u32 = 0x4B;

pub const L: u32 = 0x4C;

pub const M: u32 = 0x4D;

pub const N: u32 = 0x4E;

pub const O: u32 = 0x4F;

pub const P: u32 = 0x50;

pub const Q: u32 = 0x51;

pub const R: u32 = 0x52;

pub const S: u32 = 0x53;

pub const T: u32 = 0x54;

pub const U: u32 = 0x55;

pub const V: u32 = 0x56;

pub const W: u32 = 0x57;

pub const X: u32 = 0x58;

pub const Y: u32 = 0x59;

pub const Z: u32 = 0x5A;

// Punctuation

pub const EQUAL: u32 = 0x3D;

pub const MINUS: u32 = 0x2D;

pub const SINGLE_QUOTE: u32 = 0xAD0;

pub const COMMA: u32 = 0x2C;

pub const PERIOD: u32 = 0x2E;

pub const SEMICOLON: u32 = 0x3B;

pub const SLASH: u32 = 0x2F;

pub const OPEN_QUOTE: u32 = 0xB4;

pub const OPEN_BRACKET: u32 = 0x5B;

pub const BACK_SLASH: u32 = 0x5C;

pub const CLOSE_BRACKET: u32 = 0x5D;

} // verus!
