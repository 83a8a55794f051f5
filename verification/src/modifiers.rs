use vstd::prelude::*;

verus! {

// Modifier bitmasks as the X11 protocol defines them. The engine treats them
// as opaque bits: callers compose them with bitwise OR.

pub const ALT: u32 = 0x08;

pub const ALT_GR: u32 = 0xFFEA;

pub const CONTROL: u32 = 0x04;

pub const SHIFT: u32 = 0x01;

pub const SUPER: u32 = 0x40;

} // verus!
