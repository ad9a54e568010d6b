//! Key symbols that the built-in bindings speak of.

use vstd::prelude::*;

verus! {

/// A key symbol: the logical key, whatever physical key produced it.
pub type Keysym = u32;

/// Stands for "no key symbol"; what a name resolves to when it names none.
pub const KEY_NO_SYMBOL: Keysym = 0x0000_0000;

pub const KEY_BACKSPACE: Keysym = 0xff08;

pub const KEY_RETURN: Keysym = 0xff0d;

/// The digit keys `1` to `9` are consecutive.
pub const KEY_1: Keysym = 0x0031;

pub const KEY_9: Keysym = 0x0039;

/// The capital letter Q.
pub const KEY_Q_UPPER: Keysym = 0x0051;

/// The small letter q.
pub const KEY_Q_LOWER: Keysym = 0x0071;

/// The twelve virtual-terminal switch keys are consecutive.
pub const KEY_SWITCH_VT_1: Keysym = 0x1008_fe01;

pub const KEY_SWITCH_VT_12: Keysym = 0x1008_fe0c;

} // verus!
