//! The Linux input-event key codes the remote-control router understands.

use vstd::prelude::*;

verus! {

pub const KEY_VOLUMEDOWN: u32 = 114;

pub const KEY_VOLUMEUP: u32 = 115;

pub const KEY_CHANNELUP: u32 = 402;

pub const KEY_CHANNELDOWN: u32 = 403;

pub const KEY_NUMERIC_0: u32 = 512;

pub const KEY_NUMERIC_1: u32 = 513;

pub const KEY_NUMERIC_2: u32 = 514;

pub const KEY_NUMERIC_3: u32 = 515;

pub const KEY_NUMERIC_4: u32 = 516;

pub const KEY_NUMERIC_5: u32 = 517;

pub const KEY_NUMERIC_6: u32 = 518;

pub const KEY_NUMERIC_7: u32 = 519;

pub const KEY_NUMERIC_8: u32 = 520;

pub const KEY_NUMERIC_9: u32 = 521;

} // verus!
