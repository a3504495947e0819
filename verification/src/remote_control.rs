//! Remote-control keystrokes addressed to one front end, and their
//! classification into control actions.

use vstd::prelude::*;

use crate::frontend_manager::FrontendId;
use crate::input_event_codes::{
    KEY_CHANNELDOWN, KEY_CHANNELUP, KEY_NUMERIC_0, KEY_NUMERIC_9, KEY_VOLUMEDOWN, KEY_VOLUMEUP,
};

verus! {

/// A keystroke delivered for a specific front end. `value > 0` signals a key
/// press or repeat, `value == 0` a release. Transient: never stored.
#[derive(Clone, Copy, Debug, PartialEq, Eq, Structural)]
pub struct TargettedKeystroke {
    pub frontend_id: FrontendId,
    pub keystroke: u32,
    pub value: u32,
}

/// What a keystroke asks of the coordinator. Digit keys act on the initial
/// press only (`value == 1`), the navigation keys on press or repeat; every
/// release and every unknown code is ignored.
#[derive(Clone, Copy, Debug, PartialEq, Eq, Structural)]
pub enum KeyAction {
    ChannelUp,
    ChannelDown,
    VolumeUp,
    VolumeDown,
    Digit(u8),
    Ignore,
}

pub open spec fn spec_classify(keystroke: u32, value: u32) -> KeyAction {
    if keystroke == KEY_CHANNELUP {
        if value > 0 {
            KeyAction::ChannelUp
        } else {
            KeyAction::Ignore
        }
    } else if keystroke == KEY_CHANNELDOWN {
        if value > 0 {
            KeyAction::ChannelDown
        } else {
            KeyAction::Ignore
        }
    } else if keystroke == KEY_VOLUMEUP {
        if value > 0 {
            KeyAction::VolumeUp
        } else {
            KeyAction::Ignore
        }
    } else if keystroke == KEY_VOLUMEDOWN {
        if value > 0 {
            KeyAction::VolumeDown
        } else {
            KeyAction::Ignore
        }
    } else if KEY_NUMERIC_0 <= keystroke && keystroke <= KEY_NUMERIC_9 {
        if value == 1 {
            KeyAction::Digit((keystroke - KEY_NUMERIC_0) as u8)
        } else {
            KeyAction::Ignore
        }
    } else {
        KeyAction::Ignore
    }
}

pub fn classify(keystroke: u32, value: u32) -> (r: KeyAction)
    ensures
        r == spec_classify(keystroke, value),
{
    if keystroke == KEY_CHANNELUP {
        if value > 0 {
            KeyAction::ChannelUp
        } else {
            KeyAction::Ignore
        }
    } else if keystroke == KEY_CHANNELDOWN {
        if value > 0 {
            KeyAction::ChannelDown
        } else {
            KeyAction::Ignore
        }
    } else if keystroke == KEY_VOLUMEUP {
        if value > 0 {
            KeyAction::VolumeUp
        } else {
            KeyAction::Ignore
        }
    } else if keystroke == KEY_VOLUMEDOWN {
        if value > 0 {
            KeyAction::VolumeDown
        } else {
            KeyAction::Ignore
        }
    } else if KEY_NUMERIC_0 <= keystroke && keystroke <= KEY_NUMERIC_9 {
        if value == 1 {
            KeyAction::Digit((keystroke - KEY_NUMERIC_0) as u8)
        } else {
            KeyAction::Ignore
        }
    } else {
        KeyAction::Ignore
    }
}

} // verus!
