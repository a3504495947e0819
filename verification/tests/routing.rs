use me_tv::channels_data::{ChannelList, LogicalChannelMap};
use me_tv::control_window_button::{ControlWindowButton, KeystrokeOutcome};
use me_tv::frontend_manager::FrontendId;
use me_tv::frontend_window::VolumeControl;
use me_tv::input_event_codes::{
    KEY_CHANNELDOWN, KEY_CHANNELUP, KEY_NUMERIC_0, KEY_NUMERIC_9, KEY_VOLUMEDOWN, KEY_VOLUMEUP,
};
use me_tv::remote_control::{classify, KeyAction, TargettedKeystroke};

fn fid() -> FrontendId {
    FrontendId { adapter: 3, frontend: 1 }
}

#[test]
fn classification_matches_the_key_codes() {
    assert_eq!(classify(KEY_CHANNELUP, 1), KeyAction::ChannelUp);
    assert_eq!(classify(KEY_CHANNELUP, 2), KeyAction::ChannelUp);
    assert_eq!(classify(KEY_CHANNELUP, 0), KeyAction::Ignore);
    assert_eq!(classify(KEY_CHANNELDOWN, 1), KeyAction::ChannelDown);
    assert_eq!(classify(KEY_VOLUMEUP, 1), KeyAction::VolumeUp);
    assert_eq!(classify(KEY_VOLUMEDOWN, 1), KeyAction::VolumeDown);
    assert_eq!(classify(KEY_NUMERIC_0, 1), KeyAction::Digit(0));
    assert_eq!(classify(KEY_NUMERIC_9, 1), KeyAction::Digit(9));
    assert_eq!(classify(KEY_NUMERIC_9, 2), KeyAction::Ignore);
    assert_eq!(classify(1, 1), KeyAction::Ignore);
}

#[test]
fn volume_up_steps_and_clamps() {
    let channels = ChannelList::from_names(vec!["Alpha".to_string()]);
    let logical = LogicalChannelMap::from_entries(Vec::new());
    let mut c = ControlWindowButton::new(fid());
    c.on_engine_created(VolumeControl { value: 5, lower: 0, upper: 10, step: 3 });
    let key = TargettedKeystroke { frontend_id: fid(), keystroke: KEY_VOLUMEUP, value: 1 };
    let r = c.process_targetted_keystroke(&key, &channels, &logical);
    assert!(matches!(r, KeystrokeOutcome::VolumeChanged(8)));
    let r = c.process_targetted_keystroke(&key, &channels, &logical);
    assert!(matches!(r, KeystrokeOutcome::VolumeChanged(10)));
    let r = c.process_targetted_keystroke(&key, &channels, &logical);
    assert!(matches!(r, KeystrokeOutcome::VolumeChanged(10)));
}

#[test]
fn volume_down_steps_and_clamps() {
    let channels = ChannelList::from_names(vec!["Alpha".to_string()]);
    let logical = LogicalChannelMap::from_entries(Vec::new());
    let mut c = ControlWindowButton::new(fid());
    c.on_engine_created(VolumeControl { value: 4, lower: 0, upper: 10, step: 3 });
    let key = TargettedKeystroke { frontend_id: fid(), keystroke: KEY_VOLUMEDOWN, value: 1 };
    let r = c.process_targetted_keystroke(&key, &channels, &logical);
    assert!(matches!(r, KeystrokeOutcome::VolumeChanged(1)));
    let r = c.process_targetted_keystroke(&key, &channels, &logical);
    assert!(matches!(r, KeystrokeOutcome::VolumeChanged(0)));
}

#[test]
fn volume_keys_without_a_window_are_ignored() {
    let channels = ChannelList::from_names(vec!["Alpha".to_string()]);
    let logical = LogicalChannelMap::from_entries(Vec::new());
    let mut c = ControlWindowButton::new(fid());
    let key = TargettedKeystroke { frontend_id: fid(), keystroke: KEY_VOLUMEUP, value: 1 };
    let r = c.process_targetted_keystroke(&key, &channels, &logical);
    assert!(matches!(r, KeystrokeOutcome::Ignored));
}

#[test]
fn unknown_key_codes_are_ignored() {
    let channels = ChannelList::from_names(vec!["Alpha".to_string(), "Beta".to_string()]);
    let logical = LogicalChannelMap::from_entries(Vec::new());
    let mut c = ControlWindowButton::new(fid());
    let key = TargettedKeystroke { frontend_id: fid(), keystroke: 30, value: 1 };
    let r = c.process_targetted_keystroke(&key, &channels, &logical);
    assert!(matches!(r, KeystrokeOutcome::Ignored));
    assert_eq!(c.channel_selector, 0);
}

#[test]
fn channel_list_lookup_finds_the_first_occurrence() {
    let channels = ChannelList::from_names(vec![
        "Alpha".to_string(),
        "Beta".to_string(),
        "Alpha".to_string(),
    ]);
    assert_eq!(channels.index_of_name(&"Alpha".to_string()), Some(0));
    assert_eq!(channels.index_of_name(&"Beta".to_string()), Some(1));
    assert_eq!(channels.index_of_name(&"Gamma".to_string()), None);
    assert_eq!(channels.count(), 3);
    assert_eq!(channels.name_at(1), "Beta");
}

#[test]
fn number_mapping_takes_the_first_binding() {
    let logical = LogicalChannelMap::from_entries(vec![
        (1, "Alpha".to_string()),
        (2, "Beta".to_string()),
        (1, "Shadow".to_string()),
    ]);
    assert_eq!(logical.name_for_number(1), Some(&"Alpha".to_string()));
    assert_eq!(logical.name_for_number(2), Some(&"Beta".to_string()));
    assert_eq!(logical.name_for_number(3), None);
}
