use me_tv::channels_data::{ChannelList, LogicalChannelMap};
use me_tv::control_window_button::{ControlError, ControlWindowButton, KeystrokeOutcome};
use me_tv::frontend_manager::FrontendId;
use me_tv::frontend_window::VolumeControl;
use me_tv::input_event_codes::{KEY_CHANNELDOWN, KEY_CHANNELUP};
use me_tv::remote_control::TargettedKeystroke;

fn fid() -> FrontendId {
    FrontendId { adapter: 0, frontend: 0 }
}

fn three_channels() -> ChannelList {
    ChannelList::from_names(vec![
        "BBC One".to_string(),
        "BBC Two".to_string(),
        "ITV".to_string(),
    ])
}

fn empty_map() -> LogicalChannelMap {
    LogicalChannelMap::from_entries(Vec::new())
}

fn volume() -> VolumeControl {
    VolumeControl { value: 5, lower: 0, upper: 10, step: 3 }
}

#[test]
fn new_coordinator_starts_inactive_at_index_zero() {
    let c = ControlWindowButton::new(fid());
    assert!(!c.active);
    assert!(c.frontend_window.is_none());
    assert_eq!(c.channel_selector, 0);
    assert_eq!(c.channel_entry.digits.len(), 0);
    assert!(!c.channel_entry.visible);
}

#[test]
fn set_channel_index_synchronizes_all_selectors() {
    let mut c = ControlWindowButton::new(fid());
    c.on_engine_created(volume());
    let changes = c.set_channel_index(2);
    assert_eq!(c.channel_selector, 2);
    let w = c.frontend_window.unwrap();
    assert_eq!(w.channel_selector, 2);
    assert_eq!(w.fullscreen_channel_selector, 2);
    assert!(changes.control && changes.window && changes.fullscreen);
}

#[test]
fn set_channel_index_twice_is_notification_free() {
    let mut c = ControlWindowButton::new(fid());
    c.on_engine_created(volume());
    let first = c.set_channel_index(1);
    assert!(first.control && first.window && first.fullscreen);
    let second = c.set_channel_index(1);
    assert!(!second.control && !second.window && !second.fullscreen);
    assert_eq!(c.channel_selector, 1);
}

#[test]
fn reset_active_channel_forces_index_zero() {
    let mut c = ControlWindowButton::new(fid());
    c.on_engine_created(volume());
    c.set_channel_index(2);
    c.reset_active_channel();
    assert_eq!(c.channel_selector, 0);
    let w = c.frontend_window.unwrap();
    assert_eq!(w.channel_selector, 0);
    assert_eq!(w.fullscreen_channel_selector, 0);
}

#[test]
fn activation_without_channel_list_is_refused() {
    let c = ControlWindowButton::new(fid());
    let r = c.on_toggle_activated(false);
    assert_eq!(r, Err(ControlError::NoChannelList));
    assert!(!c.active);
    assert!(c.frontend_window.is_none());
}

#[test]
fn activation_with_channel_list_proceeds() {
    let c = ControlWindowButton::new(fid());
    assert_eq!(c.on_toggle_activated(true), Ok(()));
}

#[test]
fn engine_creation_links_exactly_one_window() {
    let mut c = ControlWindowButton::new(fid());
    c.set_channel_index(1);
    c.on_engine_created(volume());
    assert!(c.active);
    let w = c.frontend_window.unwrap();
    assert_eq!(w.channel_selector, 1);
    assert_eq!(w.fullscreen_channel_selector, 1);
    assert_eq!(w.volume.value, 5);
}

#[test]
fn engine_creation_failure_leaves_unlinked_active_state() {
    let mut c = ControlWindowButton::new(fid());
    c.on_engine_creation_failed();
    assert!(c.active);
    assert!(c.frontend_window.is_none());
}

#[test]
fn deactivation_unlinks_and_returns_the_window() {
    let mut c = ControlWindowButton::new(fid());
    c.on_engine_created(volume());
    let w = c.on_toggle_deactivated();
    assert_eq!(w.volume.value, 5);
    assert!(!c.active);
    assert!(c.frontend_window.is_none());
}

#[test]
fn force_deactivate_clears_any_state() {
    let mut c = ControlWindowButton::new(fid());
    c.on_engine_creation_failed();
    let w = c.force_deactivate();
    assert!(w.is_none());
    assert!(!c.active);

    let mut c2 = ControlWindowButton::new(fid());
    c2.on_engine_created(volume());
    let w2 = c2.force_deactivate();
    assert!(w2.is_some());
    assert!(!c2.active);
    assert!(c2.frontend_window.is_none());
}

#[test]
fn channel_up_five_times_clamps_at_last_index() {
    let channels = three_channels();
    let logical = empty_map();
    let mut c = ControlWindowButton::new(fid());
    c.on_engine_created(volume());
    for _ in 0..5 {
        c.process_targetted_keystroke(
            &TargettedKeystroke { frontend_id: fid(), keystroke: KEY_CHANNELUP, value: 1 },
            &channels,
            &logical,
        );
    }
    assert_eq!(c.channel_selector, 2);
    let w = c.frontend_window.unwrap();
    assert_eq!(w.channel_selector, 2);
    assert_eq!(w.fullscreen_channel_selector, 2);
}

#[test]
fn channel_up_at_top_is_ignored() {
    let channels = three_channels();
    let logical = empty_map();
    let mut c = ControlWindowButton::new(fid());
    c.set_channel_index(2);
    let r = c.process_targetted_keystroke(
        &TargettedKeystroke { frontend_id: fid(), keystroke: KEY_CHANNELUP, value: 1 },
        &channels,
        &logical,
    );
    assert!(matches!(r, KeystrokeOutcome::Ignored));
    assert_eq!(c.channel_selector, 2);
}

#[test]
fn channel_down_clamps_at_zero() {
    let channels = three_channels();
    let logical = empty_map();
    let mut c = ControlWindowButton::new(fid());
    let r = c.process_targetted_keystroke(
        &TargettedKeystroke { frontend_id: fid(), keystroke: KEY_CHANNELDOWN, value: 1 },
        &channels,
        &logical,
    );
    assert!(matches!(r, KeystrokeOutcome::Ignored));
    assert_eq!(c.channel_selector, 0);
}

#[test]
fn channel_navigation_reports_engine_actions_while_playing() {
    let channels = three_channels();
    let logical = empty_map();
    let mut c = ControlWindowButton::new(fid());
    c.on_engine_created(volume());
    let r = c.process_targetted_keystroke(
        &TargettedKeystroke { frontend_id: fid(), keystroke: KEY_CHANNELUP, value: 1 },
        &channels,
        &logical,
    );
    match r {
        KeystrokeOutcome::ChannelChanged(a) => {
            assert!(a.stop_engine && a.retitle_window && a.clear_video_frame && a.resume_play);
            assert_eq!(a.channel_name, "BBC Two");
            assert!(a.changes.control && a.changes.window && a.changes.fullscreen);
        },
        other => panic!("expected a channel change, got {:?}", other),
    }
    assert_eq!(c.channel_selector, 1);
}

#[test]
fn key_release_is_ignored() {
    let channels = three_channels();
    let logical = empty_map();
    let mut c = ControlWindowButton::new(fid());
    let r = c.process_targetted_keystroke(
        &TargettedKeystroke { frontend_id: fid(), keystroke: KEY_CHANNELUP, value: 0 },
        &channels,
        &logical,
    );
    assert!(matches!(r, KeystrokeOutcome::Ignored));
    assert_eq!(c.channel_selector, 0);
}
