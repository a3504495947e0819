//! The per-front-end control coordinator: the activation toggle, the shared
//! channel selection fanned out over every visual surface, and the glue from
//! remote-control keystrokes to channel and volume changes.
//!
//! The coordinator owns plain-value models of its surfaces and decides; the
//! surrounding event loop performs the returned actions (create or stop the
//! engine, retitle the window, show dialogs, arm the entry timeout).

use vstd::prelude::*;

use crate::channel_entry::{
    buffer_value, spec_buffer_after_digit, spec_commit_after_digit, spec_commit_on_timeout,
    ChannelEntry, DigitOutcome,
};
use crate::channels_data::{
    spec_first_index_of, spec_name_for_number, ChannelList, LogicalChannelMap,
};
use crate::frontend_manager::FrontendId;
use crate::frontend_window::{spec_volume_down, spec_volume_up, FrontendWindow, VolumeControl};
use crate::remote_control::{classify, spec_classify, KeyAction, TargettedKeystroke};

verus! {

/// Which of the synchronized selectors a channel-index fan-out actually
/// moved. A selector already showing the index is left alone, so no
/// redundant change notification goes out for it.
#[derive(Clone, Copy, Debug, PartialEq, Eq, Structural)]
pub struct SelectorChanges {
    pub control: bool,
    pub window: bool,
    pub fullscreen: bool,
}

impl SelectorChanges {
    /// No selector moved: the fan-out was free of side effects.
    pub open spec fn none(self) -> bool {
        !self.control && !self.window && !self.fullscreen
    }
}

/// Why a toggle activation was refused.
#[derive(Clone, Copy, Debug, PartialEq, Eq, Structural)]
pub enum ControlError {
    /// No channel file, so no channel list, so nothing can play.
    NoChannelList,
}

/// What the event loop must do after an observed channel change. The
/// engine-facing actions apply only while playback runs; the name is always
/// resolved, to become the engine's locator and the persisted last channel.
#[derive(Debug)]
pub struct ChannelChangedActions {
    /// Stop the engine before retuning.
    pub stop_engine: bool,
    /// Retitle the playback window after the new channel.
    pub retitle_window: bool,
    /// Clear the last video frame, also on a switch to a radio channel.
    pub clear_video_frame: bool,
    /// Resume playback on the new channel's locator.
    pub resume_play: bool,
    /// The new channel's display name: encode it to the locator and persist
    /// it as the last channel.
    pub channel_name: String,
    /// Which selectors actually moved.
    pub changes: SelectorChanges,
}

/// How a committed channel number played out.
#[derive(Debug)]
pub enum CommitOutcome {
    /// The number resolved to a different channel: the selection moved.
    Changed(ChannelChangedActions),
    /// The number resolved to the channel already selected: nothing to do.
    AlreadyCurrent,
    /// The number is bound to no channel name: discarded silently.
    UnknownNumber,
    /// The mapping names a channel the list does not hold: inconsistent
    /// external data, reported instead of acted on.
    NameNotInList,
}

/// What a targetted keystroke asks the event loop to do.
#[derive(Debug)]
pub enum KeystrokeOutcome {
    /// The channel selection moved: perform these actions.
    ChannelChanged(ChannelChangedActions),
    /// The playback window's volume control moved to this value.
    VolumeChanged(u32),
    /// A digit was buffered: show the entry surface and arm a three-second
    /// timeout carrying this snapshot of the buffer.
    DigitBuffered(Vec<u8>),
    /// The third digit arrived and the buffered number was committed.
    DigitCommitted(CommitOutcome),
    /// Nothing to do: a release, an unknown code, or a clamped navigation.
    Ignored,
}

/// The actions returned for a channel change observed in state `pre`:
/// engine-facing actions exactly while a playback window runs, the display
/// name at the new index, and one change notification per selector moved.
pub open spec fn channel_changed_actions_ok(
    pre: ControlWindowButton,
    i: u32,
    channels: Seq<Seq<char>>,
    a: ChannelChangedActions,
) -> bool {
    &&& a.channel_name@ == channels[i as int]
    &&& a.stop_engine == (pre.active && pre.frontend_window is Some)
    &&& a.retitle_window == (pre.active && pre.frontend_window is Some)
    &&& a.clear_video_frame == (pre.active && pre.frontend_window is Some)
    &&& a.resume_play == (pre.active && pre.frontend_window is Some)
    &&& a.changes == pre.spec_selector_changes(i)
}

/// Agreement of two coordinator states on everything but the digit buffer.
pub open spec fn same_core(a: ControlWindowButton, b: ControlWindowButton) -> bool {
    &&& a.frontend_id == b.frontend_id
    &&& a.active == b.active
    &&& a.channel_selector == b.channel_selector
    &&& a.frontend_window == b.frontend_window
}

/// How committing `number` in state `pre` resolves and what it leaves
/// behind, on everything but the digit buffer: an unbound number and a name
/// missing from the list change nothing, a number bound to the current
/// selection changes nothing, and otherwise the selection moves to the
/// resolved index with the corresponding actions.
pub open spec fn commit_outcome_ok(
    pre: ControlWindowButton,
    number: u16,
    channels: Seq<Seq<char>>,
    logical: Seq<(u16, Seq<char>)>,
    r: CommitOutcome,
    post: ControlWindowButton,
) -> bool {
    match spec_name_for_number(logical, number) {
        None => r is UnknownNumber && same_core(post, pre),
        Some(name) => match spec_first_index_of(channels, name) {
            None => r is NameNotInList && same_core(post, pre),
            Some(i) => if i == pre.channel_selector as int {
                r is AlreadyCurrent && same_core(post, pre)
            } else {
                &&& r matches CommitOutcome::Changed(a) && channel_changed_actions_ok(
                    pre,
                    i as u32,
                    channels,
                    a,
                )
                &&& same_core(post, pre.spec_set_channel_index(i as u32))
            },
        },
    }
}

/// The coordinator for one front end.
pub struct ControlWindowButton {
    pub frontend_id: FrontendId,
    /// The activation toggle's state.
    pub active: bool,
    /// The authoritative channel selection, mirrored by the compact
    /// control's selector.
    pub channel_selector: u32,
    /// The linked playback window, present exactly while playback runs
    /// (barring the unlinked-active state a failed engine creation leaves).
    pub frontend_window: Option<FrontendWindow>,
    /// The numeric channel-entry machine.
    pub channel_entry: ChannelEntry,
}

impl ControlWindowButton {
    /// The coordinator's internal consistency: a playback window is held
    /// only while the toggle is active, and the digit buffer is sound.
    pub open spec fn wf(self) -> bool {
        &&& self.channel_entry.wf()
        &&& match self.frontend_window {
            Some(w) => w.wf() && self.active,
            None => true,
        }
    }

    /// Every synchronized selector reports index `i`.
    pub open spec fn selectors_synced_at(self, i: u32) -> bool {
        &&& self.channel_selector == i
        &&& match self.frontend_window {
            Some(w) => w.channel_selector == i && w.fullscreen_channel_selector == i,
            None => true,
        }
    }

    /// The state after fanning index `i` out to every selector.
    pub open spec fn spec_set_channel_index(self, i: u32) -> ControlWindowButton {
        ControlWindowButton {
            channel_selector: i,
            frontend_window: match self.frontend_window {
                Some(w) => Some(
                    FrontendWindow { channel_selector: i, fullscreen_channel_selector: i, ..w },
                ),
                None => None,
            },
            ..self
        }
    }

    /// Which selectors differ from `i`, hence would be moved and notify.
    pub open spec fn spec_selector_changes(self, i: u32) -> SelectorChanges {
        SelectorChanges {
            control: self.channel_selector != i,
            window: match self.frontend_window {
                Some(w) => w.channel_selector != i,
                None => false,
            },
            fullscreen: match self.frontend_window {
                Some(w) => w.fullscreen_channel_selector != i,
                None => false,
            },
        }
    }

    /// Build the coordinator for a newly available front end: toggle off, no
    /// playback window, selection at index 0, digit buffer empty. The
    /// toolkit surfaces themselves are the event loop's to build.
    pub fn new(frontend_id: FrontendId) -> (r: ControlWindowButton)
        ensures
            r.wf(),
            r.frontend_id == frontend_id,
            !r.active,
            r.frontend_window is None,
            r.selectors_synced_at(0),
            r.channel_entry.cleared(),
    {
        ControlWindowButton {
            frontend_id,
            active: false,
            channel_selector: 0,
            frontend_window: None,
            channel_entry: ChannelEntry::new(),
        }
    }

    /// Force every synchronized selector back to index 0.
    pub fn reset_active_channel(&mut self)
        ensures
            *final(self) == old(self).spec_set_channel_index(0),
            final(self).selectors_synced_at(0),
    {
        self.channel_selector = 0;
        match &mut self.frontend_window {
            Some(w) => {
                w.channel_selector = 0;
                w.fullscreen_channel_selector = 0;
            },
            None => {},
        }
    }

    /// Fan index `i` out to every synchronized selector, moving only those
    /// that differ so no redundant change notification is emitted.
    pub fn set_channel_index(&mut self, channel_index: u32) -> (r: SelectorChanges)
        ensures
            *final(self) == old(self).spec_set_channel_index(channel_index),
            r == old(self).spec_selector_changes(channel_index),
            final(self).selectors_synced_at(channel_index),
    {
        let control_moved = self.channel_selector != channel_index;
        if control_moved {
            self.channel_selector = channel_index;
        }
        let mut window_moved = false;
        let mut fullscreen_moved = false;
        match &mut self.frontend_window {
            Some(w) => {
                if w.channel_selector != channel_index {
                    w.channel_selector = channel_index;
                    window_moved = true;
                }
                if w.fullscreen_channel_selector != channel_index {
                    w.fullscreen_channel_selector = channel_index;
                    fullscreen_moved = true;
                }
            },
            None => {},
        }
        SelectorChanges { control: control_moved, window: window_moved, fullscreen: fullscreen_moved }
    }

    /// The user switched the toggle on. With no channel list loaded the
    /// activation is refused: the event loop reports the error and reverts
    /// the visual toggle, and the coordinator is untouched. Otherwise the
    /// event loop must attempt to create the playback engine and window and
    /// report back through [`Self::on_engine_created`] or
    /// [`Self::on_engine_creation_failed`].
    pub fn on_toggle_activated(&self, channels_loaded: bool) -> (r: Result<(), ControlError>)
        requires
            self.wf(),
            !self.active,
        ensures
            r is Ok <==> channels_loaded,
            !channels_loaded ==> r == Err::<(), ControlError>(ControlError::NoChannelList),
    {
        if channels_loaded {
            Ok(())
        } else {
            Err(ControlError::NoChannelList)
        }
    }

    /// The playback engine and window came up: link the window, with its
    /// selectors synchronized to the current selection, and mark the toggle
    /// active. Activation and window ownership are one to one: a window may
    /// only be linked while none is held.
    pub fn on_engine_created(&mut self, volume: VolumeControl)
        requires
            old(self).wf(),
            !old(self).active,
            volume.wf(),
        ensures
            final(self).wf(),
            final(self).active,
            final(self).frontend_window == Some(
                FrontendWindow {
                    channel_selector: old(self).channel_selector,
                    fullscreen_channel_selector: old(self).channel_selector,
                    volume,
                },
            ),
            final(self).frontend_id == old(self).frontend_id,
            final(self).channel_selector == old(self).channel_selector,
            final(self).channel_entry == old(self).channel_entry,
            final(self).selectors_synced_at(old(self).channel_selector),
    {
        self.active = true;
        self.frontend_window = Some(
            FrontendWindow {
                channel_selector: self.channel_selector,
                fullscreen_channel_selector: self.channel_selector,
                volume,
            },
        );
    }

    /// The playback engine could not be created: the event loop reports the
    /// error, and the toggle is left in the unlinked active state, holding
    /// no playback window.
    pub fn on_engine_creation_failed(&mut self)
        requires
            old(self).wf(),
            !old(self).active,
        ensures
            final(self).wf(),
            *final(self) == (ControlWindowButton { active: true, ..*old(self) }),
            final(self).frontend_window is None,
    {
        self.active = true;
    }

    /// The user switched the toggle off: unlink and return the playback
    /// window, whose engine the event loop must stop. Deactivation implies a
    /// window was linked.
    pub fn on_toggle_deactivated(&mut self) -> (r: FrontendWindow)
        requires
            old(self).wf(),
            old(self).frontend_window is Some,
        ensures
            final(self).wf(),
            *final(self) == (ControlWindowButton {
                active: false,
                frontend_window: None,
                ..*old(self)
            }),
            old(self).frontend_window == Some(r),
    {
        let w = self.force_deactivate();
        w.unwrap()
    }

    /// Force the front end out of playback, whatever its state: on a device
    /// removal the coordinator must transition exactly as a user
    /// deactivation would, and this also clears the unlinked active state a
    /// failed engine creation leaves. Returns the window to tear down, if
    /// one was linked.
    pub fn force_deactivate(&mut self) -> (r: Option<FrontendWindow>)
        requires
            old(self).wf(),
        ensures
            final(self).wf(),
            *final(self) == (ControlWindowButton {
                active: false,
                frontend_window: None,
                ..*old(self)
            }),
            r == old(self).frontend_window,
    {
        self.active = false;
        let w = self.frontend_window;
        self.frontend_window = None;
        w
    }

    /// A synchronized selector observed a channel change: fan the new index
    /// out to the other selectors, and hand the event loop what to do with
    /// the engine and the new channel's name.
    pub fn on_channel_changed(&mut self, channel_index: u32, channels: &ChannelList) -> (r:
        ChannelChangedActions)
        requires
            old(self).wf(),
            (channel_index as int) < channels@.len(),
        ensures
            final(self).wf(),
            *final(self) == old(self).spec_set_channel_index(channel_index),
            final(self).selectors_synced_at(channel_index),
            channel_changed_actions_ok(*old(self), channel_index, channels@, r),
    {
        let engaged = self.active && self.frontend_window.is_some();
        let changes = self.set_channel_index(channel_index);
        let channel_name = channels.name_at(channel_index).clone();
        ChannelChangedActions {
            stop_engine: engaged,
            retitle_window: engaged,
            clear_video_frame: engaged,
            resume_play: engaged,
            channel_name,
            changes,
        }
    }

    /// Commit the channel number the digit buffer resolved to: look its name
    /// up in the number mapping, find that name's index in the channel list,
    /// and move the selection there if it differs from the current one.
    fn change_channel_after_keystrokes(
        &mut self,
        number: u16,
        channels: &ChannelList,
        logical: &LogicalChannelMap,
    ) -> (r: CommitOutcome)
        requires
            old(self).wf(),
            channels.wf(),
        ensures
            final(self).wf(),
            final(self).channel_entry == old(self).channel_entry,
            commit_outcome_ok(*old(self), number, channels@, logical@, r, *final(self)),
    {
        let name = match logical.name_for_number(number) {
            None => {
                return CommitOutcome::UnknownNumber;
            },
            Some(name) => name,
        };
        match channels.index_of_name(name) {
            None => CommitOutcome::NameNotInList,
            Some(i) => {
                proof {
                    crate::channels_data::lemma_first_index_of_range(channels@, name@);
                }
                if i == self.channel_selector {
                    CommitOutcome::AlreadyCurrent
                } else {
                    CommitOutcome::Changed(self.on_channel_changed(i, channels))
                }
            },
        }
    }

    /// The three-second entry timeout fired, armed on `snapshot`. If the
    /// buffer is still exactly the armed one, commit it as
    /// [`Self::process_targetted_keystroke`]'s third digit would; a timeout
    /// superseded by a later digit is a no-op.
    pub fn on_entry_timeout(
        &mut self,
        snapshot: &Vec<u8>,
        channels: &ChannelList,
        logical: &LogicalChannelMap,
    ) -> (r: Option<CommitOutcome>)
        requires
            old(self).wf(),
            channels.wf(),
            snapshot@.len() <= 3,
            forall|i: int| 0 <= i < snapshot@.len() ==> snapshot@[i] < 10,
        ensures
            final(self).wf(),
            spec_commit_on_timeout(old(self).channel_entry.digits@, snapshot@) is None ==> {
                &&& r is None
                &&& *final(self) == *old(self)
            },
            spec_commit_on_timeout(old(self).channel_entry.digits@, snapshot@) matches Some(number)
                ==> {
                &&& final(self).channel_entry.cleared()
                &&& r matches Some(outcome) && commit_outcome_ok(
                    *old(self),
                    number as u16,
                    channels@,
                    logical@,
                    outcome,
                    *final(self),
                )
            },
    {
        let number = match self.channel_entry.on_timeout(snapshot) {
            None => {
                return None;
            },
            Some(number) => number,
        };
        Some(self.change_channel_after_keystrokes(number, channels, logical))
    }

    /// Route a keystroke targetted at this front end: channel up and down
    /// step the selection, clamped to the list; volume up and down step the
    /// playback window's volume control; digits feed the numeric
    /// channel-entry machine; everything else is ignored. The keystroke must
    /// be addressed to this coordinator's front end.
    pub fn process_targetted_keystroke(
        &mut self,
        tk: &TargettedKeystroke,
        channels: &ChannelList,
        logical: &LogicalChannelMap,
    ) -> (r: KeystrokeOutcome)
        requires
            old(self).wf(),
            channels.wf(),
            tk.frontend_id == old(self).frontend_id,
            channels@.len() > 0 ==> (old(self).channel_selector as int) < channels@.len(),
        ensures
            final(self).wf(),
            spec_classify(tk.keystroke, tk.value) is Ignore ==> {
                &&& r is Ignored
                &&& *final(self) == *old(self)
            },
            spec_classify(tk.keystroke, tk.value) is ChannelUp ==> {
                if channels@.len() > 0 && old(self).channel_selector + 1 < channels@.len() {
                    let target = (old(self).channel_selector + 1) as u32;
                    &&& r matches KeystrokeOutcome::ChannelChanged(a)
                        && channel_changed_actions_ok(*old(self), target, channels@, a)
                    &&& *final(self) == old(self).spec_set_channel_index(target)
                } else {
                    r is Ignored && *final(self) == *old(self)
                }
            },
            spec_classify(tk.keystroke, tk.value) is ChannelDown ==> {
                if channels@.len() > 0 && old(self).channel_selector > 0 {
                    let target = (old(self).channel_selector - 1) as u32;
                    &&& r matches KeystrokeOutcome::ChannelChanged(a)
                        && channel_changed_actions_ok(*old(self), target, channels@, a)
                    &&& *final(self) == old(self).spec_set_channel_index(target)
                } else {
                    r is Ignored && *final(self) == *old(self)
                }
            },
            spec_classify(tk.keystroke, tk.value) is VolumeUp ==> match old(self).frontend_window {
                None => r is Ignored && *final(self) == *old(self),
                Some(w) => {
                    &&& r == KeystrokeOutcome::VolumeChanged(spec_volume_up(w.volume) as u32)
                    &&& *final(self) == (ControlWindowButton {
                        frontend_window: Some(
                            FrontendWindow {
                                volume: (VolumeControl {
                                    value: spec_volume_up(w.volume) as u32,
                                    ..w.volume
                                }),
                                ..w
                            },
                        ),
                        ..*old(self)
                    })
                },
            },
            spec_classify(tk.keystroke, tk.value) is VolumeDown ==> match old(
                self,
            ).frontend_window {
                None => r is Ignored && *final(self) == *old(self),
                Some(w) => {
                    &&& r == KeystrokeOutcome::VolumeChanged(spec_volume_down(w.volume) as u32)
                    &&& *final(self) == (ControlWindowButton {
                        frontend_window: Some(
                            FrontendWindow {
                                volume: (VolumeControl {
                                    value: spec_volume_down(w.volume) as u32,
                                    ..w.volume
                                }),
                                ..w
                            },
                        ),
                        ..*old(self)
                    })
                },
            },
            spec_classify(tk.keystroke, tk.value) matches KeyAction::Digit(d) ==> {
                if spec_commit_after_digit(old(self).channel_entry.digits@, d) is None {
                    &&& r matches KeystrokeOutcome::DigitBuffered(snapshot) && snapshot@ == old(
                        self,
                    ).channel_entry.digits@.push(d)
                    &&& same_core(*final(self), *old(self))
                    &&& final(self).channel_entry.digits@ == old(self).channel_entry.digits@.push(
                        d,
                    )
                    &&& final(self).channel_entry.visible
                } else {
                    &&& final(self).channel_entry.cleared()
                    &&& r matches KeystrokeOutcome::DigitCommitted(outcome) && commit_outcome_ok(
                        *old(self),
                        buffer_value(old(self).channel_entry.digits@.push(d)) as u16,
                        channels@,
                        logical@,
                        outcome,
                        *final(self),
                    )
                }
            },
    {
        match classify(tk.keystroke, tk.value) {
            KeyAction::ChannelUp => {
                let count = channels.count();
                if count > 0 && self.channel_selector + 1 < count {
                    let target = self.channel_selector + 1;
                    KeystrokeOutcome::ChannelChanged(self.on_channel_changed(target, channels))
                } else {
                    KeystrokeOutcome::Ignored
                }
            },
            KeyAction::ChannelDown => {
                let count = channels.count();
                if count > 0 && self.channel_selector > 0 {
                    let target = self.channel_selector - 1;
                    KeystrokeOutcome::ChannelChanged(self.on_channel_changed(target, channels))
                } else {
                    KeystrokeOutcome::Ignored
                }
            },
            KeyAction::VolumeUp => {
                match &mut self.frontend_window {
                    Some(w) => {
                        w.volume.volume_up();
                        KeystrokeOutcome::VolumeChanged(w.volume.value)
                    },
                    None => KeystrokeOutcome::Ignored,
                }
            },
            KeyAction::VolumeDown => {
                match &mut self.frontend_window {
                    Some(w) => {
                        w.volume.volume_down();
                        KeystrokeOutcome::VolumeChanged(w.volume.value)
                    },
                    None => KeystrokeOutcome::Ignored,
                }
            },
            KeyAction::Digit(d) => {
                match self.channel_entry.push_digit(d) {
                    DigitOutcome::Committed { number } => {
                        KeystrokeOutcome::DigitCommitted(
                            self.change_channel_after_keystrokes(number, channels, logical),
                        )
                    },
                    DigitOutcome::ArmTimer { snapshot } => {
                        KeystrokeOutcome::DigitBuffered(snapshot)
                    },
                }
            },
            KeyAction::Ignore => KeystrokeOutcome::Ignored,
        }
    }
}

/// Synchronization invariant: however the coordinator stood before, after a
/// channel-index fan-out returns, every synchronized selector reports the
/// one index that was set.
pub proof fn lemma_set_channel_index_synchronizes(c: ControlWindowButton, i: u32)
    ensures
        c.spec_set_channel_index(i).selectors_synced_at(i),
{
}

/// Idempotence: fanning out an index a second time moves no selector, so no
/// further change notifications are emitted, and leaves the state as it was.
pub proof fn lemma_set_channel_index_idempotent(c: ControlWindowButton, i: u32)
    ensures
        c.spec_set_channel_index(i).spec_selector_changes(i).none(),
        c.spec_set_channel_index(i).spec_set_channel_index(i) == c.spec_set_channel_index(i),
{
}

/// Toggle/window 1:1: a well-formed coordinator never holds a playback
/// window while its toggle is inactive. That it never lacks one while
/// active, after any successful toggle transition, is the ensures of
/// `on_engine_created` and `on_toggle_deactivated`.
pub proof fn lemma_toggle_window_one_to_one(c: ControlWindowButton)
    requires
        c.wf(),
    ensures
        c.frontend_window is Some ==> c.active,
        !c.active ==> c.frontend_window is None,
{
}

} // verus!
