//! Core logic of a DVB viewer: per-front-end control coordination, the timed
//! numeric channel-entry protocol, remote-control keystroke routing, and the
//! front-end inventory that tracks device hotplug.
//!
//! The toolkit, the playback engine and the device watchers are external
//! collaborators: this crate models their shared state as plain values and
//! returns explicit action values for the surrounding event loop to perform.

pub mod channel_entry;
pub mod channels_data;
pub mod control_window_button;
pub mod frontend_manager;
pub mod frontend_window;
pub mod input_event_codes;
pub mod remote_control;
