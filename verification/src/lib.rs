//! Configuration codec and reconciliation engine for a USB audio mixer.
//!
//! The device keeps its settings in a fixed 34-byte record reachable over
//! USB control transfers.  This crate holds the verified core of a bridge
//! between that record and a line-oriented JSON channel:
//!
//! * [`usb_device`] — the structured [`usb_device::DeviceConfiguration`],
//!   the codec between it and the 34-byte wire record, and the `merge`
//!   operation that applies a sparse [`ui_state::Line`] patch to it;
//! * [`ui_state`] — the sparse patch type [`ui_state::Line`] and the
//!   [`ui_state::UiState`] cell that tracks the last values reported to the
//!   peer and computes minimal field-level diffs.
//!
//! The USB transfers, the JSON framing and the two driver loops live outside
//! this crate; they exchange plain values with it.

pub mod ui_state;
pub mod usb_device;
