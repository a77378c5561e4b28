//! Sparse patches and the last-reported snapshot.
//!
//! A [`Line`] is one unit of the textual protocol: every domain field is
//! optional, plus two inbound-only transport directives (`persistent`,
//! `use_cached`) and one outbound-only error report (`err`).  The same
//! type serves as the inbound patch, the outbound change notification,
//! and the diff engine's snapshot of the last values reported.
//!
//! [`UiState`] pairs the cached device configuration with that snapshot
//! and offers the two reconciliation steps: [`UiState::update_state`]
//! merges an inbound patch into the cache, and
//! [`UiState::update_device_info`] computes the minimal outbound diff
//! for a freshly read configuration.

use crate::usb_device::{Color, DeviceConfiguration, LowcutFilter};
use vstd::prelude::*;

verus! {

/// One line of the textual protocol: a sparse overlay over the
/// configuration, with transport directives and an error report.
#[derive(Debug, Clone, PartialEq, Eq)]
pub struct Line {
    /// Input gain in dB, if given.
    pub gain: Option<u16>,
    /// Input mute, if given.
    pub mute: Option<bool>,
    /// Clipguard, if given.
    pub clipguard: Option<bool>,
    /// 48 V phantom power, if given.
    pub phantom: Option<bool>,
    /// Lowcut filter, if given.
    pub lowcut: Option<LowcutFilter>,
    /// Monitor volume in dB, if given.
    pub volume: Option<i16>,
    /// Monitor mix in percent, if given.
    pub mix: Option<u8>,
    /// Color shown while muted, if given.
    pub color_mute: Option<Color>,
    /// General color, if given.
    pub color_gen: Option<Color>,
    /// Gain lock, if given.
    pub gain_lock: Option<bool>,
    /// Color shown during gain reduction, if given.
    pub color_gain_reduction: Option<Color>,
    /// Clipguard indicator, if given.
    pub clipguard_indicator: Option<bool>,
    /// Low impedance mode, if given.
    pub lim: Option<bool>,
    /// Inbound only: write the merged configuration persistently.
    pub persistent: Option<bool>,
    /// Inbound only: skip the device read and patch the cached state.
    pub use_cached: Option<bool>,
    /// Outbound only: the error report carried by the next emitted line.
    pub err: Option<String>,
}

impl Line {
    /// The line with every field absent.
    pub open spec fn spec_empty() -> Line {
        Line {
            gain: None,
            mute: None,
            clipguard: None,
            phantom: None,
            lowcut: None,
            volume: None,
            mix: None,
            color_mute: None,
            color_gen: None,
            gain_lock: None,
            color_gain_reduction: None,
            clipguard_indicator: None,
            lim: None,
            persistent: None,
            use_cached: None,
            err: None,
        }
    }

    /// Whether every domain field is absent and there is no error
    /// report.  Such a line carries nothing and must not be emitted;
    /// the transport directives do not count.
    pub open spec fn spec_is_empty(&self) -> bool {
        &&& self.gain is None
        &&& self.mute is None
        &&& self.clipguard is None
        &&& self.phantom is None
        &&& self.lowcut is None
        &&& self.volume is None
        &&& self.mix is None
        &&& self.color_mute is None
        &&& self.color_gen is None
        &&& self.gain_lock is None
        &&& self.color_gain_reduction is None
        &&& self.clipguard_indicator is None
        &&& self.lim is None
        &&& self.err is None
    }

    /// True exactly when no domain field and no error report is set.
    pub fn is_empty(&self) -> (r: bool)
        ensures
            r == self.spec_is_empty(),
    {
        self.gain.is_none() && self.mute.is_none() && self.clipguard.is_none()
            && self.phantom.is_none() && self.lowcut.is_none() && self.volume.is_none()
            && self.mix.is_none() && self.color_mute.is_none() && self.color_gen.is_none()
            && self.gain_lock.is_none() && self.color_gain_reduction.is_none()
            && self.clipguard_indicator.is_none() && self.lim.is_none() && self.err.is_none()
    }
}

impl Default for Line {
    /// The line with every field absent.
    fn default() -> (r: Self)
        ensures
            r == Line::spec_empty(),
    {
        Line {
            gain: None,
            mute: None,
            clipguard: None,
            phantom: None,
            lowcut: None,
            volume: None,
            mix: None,
            color_mute: None,
            color_gen: None,
            gain_lock: None,
            color_gain_reduction: None,
            clipguard_indicator: None,
            lim: None,
            persistent: None,
            use_cached: None,
            err: None,
        }
    }
}

/// The field a diff emits for one domain field: the current value when
/// the snapshot holds no value for it yet or a different one, nothing
/// when the snapshot already holds it.
pub open spec fn spec_diff_field<T>(current: T, last: Option<T>) -> Option<T> {
    if last == Some(current) {
        None
    } else {
        Some(current)
    }
}

/// The line a diff emits: per domain field [`spec_diff_field`], no
/// transport directives, and the snapshot's pending error report.
pub open spec fn spec_diff_result(config: DeviceConfiguration, snapshot: Line) -> Line {
    Line {
        gain: spec_diff_field(config.gain, snapshot.gain),
        mute: spec_diff_field(config.mute, snapshot.mute),
        clipguard: spec_diff_field(config.clipguard, snapshot.clipguard),
        phantom: spec_diff_field(config.phantom, snapshot.phantom),
        lowcut: spec_diff_field(config.lowcut, snapshot.lowcut),
        volume: spec_diff_field(config.volume, snapshot.volume),
        mix: spec_diff_field(config.mix, snapshot.mix),
        color_mute: spec_diff_field(config.color_mute, snapshot.color_mute),
        color_gen: spec_diff_field(config.color_gen, snapshot.color_gen),
        gain_lock: spec_diff_field(config.gain_lock, snapshot.gain_lock),
        color_gain_reduction: spec_diff_field(
            config.color_gain_reduction,
            snapshot.color_gain_reduction,
        ),
        clipguard_indicator: spec_diff_field(
            config.clipguard_indicator,
            snapshot.clipguard_indicator,
        ),
        lim: spec_diff_field(config.lim, snapshot.lim),
        persistent: None,
        use_cached: None,
        err: snapshot.err,
    }
}

/// The snapshot a diff leaves behind: every domain field holds the
/// value just reported, the error report has been handed off, and the
/// transport directives are untouched.
pub open spec fn spec_diff_snapshot(config: DeviceConfiguration, snapshot: Line) -> Line {
    Line {
        gain: Some(config.gain),
        mute: Some(config.mute),
        clipguard: Some(config.clipguard),
        phantom: Some(config.phantom),
        lowcut: Some(config.lowcut),
        volume: Some(config.volume),
        mix: Some(config.mix),
        color_mute: Some(config.color_mute),
        color_gen: Some(config.color_gen),
        gain_lock: Some(config.gain_lock),
        color_gain_reduction: Some(config.color_gain_reduction),
        clipguard_indicator: Some(config.clipguard_indicator),
        lim: Some(config.lim),
        persistent: snapshot.persistent,
        use_cached: snapshot.use_cached,
        err: None,
    }
}

/// Whether the snapshot already holds every field of `config` and
/// carries no pending error report: the state after a diff against
/// `config` whose error slot was empty.
pub open spec fn spec_synced(snapshot: Line, config: DeviceConfiguration) -> bool {
    &&& snapshot.gain == Some(config.gain)
    &&& snapshot.mute == Some(config.mute)
    &&& snapshot.clipguard == Some(config.clipguard)
    &&& snapshot.phantom == Some(config.phantom)
    &&& snapshot.lowcut == Some(config.lowcut)
    &&& snapshot.volume == Some(config.volume)
    &&& snapshot.mix == Some(config.mix)
    &&& snapshot.color_mute == Some(config.color_mute)
    &&& snapshot.color_gen == Some(config.color_gen)
    &&& snapshot.gain_lock == Some(config.gain_lock)
    &&& snapshot.color_gain_reduction == Some(config.color_gain_reduction)
    &&& snapshot.clipguard_indicator == Some(config.clipguard_indicator)
    &&& snapshot.lim == Some(config.lim)
    &&& snapshot.err is None
}

/// A diff against a fresh snapshot reports every domain field of the
/// configuration, and leaves the snapshot holding those values.
pub proof fn lemma_diff_fresh_reports_all(config: DeviceConfiguration, snapshot: Line)
    requires
        snapshot == Line::spec_empty(),
    ensures
        spec_diff_result(config, snapshot) == (Line {
            gain: Some(config.gain),
            mute: Some(config.mute),
            clipguard: Some(config.clipguard),
            phantom: Some(config.phantom),
            lowcut: Some(config.lowcut),
            volume: Some(config.volume),
            mix: Some(config.mix),
            color_mute: Some(config.color_mute),
            color_gen: Some(config.color_gen),
            gain_lock: Some(config.gain_lock),
            color_gain_reduction: Some(config.color_gain_reduction),
            clipguard_indicator: Some(config.clipguard_indicator),
            lim: Some(config.lim),
            persistent: None,
            use_cached: None,
            err: None,
        }),
        spec_synced(spec_diff_snapshot(config, snapshot), config),
{
}

/// After a diff, the snapshot is in sync with the configuration, so a
/// second diff with no intervening change reports nothing: its result
/// is empty and must not be emitted.
pub proof fn lemma_diff_twice_empty(config: DeviceConfiguration, snapshot: Line)
    ensures
        spec_synced(spec_diff_snapshot(config, snapshot), config),
        spec_diff_result(config, spec_diff_snapshot(config, snapshot)).spec_is_empty(),
{
}

/// A diff from a synced snapshot after exactly the mute flag changed
/// reports the new mute value and nothing else.
pub proof fn lemma_diff_single_field_change(
    config: DeviceConfiguration,
    changed: DeviceConfiguration,
    snapshot: Line,
)
    requires
        spec_synced(snapshot, config),
        changed == (DeviceConfiguration { mute: !config.mute, ..config }),
    ensures
        spec_diff_result(changed, snapshot) == (Line {
            mute: Some(changed.mute),
            ..Line::spec_empty()
        }),
{
}

/// The cached device configuration together with the last-reported
/// snapshot used by the outbound diff.
#[derive(Debug)]
pub struct UiState {
    /// Last-known full device configuration.
    pub cached: DeviceConfiguration,
    /// Last value reported to the peer for each field, plus a pending
    /// error report; `None` means "never yet communicated".
    pub io: Line,
}

impl Default for UiState {
    /// A fresh state: default configuration, nothing reported yet.
    fn default() -> (r: Self)
        ensures
            r.cached == DeviceConfiguration::spec_default(),
            r.io == Line::spec_empty(),
    {
        UiState { cached: DeviceConfiguration::default(), io: Line::default() }
    }
}

impl UiState {
    /// Records a freshly read configuration and returns the minimal
    /// line to emit for it: exactly the fields whose value the
    /// snapshot did not already hold, plus any pending error report.
    /// The snapshot is updated to the reported values whether or not
    /// the caller emits the result.
    pub fn update_device_info(&mut self, config: DeviceConfiguration) -> (r: Line)
        ensures
            final(self).cached == config,
            final(self).io == spec_diff_snapshot(config, old(self).io),
            r == spec_diff_result(config, old(self).io),
    {
        self.cached = config;
        let err = self.io.err.take();

        let gain = match self.io.gain {
            Some(last) if last == config.gain => None,
            _ => Some(config.gain),
        };
        self.io.gain = Some(config.gain);
        let mute = match self.io.mute {
            Some(last) if last == config.mute => None,
            _ => Some(config.mute),
        };
        self.io.mute = Some(config.mute);
        let clipguard = match self.io.clipguard {
            Some(last) if last == config.clipguard => None,
            _ => Some(config.clipguard),
        };
        self.io.clipguard = Some(config.clipguard);
        let phantom = match self.io.phantom {
            Some(last) if last == config.phantom => None,
            _ => Some(config.phantom),
        };
        self.io.phantom = Some(config.phantom);
        let lowcut = match self.io.lowcut {
            Some(last) if last == config.lowcut => None,
            _ => Some(config.lowcut),
        };
        self.io.lowcut = Some(config.lowcut);
        let volume = match self.io.volume {
            Some(last) if last == config.volume => None,
            _ => Some(config.volume),
        };
        self.io.volume = Some(config.volume);
        let mix = match self.io.mix {
            Some(last) if last == config.mix => None,
            _ => Some(config.mix),
        };
        self.io.mix = Some(config.mix);
        let color_mute = match self.io.color_mute {
            Some(last) if last == config.color_mute => None,
            _ => Some(config.color_mute),
        };
        self.io.color_mute = Some(config.color_mute);
        let color_gen = match self.io.color_gen {
            Some(last) if last == config.color_gen => None,
            _ => Some(config.color_gen),
        };
        self.io.color_gen = Some(config.color_gen);
        let gain_lock = match self.io.gain_lock {
            Some(last) if last == config.gain_lock => None,
            _ => Some(config.gain_lock),
        };
        self.io.gain_lock = Some(config.gain_lock);
        let color_gain_reduction = match self.io.color_gain_reduction {
            Some(last) if last == config.color_gain_reduction => None,
            _ => Some(config.color_gain_reduction),
        };
        self.io.color_gain_reduction = Some(config.color_gain_reduction);
        let clipguard_indicator = match self.io.clipguard_indicator {
            Some(last) if last == config.clipguard_indicator => None,
            _ => Some(config.clipguard_indicator),
        };
        self.io.clipguard_indicator = Some(config.clipguard_indicator);
        let lim = match self.io.lim {
            Some(last) if last == config.lim => None,
            _ => Some(config.lim),
        };
        self.io.lim = Some(config.lim);

        Line {
            gain,
            mute,
            clipguard,
            phantom,
            lowcut,
            volume,
            mix,
            color_mute,
            color_gen,
            gain_lock,
            color_gain_reduction,
            clipguard_indicator,
            lim,
            persistent: None,
            use_cached: None,
            err,
        }
    }

    /// Merges an inbound patch into the cached configuration and
    /// returns the merged value, to be written to the device.
    pub fn update_state(&mut self, line: Line) -> (r: DeviceConfiguration)
        ensures
            final(self).cached == crate::usb_device::spec_merge(old(self).cached, line),
            final(self).io == old(self).io,
            r == final(self).cached,
    {
        self.cached.merge(&line);
        self.cached
    }
}

} // verus!
