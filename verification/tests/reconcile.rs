use wavectl::ui_state::{Line, UiState};
use wavectl::usb_device::{Color, DeviceConfiguration, LowcutFilter};

#[test]
fn merge_user_config() {
    let mut config = DeviceConfiguration::default();
    let user_config = Line { gain: Some(30 << 8), mute: Some(true), ..Line::default() };

    config.merge(&user_config);
    assert_eq!(30 << 8, config.gain);
    assert_eq!(true, config.mute);
}

#[test]
fn merge_leaves_absent_fields_unchanged() {
    let mut config = DeviceConfiguration {
        gain: 9,
        volume: -3,
        lowcut: LowcutFilter::Cutoff080Hz,
        ..DeviceConfiguration::default()
    };
    let patch = Line { mute: Some(true), ..Line::default() };
    config.merge(&patch);
    assert_eq!(9, config.gain);
    assert_eq!(-3, config.volume);
    assert_eq!(LowcutFilter::Cutoff080Hz, config.lowcut);
    assert_eq!(true, config.mute);
}

#[test]
fn merge_is_idempotent() {
    let patch = Line {
        gain: Some(11),
        lowcut: Some(LowcutFilter::Cutoff120Hz),
        color_gen: Some(Color { red: 7, green: 8, blue: 9 }),
        ..Line::default()
    };
    let mut once = DeviceConfiguration::default();
    once.merge(&patch);
    let mut twice = once;
    twice.merge(&patch);
    assert_eq!(once, twice);
}

#[test]
fn merge_empty_patch_is_identity() {
    let original = DeviceConfiguration {
        gain: 42,
        phantom: true,
        mix: 55,
        ..DeviceConfiguration::default()
    };
    let mut config = original;
    config.merge(&Line::default());
    assert_eq!(original, config);
}

#[test]
fn merge_ignores_transport_directives() {
    let original = DeviceConfiguration::default();
    let mut config = original;
    let patch = Line {
        persistent: Some(true),
        use_cached: Some(true),
        err: Some(String::from("stale")),
        ..Line::default()
    };
    config.merge(&patch);
    assert_eq!(original, config);
}

fn sample_config() -> DeviceConfiguration {
    DeviceConfiguration {
        gain: 30,
        mute: false,
        clipguard: true,
        phantom: false,
        lowcut: LowcutFilter::Cutoff080Hz,
        volume: -20,
        mix: 50,
        color_mute: Color { red: 255, green: 0, blue: 0 },
        color_gen: Color { red: 0, green: 255, blue: 0 },
        gain_lock: false,
        color_gain_reduction: Color { red: 0, green: 0, blue: 255 },
        clipguard_indicator: true,
        lim: false,
    }
}

#[test]
fn diff_fresh_snapshot_reports_every_field() {
    let config = sample_config();
    let mut state = UiState::default();
    let line = state.update_device_info(config);

    assert_eq!(Some(config.gain), line.gain);
    assert_eq!(Some(config.mute), line.mute);
    assert_eq!(Some(config.clipguard), line.clipguard);
    assert_eq!(Some(config.phantom), line.phantom);
    assert_eq!(Some(config.lowcut), line.lowcut);
    assert_eq!(Some(config.volume), line.volume);
    assert_eq!(Some(config.mix), line.mix);
    assert_eq!(Some(config.color_mute), line.color_mute);
    assert_eq!(Some(config.color_gen), line.color_gen);
    assert_eq!(Some(config.gain_lock), line.gain_lock);
    assert_eq!(Some(config.color_gain_reduction), line.color_gain_reduction);
    assert_eq!(Some(config.clipguard_indicator), line.clipguard_indicator);
    assert_eq!(Some(config.lim), line.lim);
    assert_eq!(None, line.persistent);
    assert_eq!(None, line.use_cached);
    assert_eq!(None, line.err);

    // The snapshot now holds every reported value.
    assert_eq!(Some(config.gain), state.io.gain);
    assert_eq!(Some(config.lim), state.io.lim);
    assert_eq!(config, state.cached);
}

#[test]
fn diff_twice_without_change_is_empty() {
    let config = sample_config();
    let mut state = UiState::default();
    let first = state.update_device_info(config);
    assert!(!first.is_empty());
    let second = state.update_device_info(config);
    assert!(second.is_empty());
}

#[test]
fn diff_after_one_field_change_reports_only_it() {
    let config = sample_config();
    let mut state = UiState::default();
    let _ = state.update_device_info(config);

    let changed = DeviceConfiguration { mute: true, ..config };
    let line = state.update_device_info(changed);
    assert_eq!(Some(true), line.mute);
    assert_eq!(None, line.gain);
    assert_eq!(None, line.clipguard);
    assert_eq!(None, line.phantom);
    assert_eq!(None, line.lowcut);
    assert_eq!(None, line.volume);
    assert_eq!(None, line.mix);
    assert_eq!(None, line.color_mute);
    assert_eq!(None, line.color_gen);
    assert_eq!(None, line.gain_lock);
    assert_eq!(None, line.color_gain_reduction);
    assert_eq!(None, line.clipguard_indicator);
    assert_eq!(None, line.lim);
    assert_eq!(None, line.err);
}

#[test]
fn diff_hands_off_pending_error_report() {
    let config = sample_config();
    let mut state = UiState::default();
    let _ = state.update_device_info(config);

    state.io.err = Some(String::from("read control"));
    let line = state.update_device_info(config);
    // All fields unchanged, yet the line is not empty: it carries the report.
    assert!(!line.is_empty());
    assert_eq!(Some(String::from("read control")), line.err);
    assert_eq!(None, line.gain);

    // The report is handed off once.
    assert_eq!(None, state.io.err);
    let after = state.update_device_info(config);
    assert!(after.is_empty());
}

#[test]
fn is_empty_ignores_transport_directives() {
    let directives_only = Line {
        persistent: Some(true),
        use_cached: Some(false),
        ..Line::default()
    };
    assert!(directives_only.is_empty());

    let with_err = Line { err: Some(String::from("timeout")), ..Line::default() };
    assert!(!with_err.is_empty());

    let with_field = Line { mix: Some(1), ..Line::default() };
    assert!(!with_field.is_empty());
}

#[test]
fn update_state_merges_into_cache() {
    let mut state = UiState::default();
    let patch = Line { gain: Some(7680), mute: Some(true), ..Line::default() };
    let merged = state.update_state(patch);
    assert_eq!(7680, merged.gain);
    assert_eq!(true, merged.mute);
    assert_eq!(merged, state.cached);

    // The scenario's encoded record: gain little-endian, mute byte set.
    let buf = merged.write();
    assert_eq!([0x00, 0x1e], [buf[0], buf[1]]);
    assert_eq!(1, buf[4]);
}

#[test]
fn update_state_keeps_snapshot_untouched() {
    let mut state = UiState::default();
    let _ = state.update_device_info(sample_config());
    let snapshot_before = state.io.clone();
    let _ = state.update_state(Line { gain: Some(1), ..Line::default() });
    assert_eq!(snapshot_before, state.io);
}
