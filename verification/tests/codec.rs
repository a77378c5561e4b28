use wavectl::usb_device::{Color, ConfigField, DeviceConfiguration, LowcutFilter, Mode};

fn sample_config() -> DeviceConfiguration {
    DeviceConfiguration {
        gain: 0x1234,
        mute: true,
        clipguard: false,
        phantom: true,
        lowcut: LowcutFilter::Cutoff120Hz,
        volume: -57,
        mix: 41,
        color_mute: Color { red: 1, green: 2, blue: 3 },
        color_gen: Color { red: 10, green: 20, blue: 30 },
        gain_lock: true,
        color_gain_reduction: Color { red: 100, green: 150, blue: 200 },
        clipguard_indicator: false,
        lim: true,
    }
}

#[test]
fn round_trip_reproduces_every_field() {
    let config = sample_config();
    let buf = config.write();
    assert_eq!(34, buf.len());
    let decoded = DeviceConfiguration::read(&buf).expect("encoded record must decode");
    assert_eq!(config, decoded);
}

#[test]
fn round_trip_default() {
    let config = DeviceConfiguration::default();
    let buf = config.write();
    let decoded = DeviceConfiguration::read(&buf).expect("encoded record must decode");
    assert_eq!(config, decoded);
}

#[test]
fn encode_constant_bytes() {
    let buf = sample_config().write();
    assert_eq!(0x00, buf[2]);
    assert_eq!(0xec, buf[3]);
    assert_eq!(0x00, buf[11]);
    assert_eq!(0x01, buf[14]);
    assert_eq!(0x01, buf[27]);
}

#[test]
fn encode_repeats_general_color_three_times() {
    let buf = sample_config().write();
    assert_eq!(&buf[18..21], &[10, 20, 30]);
    assert_eq!(&buf[21..24], &[10, 20, 30]);
    assert_eq!(&buf[24..27], &[10, 20, 30]);
}

#[test]
fn decode_reads_only_first_general_color_copy() {
    let config = sample_config();
    let mut buf = config.write();
    // Diverging later copies are ignored, never checked.
    buf[21] = 0xaa;
    buf[26] = 0xbb;
    let decoded = DeviceConfiguration::read(&buf).expect("record still decodes");
    assert_eq!(config, decoded);
}

#[test]
fn mix_flag_set_for_41() {
    let config = DeviceConfiguration { mix: 41, ..DeviceConfiguration::default() };
    assert_eq!(0b0000_0001, config.write()[12]);
}

#[test]
fn mix_flag_set_for_47() {
    let config = DeviceConfiguration { mix: 47, ..DeviceConfiguration::default() };
    assert_eq!(0b0000_0001, config.write()[12]);
}

#[test]
fn mix_flag_clear_for_42() {
    let config = DeviceConfiguration { mix: 42, ..DeviceConfiguration::default() };
    assert_eq!(0b0000_0000, config.write()[12]);
}

#[test]
fn lowcut_codes_on_the_wire() {
    let off = DeviceConfiguration { lowcut: LowcutFilter::Off, ..DeviceConfiguration::default() };
    let buf = off.write();
    assert_eq!([0x00, 0x00], [buf[7], buf[8]]);

    let c080 = DeviceConfiguration {
        lowcut: LowcutFilter::Cutoff080Hz,
        ..DeviceConfiguration::default()
    };
    let buf = c080.write();
    assert_eq!([0x01, 0x00], [buf[7], buf[8]]);

    let c120 = DeviceConfiguration {
        lowcut: LowcutFilter::Cutoff120Hz,
        ..DeviceConfiguration::default()
    };
    let buf = c120.write();
    assert_eq!([0x00, 0x01], [buf[7], buf[8]]);
}

#[test]
fn lowcut_decode_is_not_ordinal() {
    let mut buf = vec![0u8; 34];
    buf[7] = 0x01;
    let decoded = DeviceConfiguration::read(&buf).unwrap();
    assert_eq!(LowcutFilter::Cutoff080Hz, decoded.lowcut);

    let mut buf = vec![0u8; 34];
    buf[8] = 0x01;
    let decoded = DeviceConfiguration::read(&buf).unwrap();
    assert_eq!(LowcutFilter::Cutoff120Hz, decoded.lowcut);
}

#[test]
fn gain_is_little_endian() {
    let config = DeviceConfiguration { gain: 7680, ..DeviceConfiguration::default() };
    let buf = config.write();
    assert_eq!([0x00, 0x1e], [buf[0], buf[1]]);

    let mut buf = vec![0u8; 34];
    buf[0] = 0x34;
    buf[1] = 0x12;
    assert_eq!(0x1234, DeviceConfiguration::read(&buf).unwrap().gain);
}

#[test]
fn volume_negative_round_trip() {
    let config = DeviceConfiguration { volume: -128, ..DeviceConfiguration::default() };
    let buf = config.write();
    assert_eq!([0x80, 0xff], [buf[9], buf[10]]);
    assert_eq!(-128, DeviceConfiguration::read(&buf).unwrap().volume);
}

#[test]
fn decode_rejects_two_at_every_boolean_offset() {
    let cases = [
        (4usize, ConfigField::Mute),
        (5, ConfigField::Clipguard),
        (6, ConfigField::Phantom),
        (28, ConfigField::GainLock),
        (32, ConfigField::ClipguardIndicator),
        (33, ConfigField::Lim),
    ];
    for (offset, field) in cases {
        let mut buf = vec![0u8; 34];
        buf[offset] = 0x02;
        let err = DeviceConfiguration::read(&buf).expect_err("byte 2 is not a boolean");
        assert_eq!(field, err.field);
        assert_eq!(offset, err.offset);
        assert_eq!(2, err.found);
    }
}

#[test]
fn decode_rejects_lowcut_two() {
    let mut buf = vec![0u8; 34];
    buf[7] = 0x02;
    let err = DeviceConfiguration::read(&buf).expect_err("0x0002 is no lowcut code");
    assert_eq!(ConfigField::Lowcut, err.field);
    assert_eq!(7, err.offset);
    assert_eq!(0x0002, err.found);
}

#[test]
fn decode_reports_first_invalid_field() {
    let mut buf = vec![0u8; 34];
    buf[5] = 0x07;
    buf[33] = 0x09;
    let err = DeviceConfiguration::read(&buf).expect_err("two fields are invalid");
    assert_eq!(ConfigField::Clipguard, err.field);
    assert_eq!(5, err.offset);
    assert_eq!(7, err.found);
}

#[test]
fn mode_wire_values() {
    assert_eq!(0x0000, Mode::Temporary.value());
    assert_eq!(0x0002, Mode::Persistant.value());
}
