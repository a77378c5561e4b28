//! The device-side configuration record and its binary codec.
//!
//! The device stores its settings in a fixed-layout 34-byte record.
//! [`DeviceConfiguration`] is the structured view of that record;
//! [`DeviceConfiguration::read`] decodes a record and
//! [`DeviceConfiguration::write`] encodes one.  The layout has a few
//! quirks observed on the wire that the codec reproduces exactly: three
//! identical copies of the general color, a flag byte derived from the
//! mix value, and a lowcut enumeration whose codes are not sequential.

use crate::ui_state::Line as UserConfig;
use vstd::prelude::*;

verus! {

/// Length in bytes of the device's configuration record.
pub const RECORD_LEN: usize = 34;

/// An RGB triple as carried in the configuration record.
#[derive(Clone, Copy, Debug, PartialEq, Eq, Structural)]
pub struct Color {
    pub red: u8,
    pub green: u8,
    pub blue: u8,
}

impl Color {
    /// Reads the three bytes starting at `offset` as an RGB triple.
    pub fn read(buf: &Vec<u8>, offset: usize) -> (r: Color)
        requires
            buf@.len() == RECORD_LEN,
            offset + 3 <= RECORD_LEN,
        ensures
            r == spec_color_at(buf@, offset as int),
    {
        Color { red: buf[offset], green: buf[offset + 1], blue: buf[offset + 2] }
    }
}

impl Default for Color {
    /// Black, the all-zero triple.
    fn default() -> (r: Self)
        ensures
            r == (Color { red: 0, green: 0, blue: 0 }),
    {
        Color { red: 0, green: 0, blue: 0 }
    }
}

/// The RGB triple stored at `offset` in a record.
pub open spec fn spec_color_at(s: Seq<u8>, offset: int) -> Color {
    Color { red: s[offset], green: s[offset + 1], blue: s[offset + 2] }
}

/// The lowcut filter setting.
///
/// The wire codes are not a dense enumeration and are not ordered by
/// frequency: see [`spec_lowcut_code`].
#[derive(Clone, Copy, Debug, PartialEq, Eq, Structural)]
pub enum LowcutFilter {
    Off,
    Cutoff080Hz,
    Cutoff120Hz,
}

impl Default for LowcutFilter {
    /// The filter is off by default.
    fn default() -> (r: Self)
        ensures
            r == LowcutFilter::Off,
    {
        LowcutFilter::Off
    }
}

/// The 16-bit wire code of a lowcut setting.
///
/// `0x0001` selects the 80 Hz cutoff while `0x0100` selects the 120 Hz
/// cutoff; the codes must not be treated as an ordered range.
pub open spec fn spec_lowcut_code(l: LowcutFilter) -> u16 {
    match l {
        LowcutFilter::Off => 0x0000,
        LowcutFilter::Cutoff080Hz => 0x0001,
        LowcutFilter::Cutoff120Hz => 0x0100,
    }
}

impl LowcutFilter {
    /// The 16-bit wire code of this setting.
    pub fn code(&self) -> (r: u16)
        ensures
            r == spec_lowcut_code(*self),
    {
        match self {
            LowcutFilter::Off => 0x0000,
            LowcutFilter::Cutoff080Hz => 0x0001,
            LowcutFilter::Cutoff120Hz => 0x0100,
        }
    }
}

/// The canonical device state: every field of the 34-byte record that
/// carries information, always fully populated.
#[derive(Clone, Copy, Debug, PartialEq, Eq, Structural)]
pub struct DeviceConfiguration {
    /// Input gain in dB.  The device uses 0 dB to 75 dB; the record
    /// gives the field 16 bits.
    pub gain: u16,
    /// Input mute.
    pub mute: bool,
    /// Clipguard.
    pub clipguard: bool,
    /// 48 V phantom power.
    pub phantom: bool,
    /// Lowcut filter.
    pub lowcut: LowcutFilter,
    /// Monitor volume in dB, 0 down to -128.
    pub volume: i16,
    /// Monitor mix between microphone and PC audio, in percent.
    pub mix: u8,
    /// Color shown while muted.
    pub color_mute: Color,
    /// General color; the record carries three identical copies of it.
    pub color_gen: Color,
    /// Gain lock.
    pub gain_lock: bool,
    /// Color shown during gain reduction.
    pub color_gain_reduction: Color,
    /// Clipguard indicator.
    pub clipguard_indicator: bool,
    /// Low impedance mode.
    pub lim: bool,
}

impl DeviceConfiguration {
    /// The all-default state: gain 0, everything off, black colors.
    pub open spec fn spec_default() -> DeviceConfiguration {
        DeviceConfiguration {
            gain: 0,
            mute: false,
            clipguard: false,
            phantom: false,
            lowcut: LowcutFilter::Off,
            volume: 0,
            mix: 0,
            color_mute: Color { red: 0, green: 0, blue: 0 },
            color_gen: Color { red: 0, green: 0, blue: 0 },
            gain_lock: false,
            color_gain_reduction: Color { red: 0, green: 0, blue: 0 },
            clipguard_indicator: false,
            lim: false,
        }
    }
}

impl Default for DeviceConfiguration {
    /// The all-default state: gain 0, everything off, black colors.
    fn default() -> (r: Self)
        ensures
            r == DeviceConfiguration::spec_default(),
    {
        DeviceConfiguration {
            gain: 0,
            mute: false,
            clipguard: false,
            phantom: false,
            lowcut: LowcutFilter::Off,
            volume: 0,
            mix: 0,
            color_mute: Color { red: 0, green: 0, blue: 0 },
            color_gen: Color { red: 0, green: 0, blue: 0 },
            gain_lock: false,
            color_gain_reduction: Color { red: 0, green: 0, blue: 0 },
            clipguard_indicator: false,
            lim: false,
        }
    }
}

/// The byte that encodes a boolean field.
pub open spec fn spec_bool_byte(b: bool) -> u8 {
    if b {
        1
    } else {
        0
    }
}

/// The unsigned 16-bit value that carries `volume` on the wire, in
/// two's complement.
pub open spec fn spec_volume_wire(v: i16) -> int {
    if v >= 0 {
        v as int
    } else {
        v as int + 0x10000
    }
}

/// Byte `i` of the encoded record for configuration `c`.
///
/// Bytes 2-3, 11, 14 and 27 are constants the device expects; byte 12
/// is derived from the mix value; bytes 18-26 are three copies of the
/// general color.
pub open spec fn spec_record_byte(c: DeviceConfiguration, i: int) -> u8 {
    if i == 0 {
        (c.gain as int % 256) as u8
    } else if i == 1 {
        (c.gain as int / 256) as u8
    } else if i == 2 {
        0x00
    } else if i == 3 {
        0xec
    } else if i == 4 {
        spec_bool_byte(c.mute)
    } else if i == 5 {
        spec_bool_byte(c.clipguard)
    } else if i == 6 {
        spec_bool_byte(c.phantom)
    } else if i == 7 {
        (spec_lowcut_code(c.lowcut) as int % 256) as u8
    } else if i == 8 {
        (spec_lowcut_code(c.lowcut) as int / 256) as u8
    } else if i == 9 {
        (spec_volume_wire(c.volume) % 256) as u8
    } else if i == 10 {
        (spec_volume_wire(c.volume) / 256) as u8
    } else if i == 11 {
        0x00
    } else if i == 12 {
        if c.mix == 41 || c.mix == 47 {
            0x01
        } else {
            0x00
        }
    } else if i == 13 {
        c.mix
    } else if i == 14 {
        0x01
    } else if i == 15 {
        c.color_mute.red
    } else if i == 16 {
        c.color_mute.green
    } else if i == 17 {
        c.color_mute.blue
    } else if i == 18 || i == 21 || i == 24 {
        c.color_gen.red
    } else if i == 19 || i == 22 || i == 25 {
        c.color_gen.green
    } else if i == 20 || i == 23 || i == 26 {
        c.color_gen.blue
    } else if i == 27 {
        0x01
    } else if i == 28 {
        spec_bool_byte(c.gain_lock)
    } else if i == 29 {
        c.color_gain_reduction.red
    } else if i == 30 {
        c.color_gain_reduction.green
    } else if i == 31 {
        c.color_gain_reduction.blue
    } else if i == 32 {
        spec_bool_byte(c.clipguard_indicator)
    } else {
        spec_bool_byte(c.lim)
    }
}

/// The full 34-byte record that encodes `c`.
pub open spec fn spec_write(c: DeviceConfiguration) -> Seq<u8> {
    Seq::new(RECORD_LEN as nat, |i: int| spec_record_byte(c, i))
}

impl DeviceConfiguration {
    /// Encodes this configuration as the device's 34-byte record.
    #[verifier::rlimit(60)]
    pub fn write(&self) -> (buf: Vec<u8>)
        ensures
            buf@ == spec_write(*self),
    {
        let mut buf: Vec<u8> = Vec::new();
        buf.push((self.gain % 256) as u8);
        buf.push((self.gain / 256) as u8);
        buf.push(0x00);
        buf.push(0xec);
        buf.push(if self.mute { 1 } else { 0 });
        buf.push(if self.clipguard { 1 } else { 0 });
        buf.push(if self.phantom { 1 } else { 0 });
        let lowcut_code = self.lowcut.code();
        buf.push((lowcut_code % 256) as u8);
        buf.push((lowcut_code / 256) as u8);
        let volume_wire: u32 = if self.volume >= 0 {
            self.volume as u32
        } else {
            (self.volume as i32 + 0x10000) as u32
        };
        buf.push((volume_wire % 256) as u8);
        buf.push((volume_wire / 256) as u8);
        buf.push(0x00);
        buf.push(if self.mix == 41 || self.mix == 47 { 0x01 } else { 0x00 });
        buf.push(self.mix);
        buf.push(0x01);
        buf.push(self.color_mute.red);
        buf.push(self.color_mute.green);
        buf.push(self.color_mute.blue);
        buf.push(self.color_gen.red);
        buf.push(self.color_gen.green);
        buf.push(self.color_gen.blue);
        buf.push(self.color_gen.red);
        buf.push(self.color_gen.green);
        buf.push(self.color_gen.blue);
        buf.push(self.color_gen.red);
        buf.push(self.color_gen.green);
        buf.push(self.color_gen.blue);
        buf.push(0x01);
        buf.push(if self.gain_lock { 1 } else { 0 });
        buf.push(self.color_gain_reduction.red);
        buf.push(self.color_gain_reduction.green);
        buf.push(self.color_gain_reduction.blue);
        buf.push(if self.clipguard_indicator { 1 } else { 0 });
        buf.push(if self.lim { 1 } else { 0 });
        assert(buf@ =~= spec_write(*self));
        buf
    }
}

/// The configuration obtained by overlaying a sparse patch on a base:
/// each domain field present in the patch replaces the base's value,
/// each absent one passes the base's value through.  The patch's
/// transport directives and error report are never merged.
pub open spec fn spec_merge(base: DeviceConfiguration, patch: UserConfig) -> DeviceConfiguration {
    DeviceConfiguration {
        gain: if patch.gain is Some {
            patch.gain.unwrap()
        } else {
            base.gain
        },
        mute: if patch.mute is Some {
            patch.mute.unwrap()
        } else {
            base.mute
        },
        clipguard: if patch.clipguard is Some {
            patch.clipguard.unwrap()
        } else {
            base.clipguard
        },
        phantom: if patch.phantom is Some {
            patch.phantom.unwrap()
        } else {
            base.phantom
        },
        lowcut: if patch.lowcut is Some {
            patch.lowcut.unwrap()
        } else {
            base.lowcut
        },
        volume: if patch.volume is Some {
            patch.volume.unwrap()
        } else {
            base.volume
        },
        mix: if patch.mix is Some {
            patch.mix.unwrap()
        } else {
            base.mix
        },
        color_mute: if patch.color_mute is Some {
            patch.color_mute.unwrap()
        } else {
            base.color_mute
        },
        color_gen: if patch.color_gen is Some {
            patch.color_gen.unwrap()
        } else {
            base.color_gen
        },
        gain_lock: if patch.gain_lock is Some {
            patch.gain_lock.unwrap()
        } else {
            base.gain_lock
        },
        color_gain_reduction: if patch.color_gain_reduction is Some {
            patch.color_gain_reduction.unwrap()
        } else {
            base.color_gain_reduction
        },
        clipguard_indicator: if patch.clipguard_indicator is Some {
            patch.clipguard_indicator.unwrap()
        } else {
            base.clipguard_indicator
        },
        lim: if patch.lim is Some {
            patch.lim.unwrap()
        } else {
            base.lim
        },
    }
}

impl DeviceConfiguration {
    /// Overlays a sparse patch on this configuration: every present
    /// domain field overwrites the corresponding field, absent fields
    /// leave it unchanged.  Pure and total; transport directives and
    /// the error report are ignored.
    pub fn merge(&mut self, user_config: &UserConfig)
        ensures
            *final(self) == spec_merge(*old(self), *user_config),
    {
        *self = DeviceConfiguration {
            gain: match user_config.gain {
                Some(gain) => gain,
                None => self.gain,
            },
            mute: match user_config.mute {
                Some(mute) => mute,
                None => self.mute,
            },
            clipguard: match user_config.clipguard {
                Some(clipguard) => clipguard,
                None => self.clipguard,
            },
            phantom: match user_config.phantom {
                Some(phantom) => phantom,
                None => self.phantom,
            },
            lowcut: match user_config.lowcut {
                Some(lowcut) => lowcut,
                None => self.lowcut,
            },
            volume: match user_config.volume {
                Some(volume) => volume,
                None => self.volume,
            },
            mix: match user_config.mix {
                Some(mix) => mix,
                None => self.mix,
            },
            color_mute: match user_config.color_mute {
                Some(color_mute) => color_mute,
                None => self.color_mute,
            },
            color_gen: match user_config.color_gen {
                Some(color_gen) => color_gen,
                None => self.color_gen,
            },
            gain_lock: match user_config.gain_lock {
                Some(gain_lock) => gain_lock,
                None => self.gain_lock,
            },
            color_gain_reduction: match user_config.color_gain_reduction {
                Some(color_gain_reduction) => color_gain_reduction,
                None => self.color_gain_reduction,
            },
            clipguard_indicator: match user_config.clipguard_indicator {
                Some(clipguard_indicator) => clipguard_indicator,
                None => self.clipguard_indicator,
            },
            lim: match user_config.lim {
                Some(lim) => lim,
                None => self.lim,
            },
        };
    }
}

/// Merging the same patch twice yields the same configuration as
/// merging it once: each field either keeps being overwritten with the
/// patch's value or keeps passing through.
pub proof fn lemma_merge_idempotent(base: DeviceConfiguration, patch: UserConfig)
    ensures
        spec_merge(spec_merge(base, patch), patch) == spec_merge(base, patch),
{
}

/// Merging an empty patch (no domain field present, no error report)
/// leaves the configuration unchanged.
pub proof fn lemma_merge_empty_identity(base: DeviceConfiguration, patch: UserConfig)
    requires
        patch.spec_is_empty(),
    ensures
        spec_merge(base, patch) == base,
{
}

/// A field of the record whose decoding can fail.
#[derive(Clone, Copy, Debug, PartialEq, Eq, Structural)]
pub enum ConfigField {
    Mute,
    Clipguard,
    Phantom,
    Lowcut,
    GainLock,
    ClipguardIndicator,
    Lim,
}

/// A field-scoped decode failure: the field whose bytes were out of
/// domain, the offset of those bytes in the record, and the value found
/// there.
#[derive(Clone, Copy, Debug, PartialEq, Eq, Structural)]
pub struct DecodeError {
    pub field: ConfigField,
    pub offset: usize,
    pub found: u16,
}

/// Whether a byte is a valid boolean encoding (exactly 0 or 1).
pub open spec fn spec_valid_bool_byte(b: u8) -> bool {
    b == 0 || b == 1
}

/// The little-endian 16-bit value stored at `offset` in a record.
pub open spec fn spec_u16_at(s: Seq<u8>, offset: int) -> int {
    s[offset] + 256 * s[offset + 1]
}

/// Whether a 16-bit value is one of the three lowcut wire codes.
pub open spec fn spec_valid_lowcut(w: int) -> bool {
    w == 0x0000 || w == 0x0001 || w == 0x0100
}

/// Whether a 34-byte record decodes without error: every boolean byte
/// is 0 or 1 and the lowcut value is one of its three codes.
pub open spec fn spec_valid_record(s: Seq<u8>) -> bool {
    &&& spec_valid_bool_byte(s[4])
    &&& spec_valid_bool_byte(s[5])
    &&& spec_valid_bool_byte(s[6])
    &&& spec_valid_lowcut(spec_u16_at(s, 7))
    &&& spec_valid_bool_byte(s[28])
    &&& spec_valid_bool_byte(s[32])
    &&& spec_valid_bool_byte(s[33])
}

/// The lowcut setting denoted by a valid wire code.
pub open spec fn spec_lowcut_of(w: int) -> LowcutFilter {
    if w == 0x0000 {
        LowcutFilter::Off
    } else if w == 0x0001 {
        LowcutFilter::Cutoff080Hz
    } else {
        LowcutFilter::Cutoff120Hz
    }
}

/// The signed volume denoted by its 16-bit two's-complement wire value.
pub open spec fn spec_volume_of(w: int) -> i16 {
    if w < 0x8000 {
        w as i16
    } else {
        (w - 0x10000) as i16
    }
}

/// The configuration denoted by a valid 34-byte record.
///
/// Bytes 2-3, 11, 12, 14 and 27 are ignored, and only the first of the
/// three general-color copies is read.
pub open spec fn spec_read(s: Seq<u8>) -> DeviceConfiguration {
    DeviceConfiguration {
        gain: spec_u16_at(s, 0) as u16,
        mute: s[4] == 1,
        clipguard: s[5] == 1,
        phantom: s[6] == 1,
        lowcut: spec_lowcut_of(spec_u16_at(s, 7)),
        volume: spec_volume_of(spec_u16_at(s, 9)),
        mix: s[13],
        color_mute: spec_color_at(s, 15),
        color_gen: spec_color_at(s, 18),
        gain_lock: s[28] == 1,
        color_gain_reduction: spec_color_at(s, 29),
        clipguard_indicator: s[32] == 1,
        lim: s[33] == 1,
    }
}

/// The error reported for an invalid record: the first field, in
/// decoding order, whose bytes are out of domain.
pub open spec fn spec_read_err(s: Seq<u8>) -> DecodeError {
    if !spec_valid_bool_byte(s[4]) {
        DecodeError { field: ConfigField::Mute, offset: 4, found: s[4] as u16 }
    } else if !spec_valid_bool_byte(s[5]) {
        DecodeError { field: ConfigField::Clipguard, offset: 5, found: s[5] as u16 }
    } else if !spec_valid_bool_byte(s[6]) {
        DecodeError { field: ConfigField::Phantom, offset: 6, found: s[6] as u16 }
    } else if !spec_valid_lowcut(spec_u16_at(s, 7)) {
        DecodeError { field: ConfigField::Lowcut, offset: 7, found: spec_u16_at(s, 7) as u16 }
    } else if !spec_valid_bool_byte(s[28]) {
        DecodeError { field: ConfigField::GainLock, offset: 28, found: s[28] as u16 }
    } else if !spec_valid_bool_byte(s[32]) {
        DecodeError { field: ConfigField::ClipguardIndicator, offset: 32, found: s[32] as u16 }
    } else {
        DecodeError { field: ConfigField::Lim, offset: 33, found: s[33] as u16 }
    }
}

/// Reads the boolean field at `offset`, rejecting any byte other than
/// 0 or 1 with an error naming `field`.
fn read_bool(buf: &Vec<u8>, offset: usize, field: ConfigField) -> (r: Result<bool, DecodeError>)
    requires
        buf@.len() == RECORD_LEN,
        offset < RECORD_LEN,
    ensures
        r is Ok <==> spec_valid_bool_byte(buf@[offset as int]),
        r matches Ok(b) ==> b == (buf@[offset as int] == 1),
        r matches Err(e) ==> e == (DecodeError {
            field,
            offset,
            found: buf@[offset as int] as u16,
        }),
{
    let b = buf[offset];
    if b == 0 {
        Ok(false)
    } else if b == 1 {
        Ok(true)
    } else {
        Err(DecodeError { field, offset, found: b as u16 })
    }
}

impl DeviceConfiguration {
    /// Decodes a 34-byte record.
    ///
    /// Succeeds exactly on valid records and then returns the
    /// configuration the record denotes; on an invalid record it
    /// returns the error for the first out-of-domain field.
    pub fn read(buf: &Vec<u8>) -> (r: Result<DeviceConfiguration, DecodeError>)
        requires
            buf@.len() == RECORD_LEN,
        ensures
            r is Ok <==> spec_valid_record(buf@),
            r matches Ok(c) ==> c == spec_read(buf@),
            r matches Err(e) ==> e == spec_read_err(buf@),
    {
        let gain: u16 = buf[0] as u16 + (buf[1] as u16) * 256;
        let mute = match read_bool(buf, 4, ConfigField::Mute) {
            Ok(b) => b,
            Err(e) => { return Err(e) },
        };
        let clipguard = match read_bool(buf, 5, ConfigField::Clipguard) {
            Ok(b) => b,
            Err(e) => { return Err(e) },
        };
        let phantom = match read_bool(buf, 6, ConfigField::Phantom) {
            Ok(b) => b,
            Err(e) => { return Err(e) },
        };
        let lowcut_wire: u16 = buf[7] as u16 + (buf[8] as u16) * 256;
        let lowcut = if lowcut_wire == 0x0000 {
            LowcutFilter::Off
        } else if lowcut_wire == 0x0001 {
            LowcutFilter::Cutoff080Hz
        } else if lowcut_wire == 0x0100 {
            LowcutFilter::Cutoff120Hz
        } else {
            return Err(DecodeError { field: ConfigField::Lowcut, offset: 7, found: lowcut_wire });
        };
        let volume_wire: u32 = buf[9] as u32 + (buf[10] as u32) * 256;
        let volume: i16 = if volume_wire < 0x8000 {
            volume_wire as i16
        } else {
            (volume_wire as i32 - 0x10000) as i16
        };
        let mix = buf[13];
        let color_mute = Color::read(buf, 15);
        let color_gen = Color::read(buf, 18);
        let gain_lock = match read_bool(buf, 28, ConfigField::GainLock) {
            Ok(b) => b,
            Err(e) => { return Err(e) },
        };
        let color_gain_reduction = Color::read(buf, 29);
        let clipguard_indicator = match read_bool(buf, 32, ConfigField::ClipguardIndicator) {
            Ok(b) => b,
            Err(e) => { return Err(e) },
        };
        let lim = match read_bool(buf, 33, ConfigField::Lim) {
            Ok(b) => b,
            Err(e) => { return Err(e) },
        };
        Ok(DeviceConfiguration {
            gain,
            mute,
            clipguard,
            phantom,
            lowcut,
            volume,
            mix,
            color_mute,
            color_gen,
            gain_lock,
            color_gain_reduction,
            clipguard_indicator,
            lim,
        })
    }
}

/// A 16-bit value split into a little-endian byte pair is recovered
/// exactly by recombining the pair.
proof fn lemma_le_pair_round_trip(w: int)
    requires
        0 <= w < 0x10000,
    ensures
        ((w % 256) as u8) + 256 * ((w / 256) as u8) == w,
{
    vstd::arithmetic::div_mod::lemma_fundamental_div_mod(w, 256);
    vstd::arithmetic::div_mod::lemma_mod_bound(w, 256);
}

/// Round trip: the record encoding any configuration is valid, and
/// decoding it reproduces every field exactly.  The three general-color
/// copies collapse back to the one stored triple, and the constant
/// bytes are not part of the configuration.
pub proof fn lemma_record_round_trip(c: DeviceConfiguration)
    ensures
        spec_write(c).len() == RECORD_LEN,
        spec_valid_record(spec_write(c)),
        spec_read(spec_write(c)) == c,
{
    let s = spec_write(c);
    lemma_le_pair_round_trip(c.gain as int);
    assert(spec_u16_at(s, 0) == c.gain);
    lemma_le_pair_round_trip(spec_lowcut_code(c.lowcut) as int);
    assert(spec_u16_at(s, 7) == spec_lowcut_code(c.lowcut));
    lemma_le_pair_round_trip(spec_volume_wire(c.volume));
    assert(spec_u16_at(s, 9) == spec_volume_wire(c.volume));
    assert(spec_lowcut_of(spec_lowcut_code(c.lowcut) as int) == c.lowcut);
    assert(spec_volume_of(spec_volume_wire(c.volume)) == c.volume);
}

/// Whether `offset` holds one of the record's boolean fields.
pub open spec fn spec_is_bool_offset(offset: int) -> bool {
    offset == 4 || offset == 5 || offset == 6 || offset == 28 || offset == 32 || offset == 33
}

/// A record with an out-of-domain byte at any boolean offset is
/// rejected, whatever the rest of the record holds.
pub proof fn lemma_reject_bad_bool_byte(s: Seq<u8>, offset: int)
    requires
        s.len() == RECORD_LEN,
        spec_is_bool_offset(offset),
        !spec_valid_bool_byte(s[offset]),
    ensures
        !spec_valid_record(s),
{
}

/// A record whose lowcut value is none of the three wire codes is
/// rejected, whatever the rest of the record holds.
pub proof fn lemma_reject_bad_lowcut(s: Seq<u8>)
    requires
        s.len() == RECORD_LEN,
        !spec_valid_lowcut(spec_u16_at(s, 7)),
    ensures
        !spec_valid_record(s),
{
}

/// The error reported for an invalid record is accurate: it names a
/// field whose bytes really are out of domain, together with that
/// field's offset and the value found there.
pub proof fn lemma_read_err_accurate(s: Seq<u8>)
    requires
        s.len() == RECORD_LEN,
        !spec_valid_record(s),
    ensures
        spec_read_err(s).field is Lowcut ==> {
            &&& spec_read_err(s).offset == 7
            &&& !spec_valid_lowcut(spec_u16_at(s, 7))
            &&& spec_read_err(s).found == spec_u16_at(s, 7)
        },
        !(spec_read_err(s).field is Lowcut) ==> {
            &&& spec_is_bool_offset(spec_read_err(s).offset as int)
            &&& !spec_valid_bool_byte(s[spec_read_err(s).offset as int])
            &&& spec_read_err(s).found == s[spec_read_err(s).offset as int]
        },
{
}

/// Mix-flag derivation: byte 12 of an encoded record is exactly 1 when
/// the mix is 41 or 47, and exactly 0 otherwise.
pub proof fn lemma_mix_flag(c: DeviceConfiguration)
    ensures
        spec_write(c)[12] == if c.mix == 41 || c.mix == 47 {
            1u8
        } else {
            0u8
        },
{
}

/// The write mode sent with a configuration write: a temporary write is
/// lost on a device power-cycle, a persistent one survives it.
#[derive(Clone, Copy, Debug, PartialEq, Eq, Structural)]
pub enum Mode {
    Temporary,
    Persistant,
}

impl Mode {
    /// The value field of the control transfer selecting this mode.
    pub fn value(&self) -> (r: u16)
        ensures
            r == self.spec_value(),
    {
        match self {
            Mode::Temporary => 0x0000,
            Mode::Persistant => 0x0002,
        }
    }

    /// The wire value of each mode.
    pub open spec fn spec_value(&self) -> u16 {
        match self {
            Mode::Temporary => 0x0000,
            Mode::Persistant => 0x0002,
        }
    }
}

} // verus!
