//! The 8-byte feature report that carries one command to the macropad.
use vstd::prelude::*;
use crate::command::{
    brightness_code, effect_code, Brightness, Command, Effect, Mapping, MappingView, Profile,
};

verus! {

/// Report id that tags a command report.
pub const REPORT_ID: u8 = 0x06;

/// Command type that selects a lighting effect.
pub const SET_EFFECT: u16 = 0x0001;

/// Command type that steps the brightness.
pub const CHANGE_BRIGHTNESS: u16 = 0x0002;

/// Command type that switches the active profile.
pub const SWITCH_PROFILE: u16 = 0x0003;

/// Command type that remaps one key.
pub const REMAP_KEY: u16 = 0x0004;

/// Number of bytes in a command report.
pub const REPORT_LEN: usize = 8;

/// Low byte of a 16-bit value.
pub open spec fn low_byte(x: u16) -> u8 {
    (x % 256) as u8
}

/// High byte of a 16-bit value.
pub open spec fn high_byte(x: u16) -> u8 {
    (x / 256) as u8
}

/// The fields of a command report before they are laid out as bytes.
#[derive(Clone, Copy, Debug, PartialEq, Eq, Structural)]
pub struct CommandReport {
    pub report_id: u8,
    pub command_type: u16,
    pub value: u16,
    pub profile: u8,
    pub row: u8,
    pub column: u8,
}

impl CommandReport {
    /// The bytes on the wire: id, command type and value little-endian, then
    /// profile, row and column.
    pub open spec fn wire(self) -> Seq<u8> {
        seq![
            self.report_id,
            low_byte(self.command_type),
            high_byte(self.command_type),
            low_byte(self.value),
            high_byte(self.value),
            self.profile,
            self.row,
            self.column,
        ]
    }

    /// Lays the report out as the 8 bytes that are sent to the device.
    pub fn to_bytes(&self) -> (r: [u8; 8])
        ensures
            r@ == self.wire(),
    {
        let mut buffer = [0u8; 8];
        let ct = self.command_type;
        let v = self.value;
        buffer[0] = self.report_id;
        buffer[1] = (ct & 0xff) as u8;
        buffer[2] = (ct >> 8) as u8;
        buffer[3] = (v & 0xff) as u8;
        buffer[4] = (v >> 8) as u8;
        buffer[5] = self.profile;
        buffer[6] = self.row;
        buffer[7] = self.column;
        proof {
            assert((ct & 0xff) == ct % 256) by (bit_vector);
            assert((ct >> 8) == ct / 256) by (bit_vector);
            assert((v & 0xff) == v % 256) by (bit_vector);
            assert((v >> 8) == v / 256) by (bit_vector);
            assert(buffer@ =~= self.wire());
        }
        buffer
    }
}

/// A report with the given command type and value, and no profile, row or column.
pub open spec fn plain_report(command_type: u16, value: u16) -> CommandReport {
    CommandReport { report_id: REPORT_ID, command_type, value, profile: 0, row: 0, column: 0 }
}

/// The report fields that each command is sent with.
pub open spec fn report_of(c: Command) -> CommandReport {
    match c {
        Command::Effect(e) => plain_report(SET_EFFECT, effect_code(e)),
        Command::Brightness(b) => plain_report(CHANGE_BRIGHTNESS, brightness_code(b)),
        Command::Profile(p) => CommandReport {
            report_id: REPORT_ID,
            command_type: SWITCH_PROFILE,
            value: 0,
            profile: p@,
            row: 0,
            column: 0,
        },
        Command::Mapping(m) => CommandReport {
            report_id: REPORT_ID,
            command_type: REMAP_KEY,
            value: m@.key_code,
            profile: m@.profile,
            row: m@.row,
            column: m@.column,
        },
    }
}

/// The bytes that a command is sent as.
pub open spec fn wire_of(c: Command) -> Seq<u8> {
    report_of(c).wire()
}

impl Command {
    /// The report fields for this command; fields that do not apply are zero.
    pub fn build_report(&self) -> (r: CommandReport)
        ensures
            r == report_of(*self),
    {
        match self {
            Command::Effect(e) => CommandReport {
                report_id: REPORT_ID,
                command_type: SET_EFFECT,
                value: e.code(),
                profile: 0,
                row: 0,
                column: 0,
            },
            Command::Brightness(b) => CommandReport {
                report_id: REPORT_ID,
                command_type: CHANGE_BRIGHTNESS,
                value: b.code(),
                profile: 0,
                row: 0,
                column: 0,
            },
            Command::Profile(p) => CommandReport {
                report_id: REPORT_ID,
                command_type: SWITCH_PROFILE,
                value: 0,
                profile: p.number(),
                row: 0,
                column: 0,
            },
            Command::Mapping(m) => CommandReport {
                report_id: REPORT_ID,
                command_type: REMAP_KEY,
                value: m.key_code(),
                profile: m.profile(),
                row: m.row(),
                column: m.column(),
            },
        }
    }

    /// Encodes this command as the 8 bytes of its feature report.
    pub fn encode(&self) -> (r: [u8; 8])
        ensures
            r@ == wire_of(*self),
    {
        let report = self.build_report();
        report.to_bytes()
    }
}

/// The report that switches to profile `p`.
pub open spec fn profile_wire(p: u8) -> Seq<u8> {
    seq![REPORT_ID, low_byte(SWITCH_PROFILE), high_byte(SWITCH_PROFILE), 0u8, 0u8, p, 0u8, 0u8]
}

/// The report that maps the key at `row`, `column` of `profile` to `key_code`.
pub open spec fn mapping_wire(key_code: u16, profile: u8, row: u8, column: u8) -> Seq<u8> {
    seq![
        REPORT_ID,
        low_byte(REMAP_KEY),
        high_byte(REMAP_KEY),
        low_byte(key_code),
        high_byte(key_code),
        profile,
        row,
        column,
    ]
}

/// The report that selects `effect`.
pub open spec fn effect_wire(effect: Effect) -> Seq<u8> {
    seq![
        REPORT_ID,
        low_byte(SET_EFFECT),
        high_byte(SET_EFFECT),
        low_byte(effect_code(effect)),
        high_byte(effect_code(effect)),
        0u8,
        0u8,
        0u8,
    ]
}

/// The report that steps the brightness in direction `b`.
pub open spec fn brightness_wire(b: Brightness) -> Seq<u8> {
    seq![
        REPORT_ID,
        low_byte(CHANGE_BRIGHTNESS),
        high_byte(CHANGE_BRIGHTNESS),
        low_byte(brightness_code(b)),
        high_byte(brightness_code(b)),
        0u8,
        0u8,
        0u8,
    ]
}

/// A valid profile number `p` is sent as a switch-profile report that carries `p`
/// in the profile byte and zero in the value, row and column bytes.
pub proof fn profile_report_law(p: u8, profile: Profile)
    requires
        profile@ == p,
    ensures
        wire_of(Command::Profile(profile)) == profile_wire(p),
        profile_wire(p).len() == REPORT_LEN,
{
    assert(wire_of(Command::Profile(profile)) =~= profile_wire(p));
}

/// A valid key mapping is sent with its key code little-endian in bytes 3 and 4,
/// and its profile, row and column in bytes 5, 6 and 7.
pub proof fn mapping_report_law(key_code: u16, profile: u8, row: u8, column: u8, mapping: Mapping)
    requires
        mapping@ == (MappingView { key_code, profile, row, column }),
    ensures
        wire_of(Command::Mapping(mapping)) == mapping_wire(key_code, profile, row, column),
        mapping_wire(key_code, profile, row, column).len() == REPORT_LEN,
        mapping_wire(key_code, profile, row, column)[3] as int + 256 * mapping_wire(
            key_code,
            profile,
            row,
            column,
        )[4] as int == key_code as int,
{
    assert(wire_of(Command::Mapping(mapping)) =~= mapping_wire(key_code, profile, row, column));
}

/// An effect is sent as a set-effect report that carries the effect's code
/// little-endian in bytes 3 and 4 and zero in the last three bytes.
pub proof fn effect_report_law(effect: Effect)
    ensures
        wire_of(Command::Effect(effect)) == effect_wire(effect),
        effect_wire(effect).len() == REPORT_LEN,
{
    assert(wire_of(Command::Effect(effect)) =~= effect_wire(effect));
}

/// A brightness step is sent as a brightness report that carries the direction's
/// code little-endian in bytes 3 and 4 and zero in the last three bytes.
pub proof fn brightness_report_law(b: Brightness)
    ensures
        wire_of(Command::Brightness(b)) == brightness_wire(b),
        brightness_wire(b).len() == REPORT_LEN,
{
    assert(wire_of(Command::Brightness(b)) =~= brightness_wire(b));
}

/// Two effects give reports that differ at most in the value bytes, and the two
/// brightness directions give reports that differ only there.
pub proof fn value_only_differs_law(e1: Effect, e2: Effect)
    ensures
        forall|i: int|
            0 <= i < REPORT_LEN && i != 3 && i != 4 ==> #[trigger] effect_wire(e1)[i] == effect_wire(
                e2,
            )[i],
        forall|i: int|
            0 <= i < REPORT_LEN && i != 3 && i != 4 ==> #[trigger] brightness_wire(
                Brightness::Increase,
            )[i] == brightness_wire(Brightness::Decrease)[i],
        brightness_wire(Brightness::Increase)[3] != brightness_wire(Brightness::Decrease)[3],
{
}

/// Each kind of command carries its own command type in bytes 1 and 2.
pub proof fn distinct_tags_law(e: Effect, b: Brightness, p: Profile, m: Mapping)
    ensures
        ({
            let t = seq![
                wire_of(Command::Effect(e)),
                wire_of(Command::Brightness(b)),
                wire_of(Command::Profile(p)),
                wire_of(Command::Mapping(m)),
            ];
            forall|i: int, j: int|
                0 <= i < 4 && 0 <= j < 4 && i != j ==> (#[trigger] t[i][1], t[i][2]) != (
                    #[trigger] t[j][1],
                    t[j][2],
                )
        }),
{
}

/// Encoding depends on the command alone: equal commands give byte-identical reports.
pub proof fn encode_deterministic_law(a: Command, b: Command)
    requires
        a == b,
    ensures
        wire_of(a) == wire_of(b),
        wire_of(a).len() == REPORT_LEN,
{
}

} // verus!
