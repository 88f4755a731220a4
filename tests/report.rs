use modpadctrl::command::{
    Brightness, Command, Effect, Field, Mapping, Profile, ValidationError, COLUMN_COUNT,
    PROFILE_COUNT, ROW_COUNT,
};
use modpadctrl::report::{
    CommandReport, CHANGE_BRIGHTNESS, REMAP_KEY, REPORT_ID, SET_EFFECT, SWITCH_PROFILE,
};

fn le(x: u16) -> (u8, u8) {
    ((x & 0xff) as u8, (x >> 8) as u8)
}

#[test]
fn valid_profiles_encode_their_number() {
    for p in 1..=PROFILE_COUNT {
        let profile = Profile::new(p).expect("profile in range");
        assert_eq!(profile.number(), p);
        let bytes = Command::Profile(profile).encode();
        let (lo, hi) = le(SWITCH_PROFILE);
        assert_eq!(bytes, [REPORT_ID, lo, hi, 0, 0, p, 0, 0]);
    }
}

#[test]
fn profile_out_of_range_is_rejected() {
    assert_eq!(
        Profile::new(0),
        Err(ValidationError { field: Field::Profile, value: 0, max: PROFILE_COUNT })
    );
    assert_eq!(
        Profile::new(PROFILE_COUNT + 1),
        Err(ValidationError { field: Field::Profile, value: PROFILE_COUNT + 1, max: PROFILE_COUNT })
    );
    assert!(Profile::new(255).is_err());
}

#[test]
fn mapping_encodes_key_code_little_endian() {
    let m = Mapping::new(0x1234, 2, 3, 1).expect("mapping in range");
    let bytes = Command::Mapping(m).encode();
    let (lo, hi) = le(REMAP_KEY);
    assert_eq!(bytes, [REPORT_ID, lo, hi, 0x34, 0x12, 2, 3, 1]);
}

#[test]
fn mapping_encodes_every_valid_position() {
    for p in 1..=PROFILE_COUNT {
        for r in 1..=ROW_COUNT {
            for c in 1..=COLUMN_COUNT {
                let m = Mapping::new(0x00e0, p, r, c).unwrap();
                let bytes = Command::Mapping(m).encode();
                assert_eq!(&bytes[3..], &[0xe0, 0x00, p, r, c]);
            }
        }
    }
}

#[test]
fn encoding_twice_gives_identical_bytes() {
    let commands = [
        Command::Effect(Effect::Wave),
        Command::Brightness(Brightness::Decrease),
        Command::Profile(Profile::new(3).unwrap()),
        Command::Mapping(Mapping::new(0xabcd, 1, 1, 1).unwrap()),
    ];
    for c in commands.iter() {
        assert_eq!(c.encode(), c.encode());
        assert_eq!(c.encode(), c.clone().encode());
    }
}

#[test]
fn effect_round_trip() {
    let effects = [
        (Effect::Off, 0u16),
        (Effect::Static, 1),
        (Effect::Breathing, 2),
        (Effect::ColorCycle, 3),
        (Effect::Wave, 4),
        (Effect::Reactive, 5),
    ];
    let (lo, hi) = le(SET_EFFECT);
    for (e, code) in effects.iter() {
        assert_eq!(e.code(), *code);
        let bytes = Command::Effect(*e).encode();
        assert_eq!(bytes, [REPORT_ID, lo, hi, *code as u8, 0, 0, 0, 0]);
    }
}

#[test]
fn brightness_increase_report() {
    let bytes = Command::Brightness(Brightness::Increase).encode();
    assert_eq!(bytes, [0x06, 0x02, 0x00, 0x01, 0x00, 0, 0, 0]);
    let (lo, hi) = le(CHANGE_BRIGHTNESS);
    let down = Command::Brightness(Brightness::Decrease).encode();
    assert_eq!(down, [REPORT_ID, lo, hi, 0, 0, 0, 0, 0]);
}

#[test]
fn maximum_row_and_column_are_accepted() {
    let m = Mapping::new(4, PROFILE_COUNT, ROW_COUNT, COLUMN_COUNT).unwrap();
    assert_eq!(m.row(), ROW_COUNT);
    assert_eq!(m.column(), COLUMN_COUNT);
    assert_eq!(m.profile(), PROFILE_COUNT);
    assert_eq!(m.key_code(), 4);
}

#[test]
fn row_past_maximum_is_rejected() {
    assert_eq!(
        Mapping::new(4, 1, ROW_COUNT + 1, 1),
        Err(ValidationError { field: Field::Row, value: ROW_COUNT + 1, max: ROW_COUNT })
    );
    assert_eq!(
        Mapping::new(4, 1, 0, 1),
        Err(ValidationError { field: Field::Row, value: 0, max: ROW_COUNT })
    );
}

#[test]
fn column_past_maximum_is_rejected() {
    assert_eq!(
        Mapping::new(4, 1, 1, COLUMN_COUNT + 1),
        Err(ValidationError { field: Field::Column, value: COLUMN_COUNT + 1, max: COLUMN_COUNT })
    );
}

#[test]
fn mapping_reports_profile_before_row_and_column() {
    assert_eq!(
        Mapping::new(4, PROFILE_COUNT + 1, ROW_COUNT + 1, COLUMN_COUNT + 1),
        Err(ValidationError { field: Field::Profile, value: PROFILE_COUNT + 1, max: PROFILE_COUNT })
    );
    assert_eq!(
        Mapping::new(4, 1, ROW_COUNT + 1, COLUMN_COUNT + 1).unwrap_err().field,
        Field::Row
    );
}

#[test]
fn report_fields_lay_out_little_endian() {
    let r = CommandReport {
        report_id: 9,
        command_type: 0xa1b2,
        value: 0xc3d4,
        profile: 5,
        row: 6,
        column: 7,
    };
    assert_eq!(r.to_bytes(), [9, 0xb2, 0xa1, 0xd4, 0xc3, 5, 6, 7]);
}

#[test]
fn build_report_zeroes_unused_fields() {
    let r = Command::Profile(Profile::new(2).unwrap()).build_report();
    assert_eq!(
        r,
        CommandReport {
            report_id: REPORT_ID,
            command_type: SWITCH_PROFILE,
            value: 0,
            profile: 2,
            row: 0,
            column: 0,
        }
    );
}
