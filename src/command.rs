//! Typed commands for the macropad, each validated when it is built.
use vstd::prelude::*;

verus! {

/// Number of profiles the macropad stores; profiles are numbered from 1.
pub const PROFILE_COUNT: u8 = 6;

/// Number of key rows; rows are numbered from 1.
pub const ROW_COUNT: u8 = 4;

/// Number of key columns; columns are numbered from 1.
pub const COLUMN_COUNT: u8 = 3;

/// Lighting effect shown by the key LEDs.
#[derive(Clone, Copy, Debug, PartialEq, Eq, Structural)]
pub enum Effect {
    Off,
    Static,
    Breathing,
    ColorCycle,
    Wave,
    Reactive,
}

/// The numeric code of an effect, as the firmware reads it.
pub open spec fn effect_code(e: Effect) -> u16 {
    match e {
        Effect::Off => 0,
        Effect::Static => 1,
        Effect::Breathing => 2,
        Effect::ColorCycle => 3,
        Effect::Wave => 4,
        Effect::Reactive => 5,
    }
}

impl Effect {
    pub fn code(&self) -> (r: u16)
        ensures
            r == effect_code(*self),
    {
        match self {
            Effect::Off => 0,
            Effect::Static => 1,
            Effect::Breathing => 2,
            Effect::ColorCycle => 3,
            Effect::Wave => 4,
            Effect::Reactive => 5,
        }
    }
}

/// Direction of a brightness step.
#[derive(Clone, Copy, Debug, PartialEq, Eq, Structural)]
pub enum Brightness {
    Increase,
    Decrease,
}

/// The numeric code of a brightness direction, as the firmware reads it.
pub open spec fn brightness_code(b: Brightness) -> u16 {
    match b {
        Brightness::Increase => 1,
        Brightness::Decrease => 0,
    }
}

impl Brightness {
    pub fn code(&self) -> (r: u16)
        ensures
            r == brightness_code(*self),
    {
        match self {
            Brightness::Increase => 1,
            Brightness::Decrease => 0,
        }
    }
}

/// The argument that a validation refers to.
#[derive(Clone, Copy, Debug, PartialEq, Eq, Structural)]
pub enum Field {
    Profile,
    Row,
    Column,
}

/// A 1-based index that lies outside `1..=max`.
#[derive(Clone, Copy, Debug, PartialEq, Eq, Structural)]
pub struct ValidationError {
    pub field: Field,
    pub value: u8,
    pub max: u8,
}

/// Whether `v` is a valid 1-based index below or at `max`.
pub open spec fn index_in_range(v: u8, max: u8) -> bool {
    1 <= v && v <= max
}

/// The first bound that a key mapping violates, checking profile, then row, then column.
pub open spec fn mapping_violation(profile: u8, row: u8, column: u8) -> Option<ValidationError> {
    if !index_in_range(profile, PROFILE_COUNT) {
        Some(ValidationError { field: Field::Profile, value: profile, max: PROFILE_COUNT })
    } else if !index_in_range(row, ROW_COUNT) {
        Some(ValidationError { field: Field::Row, value: row, max: ROW_COUNT })
    } else if !index_in_range(column, COLUMN_COUNT) {
        Some(ValidationError { field: Field::Column, value: column, max: COLUMN_COUNT })
    } else {
        None
    }
}

/// Checks a 1-based index against its bound.
pub fn check_index(field: Field, value: u8, max: u8) -> (r: Result<(), ValidationError>)
    ensures
        r is Ok <==> index_in_range(value, max),
        r is Err ==> r == Err::<(), ValidationError>(
            ValidationError { field, value, max },
        ),
{
    if 1 <= value && value <= max {
        Ok(())
    } else {
        Err(ValidationError { field, value, max })
    }
}

/// A profile number known to lie in `1..=PROFILE_COUNT`.
#[derive(Clone, Copy, Debug, PartialEq, Eq)]
pub struct Profile {
    number: u8,
}

impl View for Profile {
    type V = u8;

    closed spec fn view(&self) -> u8 {
        self.number
    }
}

impl Profile {
    #[verifier::type_invariant]
    spec fn inv(self) -> bool {
        index_in_range(self.number, PROFILE_COUNT)
    }

    /// Builds a profile command argument, rejecting numbers outside `1..=PROFILE_COUNT`.
    pub fn new(number: u8) -> (r: Result<Profile, ValidationError>)
        ensures
            r is Ok <==> index_in_range(number, PROFILE_COUNT),
            r matches Ok(p) ==> p@ == number,
            r is Err ==> r == Err::<Profile, ValidationError>(
                ValidationError { field: Field::Profile, value: number, max: PROFILE_COUNT },
            ),
    {
        match check_index(Field::Profile, number, PROFILE_COUNT) {
            Ok(()) => Ok(Profile { number }),
            Err(e) => Err(e),
        }
    }

    pub fn number(&self) -> (r: u8)
        ensures
            r == self@,
            index_in_range(r, PROFILE_COUNT),
    {
        proof {
            use_type_invariant(self);
        }
        self.number
    }
}

/// The plain values of a key mapping: key code, profile, row, column.
pub struct MappingView {
    pub key_code: u16,
    pub profile: u8,
    pub row: u8,
    pub column: u8,
}

/// A key remapping whose profile, row and column all lie within their bounds.
#[derive(Clone, Copy, Debug, PartialEq, Eq)]
pub struct Mapping {
    key_code: u16,
    profile: u8,
    row: u8,
    column: u8,
}

impl View for Mapping {
    type V = MappingView;

    closed spec fn view(&self) -> MappingView {
        MappingView {
            key_code: self.key_code,
            profile: self.profile,
            row: self.row,
            column: self.column,
        }
    }
}

impl Mapping {
    #[verifier::type_invariant]
    spec fn inv(self) -> bool {
        mapping_violation(self.profile, self.row, self.column) is None
    }

    /// Builds a key mapping, rejecting the first of profile, row and column that is
    /// outside its 1-based range.
    pub fn new(key_code: u16, profile: u8, row: u8, column: u8) -> (r: Result<
        Mapping,
        ValidationError,
    >)
        ensures
            r is Ok <==> mapping_violation(profile, row, column) is None,
            r matches Ok(m) ==> m@ == (MappingView { key_code, profile, row, column }),
            r matches Err(e) ==> mapping_violation(profile, row, column) == Some(e),
    {
        match check_index(Field::Profile, profile, PROFILE_COUNT) {
            Ok(()) => {},
            Err(e) => {
                return Err(e);
            },
        }
        match check_index(Field::Row, row, ROW_COUNT) {
            Ok(()) => {},
            Err(e) => {
                return Err(e);
            },
        }
        match check_index(Field::Column, column, COLUMN_COUNT) {
            Ok(()) => {},
            Err(e) => {
                return Err(e);
            },
        }
        Ok(Mapping { key_code, profile, row, column })
    }

    pub fn key_code(&self) -> (r: u16)
        ensures
            r == self@.key_code,
    {
        self.key_code
    }

    pub fn profile(&self) -> (r: u8)
        ensures
            r == self@.profile,
            index_in_range(r, PROFILE_COUNT),
    {
        proof {
            use_type_invariant(self);
        }
        self.profile
    }

    pub fn row(&self) -> (r: u8)
        ensures
            r == self@.row,
            index_in_range(r, ROW_COUNT),
    {
        proof {
            use_type_invariant(self);
        }
        self.row
    }

    pub fn column(&self) -> (r: u8)
        ensures
            r == self@.column,
            index_in_range(r, COLUMN_COUNT),
    {
        proof {
            use_type_invariant(self);
        }
        self.column
    }
}

/// One command for the macropad.
#[derive(Clone, Copy, Debug, PartialEq, Eq)]
pub enum Command {
    Effect(Effect),
    Brightness(Brightness),
    Profile(Profile),
    Mapping(Mapping),
}

} // verus!
