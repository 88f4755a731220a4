//! Discovery of the macropad among the attached HID devices, and the session that
//! sends it commands.
use vstd::prelude::*;
use hidapi::{DeviceInfo, HidApi, HidDevice, HidError};
use crate::command::{
    index_in_range, mapping_violation, Brightness, Command, Effect, Field, Mapping, Profile,
    ValidationError, COLUMN_COUNT, PROFILE_COUNT, ROW_COUNT,
};
use crate::error::ModpadApiError;
use crate::report::{
    brightness_report_law, brightness_wire, effect_report_law, effect_wire, mapping_report_law,
    mapping_wire, profile_report_law, profile_wire, wire_of,
};

verus! {

/// USB vendor id of the macropad.
pub const VENDOR_ID: u16 = 0x03eb;

/// USB product id of the macropad.
pub const PRODUCT_ID: u16 = 0x2066;

/// HID usage page of the macropad's command interface.
pub const USAGE_PAGE: u16 = 0xff;

/// Declares hidapi's context, which lists the attached devices and opens them.
#[verifier::external_type_specification]
#[verifier::external_body]
pub struct ExHidApi(HidApi);

/// Declares hidapi's handle to an open device.
#[verifier::external_type_specification]
#[verifier::external_body]
pub struct ExHidDevice(HidDevice);

/// Declares hidapi's description of one attached device.
#[verifier::external_type_specification]
#[verifier::external_body]
pub struct ExDeviceInfo(DeviceInfo);

/// Relies on hidapi's `HidApi::new`: creates a context and its device list, or fails.
pub assume_specification[ HidApi::new ]() -> (r: Result<HidApi, HidError>);

/// Relies on hidapi's `DeviceInfo::vendor_id`.
pub assume_specification[ DeviceInfo::vendor_id ](info: &DeviceInfo) -> (r: u16);

/// Relies on hidapi's `DeviceInfo::product_id`.
pub assume_specification[ DeviceInfo::product_id ](info: &DeviceInfo) -> (r: u16);

/// Relies on hidapi's `DeviceInfo::usage_page`.
pub assume_specification[ DeviceInfo::usage_page ](info: &DeviceInfo) -> (r: u16);

/// Relies on hidapi's `HidApi::device_list`: the devices found when the context was
/// made, in the order the host reported them.
#[verifier::external_body]
fn device_list(api: &HidApi) -> (r: Vec<DeviceInfo>) {
    api.device_list().cloned().collect()
}

/// Relies on hidapi's `HidApi::open_path`: opens the device at the path of `info`.
#[verifier::external_body]
fn open_path(api: &HidApi, info: &DeviceInfo) -> (r: Result<HidDevice, HidError>) {
    api.open_path(info.path())
}

/// The identifiers by which a HID device is recognised.
#[derive(Clone, Copy, Debug, PartialEq, Eq, Structural)]
pub struct DeviceIds {
    pub vendor_id: u16,
    pub product_id: u16,
    pub usage_page: u16,
}

/// Whether a device is the macropad's command interface.
pub open spec fn is_modpad(d: DeviceIds) -> bool {
    d.vendor_id == VENDOR_ID && d.product_id == PRODUCT_ID && d.usage_page == USAGE_PAGE
}

impl DeviceIds {
    pub fn is_modpad(&self) -> (r: bool)
        ensures
            r == is_modpad(*self),
    {
        self.vendor_id == VENDOR_ID && self.product_id == PRODUCT_ID && self.usage_page
            == USAGE_PAGE
    }
}

/// Index of the first device in `devices` that is the macropad, if any is.
pub fn find_modpad(devices: &Vec<DeviceIds>) -> (r: Option<usize>)
    ensures
        r is None <==> forall|i: int| 0 <= i < devices@.len() ==> !is_modpad(#[trigger] devices@[i]),
        r matches Some(k) ==> k < devices@.len() && is_modpad(devices@[k as int]) && forall|
            i: int,
        | 0 <= i < k ==> !is_modpad(#[trigger] devices@[i]),
{
    let mut k: usize = 0;
    while k < devices.len()
        invariant
            k <= devices@.len(),
            forall|i: int| 0 <= i < k ==> !is_modpad(#[trigger] devices@[i]),
        decreases devices@.len() - k,
    {
        if devices[k].is_modpad() {
            return Some(k);
        }
        k = k + 1;
    }
    None
}

/// Picks the device to open: the first macropad in `devices`, or `ModpadNotFound`
/// when there is none.
pub fn select_modpad(devices: &Vec<DeviceIds>) -> (r: Result<usize, ModpadApiError>)
    ensures
        r is Err <==> forall|i: int| 0 <= i < devices@.len() ==> !is_modpad(#[trigger] devices@[i]),
        r is Err ==> r matches Err(ModpadApiError::ModpadNotFound),
        r matches Ok(k) ==> k < devices@.len() && is_modpad(devices@[k as int]) && forall|
            i: int,
        | 0 <= i < k ==> !is_modpad(#[trigger] devices@[i]),
{
    match find_modpad(devices) {
        Some(k) => Ok(k),
        None => Err(ModpadApiError::ModpadNotFound),
    }
}

/// An open session with the macropad.
pub struct ModpadApi {
    modpad_device: HidDevice,
    /// Every report written in this session, in order, each with whether the
    /// write succeeded.
    sent: Ghost<Seq<(Seq<u8>, bool)>>,
}

/// Relies on hidapi's `HidDevice::send_feature_report`: one feature-report write of
/// `data` to the session's device, which succeeds or fails. The session's record of
/// writes gains `data` and the outcome.
#[verifier::external_body]
fn write_report(api: &mut ModpadApi, data: &[u8; 8]) -> (r: Result<(), HidError>)
    ensures
        final(api).sent() == old(api).sent().push((data@, r is Ok)),
{
    api.modpad_device.send_feature_report(data)
}

impl ModpadApi {
    /// Number of profiles, for callers that check arguments before building commands.
    pub const PROFILE_COUNT: u8 = PROFILE_COUNT;

    /// Number of key rows.
    pub const ROW_COUNT: u8 = ROW_COUNT;

    /// Number of key columns.
    pub const COLUMN_COUNT: u8 = COLUMN_COUNT;

    /// The reports written in this session, in order, each with whether its write
    /// succeeded.
    pub closed spec fn sent(&self) -> Seq<(Seq<u8>, bool)> {
        self.sent@
    }

    /// Finds the first attached macropad and opens it.
    ///
    /// Fails with `ModpadNotFound` when no device matches, and with `HidApiError`
    /// when the HID layer cannot list or open devices. A new session has written
    /// nothing.
    pub fn new() -> (r: Result<ModpadApi, ModpadApiError>)
        ensures
            !(r matches Err(ModpadApiError::Validation(_))),
            r matches Ok(api) ==> api.sent() == Seq::<(Seq<u8>, bool)>::empty(),
    {
        let api = match HidApi::new() {
            Ok(api) => api,
            Err(e) => {
                return Err(ModpadApiError::HidApiError(e));
            },
        };
        let infos = device_list(&api);
        let mut ids: Vec<DeviceIds> = Vec::new();
        let mut i: usize = 0;
        while i < infos.len()
            invariant
                i <= infos@.len(),
                ids@.len() == i,
            decreases infos@.len() - i,
        {
            let info = &infos[i];
            ids.push(
                DeviceIds {
                    vendor_id: info.vendor_id(),
                    product_id: info.product_id(),
                    usage_page: info.usage_page(),
                },
            );
            i = i + 1;
        }
        let k = match select_modpad(&ids) {
            Ok(k) => k,
            Err(e) => {
                return Err(e);
            },
        };
        match open_path(&api, &infos[k]) {
            Ok(modpad_device) => Ok(ModpadApi { modpad_device, sent: Ghost(Seq::empty()) }),
            Err(e) => Err(ModpadApiError::HidApiError(e)),
        }
    }

    /// Encodes `command` and writes it to the device as one feature report.
    ///
    /// Returns `Ok` exactly when the write succeeded.
    pub fn send(&mut self, command: Command) -> (r: Result<(), ModpadApiError>)
        ensures
            final(self).sent() == old(self).sent().push((wire_of(command), r is Ok)),
            r is Err ==> r matches Err(ModpadApiError::HidApiError(_)),
    {
        let buffer = command.encode();
        match write_report(self, &buffer) {
            Ok(()) => Ok(()),
            Err(e) => Err(ModpadApiError::HidApiError(e)),
        }
    }

    /// Selects a lighting effect.
    pub fn set_effect(&mut self, effect: Effect) -> (r: Result<(), ModpadApiError>)
        ensures
            final(self).sent() == old(self).sent().push((effect_wire(effect), r is Ok)),
            r is Err ==> r matches Err(ModpadApiError::HidApiError(_)),
    {
        proof {
            effect_report_law(effect);
        }
        self.send(Command::Effect(effect))
    }

    /// Steps the brightness up or down.
    pub fn change_brightness(&mut self, brightness_dir: Brightness) -> (r: Result<
        (),
        ModpadApiError,
    >)
        ensures
            final(self).sent() == old(self).sent().push(
                (brightness_wire(brightness_dir), r is Ok),
            ),
            r is Err ==> r matches Err(ModpadApiError::HidApiError(_)),
    {
        proof {
            brightness_report_law(brightness_dir);
        }
        self.send(Command::Brightness(brightness_dir))
    }

    /// Switches the active profile; a number outside `1..=PROFILE_COUNT` is rejected
    /// and nothing is written.
    pub fn switch_profile(&mut self, profile_number: u8) -> (r: Result<(), ModpadApiError>)
        ensures
            !index_in_range(profile_number, PROFILE_COUNT) <==> r matches Err(
                ModpadApiError::Validation(_),
            ),
            r matches Err(ModpadApiError::Validation(e)) ==> e == (ValidationError {
                field: Field::Profile,
                value: profile_number,
                max: PROFILE_COUNT,
            }),
            !index_in_range(profile_number, PROFILE_COUNT) ==> final(self).sent() == old(
                self,
            ).sent(),
            index_in_range(profile_number, PROFILE_COUNT) ==> final(self).sent() == old(
                self,
            ).sent().push((profile_wire(profile_number), r is Ok)),
            index_in_range(profile_number, PROFILE_COUNT) && r is Err ==> r matches Err(
                ModpadApiError::HidApiError(_),
            ),
    {
        match Profile::new(profile_number) {
            Ok(p) => {
                proof {
                    profile_report_law(profile_number, p);
                }
                self.send(Command::Profile(p))
            },
            Err(e) => Err(ModpadApiError::Validation(e)),
        }
    }

    /// Maps the key at `row`, `column` of profile `profile_number` to `key_code`; the
    /// first index outside its range is rejected and nothing is written.
    pub fn remap(&mut self, key_code: u16, profile_number: u8, row: u8, column: u8) -> (r:
        Result<(), ModpadApiError>)
        ensures
            mapping_violation(profile_number, row, column) is Some <==> r matches Err(
                ModpadApiError::Validation(_),
            ),
            r matches Err(ModpadApiError::Validation(e)) ==> mapping_violation(
                profile_number,
                row,
                column,
            ) == Some(e),
            mapping_violation(profile_number, row, column) is Some ==> final(self).sent() == old(
                self,
            ).sent(),
            mapping_violation(profile_number, row, column) is None ==> final(self).sent() == old(
                self,
            ).sent().push((mapping_wire(key_code, profile_number, row, column), r is Ok)),
            mapping_violation(profile_number, row, column) is None && r is Err ==> r matches Err(
                ModpadApiError::HidApiError(_),
            ),
    {
        match Mapping::new(key_code, profile_number, row, column) {
            Ok(m) => {
                proof {
                    mapping_report_law(key_code, profile_number, row, column, m);
                }
                self.send(Command::Mapping(m))
            },
            Err(e) => Err(ModpadApiError::Validation(e)),
        }
    }
}

} // verus!
