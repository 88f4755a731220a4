//! Errors of the macropad interface.
use vstd::prelude::*;
use hidapi::HidError;
use crate::command::ValidationError;

verus! {

/// Declares hidapi's error type so that it can be carried through.
#[verifier::external_type_specification]
#[verifier::external_body]
pub struct ExHidError(HidError);

/// Why an operation on the macropad failed.
#[derive(Debug)]
pub enum ModpadApiError {
    /// The HID layer failed to enumerate, open or write.
    HidApiError(HidError),
    /// No attached HID device has the macropad's vendor id, product id and usage page.
    ModpadNotFound,
    /// A command argument lies outside its range.
    Validation(ValidationError),
}

} // verus!
