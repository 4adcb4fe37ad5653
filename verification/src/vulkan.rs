//! The outside types that the library carries through.
//!
//! Each declaration makes one type of `ash` or `raw-window-handle` known to the
//! verifier as an opaque value: the library stores such values, hands them on
//! and compares them, and never looks inside one. Of a status code alone it
//! reads the raw value, to tell a chain that is out of date from a failure.
//!
//! Driver objects themselves are held by their raw handles, the 64-bit values
//! that `ash::vk::Handle::as_raw` gives and `from_raw` takes.

use vstd::prelude::*;

verus! {

/// `ash::vk::Result`: the status code of a driver call.
#[verifier::external_type_specification]
#[verifier::external_body]
pub struct ExResult(ash::vk::Result);

/// The raw value of a status code: what `ash::vk::Result::as_raw` gives for it.
pub uninterp spec fn raw_code(code: ash::vk::Result) -> i32;

/// The raw value of a status code, by `ash::vk::Result::as_raw`. Trusted: that
/// it depends on the code alone.
#[verifier::external_body]
pub(crate) fn status_code(code: ash::vk::Result) -> (raw: i32)
    ensures
        raw == raw_code(code),
{
    code.as_raw()
}

/// `ash::LoadingError`: why the driver could not be loaded.
#[verifier::external_type_specification]
#[verifier::external_body]
pub struct ExLoadingError(ash::LoadingError);

/// `raw_window_handle::HandleError`: why a window gave no native handle.
#[verifier::external_type_specification]
#[verifier::external_body]
pub struct ExHandleError(raw_window_handle::HandleError);

} // verus!
