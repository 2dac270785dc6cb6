//! Values shared with the host platform, read from its binding crate.
//!
//! Each function below hands out one constant of `windows_sys`. Its contract
//! is believed, not proved: it repeats the value the binding crate defines.

use vstd::prelude::*;

verus! {

/// Loader notification: the module is being unloaded from the process.
pub const REASON_PROCESS_DETACH: u32 = 0;

/// Loader notification: the module has been loaded into the process.
pub const REASON_PROCESS_ATTACH: u32 = 1;

/// Loader notification: a thread is starting in the process.
pub const REASON_THREAD_ATTACH: u32 = 2;

/// Loader notification: a thread is ending in the process.
pub const REASON_THREAD_DETACH: u32 = 3;

/// The alphanumeric conversion mode.
pub const MODE_ALPHANUMERIC: u32 = 0;

/// The handle value that stands for "no handle".
pub const NO_HANDLE: isize = -1;

/// The platform's boolean "false".
pub const STATUS_FALSE: i32 = 0;

/// The platform's boolean "true".
pub const STATUS_TRUE: i32 = 1;

/// Error code: an object of that name already exists.
pub const CODE_ALREADY_EXISTS: u32 = 183;

/// Error code: the handle is not valid (any more).
pub const CODE_INVALID_HANDLE: u32 = 6;

/// Wait result: the awaited object was signalled.
pub const WAIT_SIGNALLED: u32 = 0;

/// `windows_sys::Win32::System::SystemServices::DLL_PROCESS_DETACH`, defined there as `0u32`.
#[verifier::external_body]
pub(crate) fn process_detach() -> (code: u32)
    ensures
        code == REASON_PROCESS_DETACH,
{
    windows_sys::Win32::System::SystemServices::DLL_PROCESS_DETACH
}

/// `windows_sys::Win32::System::SystemServices::DLL_PROCESS_ATTACH`, defined there as `1u32`.
#[verifier::external_body]
pub(crate) fn process_attach() -> (code: u32)
    ensures
        code == REASON_PROCESS_ATTACH,
{
    windows_sys::Win32::System::SystemServices::DLL_PROCESS_ATTACH
}

/// `windows_sys::Win32::System::SystemServices::DLL_THREAD_ATTACH`, defined there as `2u32`.
#[verifier::external_body]
pub(crate) fn thread_attach() -> (code: u32)
    ensures
        code == REASON_THREAD_ATTACH,
{
    windows_sys::Win32::System::SystemServices::DLL_THREAD_ATTACH
}

/// `windows_sys::Win32::System::SystemServices::DLL_THREAD_DETACH`, defined there as `3u32`.
#[verifier::external_body]
pub(crate) fn thread_detach() -> (code: u32)
    ensures
        code == REASON_THREAD_DETACH,
{
    windows_sys::Win32::System::SystemServices::DLL_THREAD_DETACH
}

/// `windows_sys::Win32::UI::Input::Ime::IME_CMODE_ALPHANUMERIC`, defined there as `0u32`.
#[verifier::external_body]
pub(crate) fn alphanumeric_mode() -> (mode: u32)
    ensures
        mode == MODE_ALPHANUMERIC,
{
    windows_sys::Win32::UI::Input::Ime::IME_CMODE_ALPHANUMERIC
}

/// `windows_sys::Win32::Foundation::INVALID_HANDLE_VALUE`, defined there as `-1`
/// in the handle type, which is `isize`.
#[verifier::external_body]
pub(crate) fn invalid_handle() -> (handle: isize)
    ensures
        handle == NO_HANDLE,
{
    windows_sys::Win32::Foundation::INVALID_HANDLE_VALUE
}

/// `windows_sys::Win32::Foundation::FALSE`, defined there as `0i32`.
#[verifier::external_body]
pub(crate) fn status_false() -> (status: i32)
    ensures
        status == STATUS_FALSE,
{
    windows_sys::Win32::Foundation::FALSE
}

/// `windows_sys::Win32::Foundation::TRUE`, defined there as `1i32`.
#[verifier::external_body]
pub(crate) fn status_true() -> (status: i32)
    ensures
        status == STATUS_TRUE,
{
    windows_sys::Win32::Foundation::TRUE
}

/// `windows_sys::Win32::Foundation::ERROR_ALREADY_EXISTS`, defined there as `183u32`.
#[verifier::external_body]
pub(crate) fn already_exists() -> (code: u32)
    ensures
        code == CODE_ALREADY_EXISTS,
{
    windows_sys::Win32::Foundation::ERROR_ALREADY_EXISTS
}

/// `windows_sys::Win32::Foundation::ERROR_INVALID_HANDLE`, defined there as `6u32`.
#[verifier::external_body]
pub(crate) fn invalid_handle_code() -> (code: u32)
    ensures
        code == CODE_INVALID_HANDLE,
{
    windows_sys::Win32::Foundation::ERROR_INVALID_HANDLE
}

/// `windows_sys::Win32::Foundation::WAIT_OBJECT_0`, defined there as `0u32`.
#[verifier::external_body]
pub(crate) fn wait_signalled() -> (code: u32)
    ensures
        code == WAIT_SIGNALLED,
{
    windows_sys::Win32::Foundation::WAIT_OBJECT_0
}

} // verus!
