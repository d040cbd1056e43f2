//! What can go wrong while driving a virtual controller.

use vstd::prelude::*;
use crate::wire::i32_bits;

verus! {

/// The Win32 error code `ERROR_INVALID_PARAMETER`.
pub const ERROR_INVALID_PARAMETER: u32 = 87;

/// The Win32 error code `ERROR_IO_PENDING`.
pub const ERROR_IO_PENDING: u32 = 997;

/// The `HRESULT` that Windows reports for `ERROR_INVALID_PARAMETER`.
pub const HRESULT_INVALID_PARAMETER: i32 = -2147024809;

/// The `HRESULT` that Windows reports for `ERROR_IO_PENDING`.
pub const HRESULT_IO_PENDING: i32 = -2147023899;

/// The bits of the `HRESULT` that stands for Win32 error code `error`: a code
/// that is zero or negative as an `i32` stands for itself; any other keeps its
/// low sixteen bits under the Win32 facility (7) with the failure bit set.
pub open spec fn hresult_bits_from_win32(error: u32) -> u32 {
    if error == 0 || error >= 0x8000_0000 {
        error
    } else {
        (error & 0x0000_FFFF) | (7u32 << 16u32) | 0x8000_0000
    }
}

/// The two `HRESULT` constants are the ones that stand for their Win32 error codes.
pub proof fn lemma_hresult_constants()
    ensures
        i32_bits(HRESULT_INVALID_PARAMETER) == hresult_bits_from_win32(ERROR_INVALID_PARAMETER),
        i32_bits(HRESULT_IO_PENDING) == hresult_bits_from_win32(ERROR_IO_PENDING),
{
    assert((87u32 & 0x0000_FFFFu32) | (7u32 << 16u32) | 0x8000_0000u32 == 0x8007_0057u32)
        by (bit_vector);
    assert((997u32 & 0x0000_FFFFu32) | (7u32 << 16u32) | 0x8000_0000u32 == 0x8007_03E5u32)
        by (bit_vector);
}

/// Errors of the gamepad backend.
#[derive(Clone, Copy, Debug, PartialEq, Eq, Structural)]
pub enum Error {
    /// No bus device answered: the driver is not installed.
    BusNotFound,
    /// A bus device was found but refused the protocol version.
    VersionMismatch,
    /// The bus refused every serial number a controller could be plugged in with.
    NoFreeSlot,
    /// The controller is not plugged in.
    NotPluggedIn,
    /// A system call failed with this `HRESULT`.
    Win32(i32),
    /// The operating system refused a resource; the value is its error code.
    Io(i32),
}

impl Error {
    /// The fixed text of the errors the backend raises itself. Errors that come
    /// from the operating system have no fixed text: their text is the system's.
    pub fn message(&self) -> (r: Option<&'static str>)
        ensures
            self is BusNotFound ==> r is Some && r->0@ == "gamepad bus device not found (driver not installed)"@,
            self is VersionMismatch ==> r is Some && r->0@ == "gamepad bus driver API version mismatch"@,
            self is NoFreeSlot ==> r is Some && r->0@ == "no free virtual gamepad slot"@,
            self is NotPluggedIn ==> r is Some && r->0@ == "virtual gamepad is not plugged in"@,
            (self is Win32 || self is Io) <==> r is None,
    {
        match self {
            Error::BusNotFound => Some("gamepad bus device not found (driver not installed)"),
            Error::VersionMismatch => Some("gamepad bus driver API version mismatch"),
            Error::NoFreeSlot => Some("no free virtual gamepad slot"),
            Error::NotPluggedIn => Some("virtual gamepad is not plugged in"),
            Error::Win32(_) => None,
            Error::Io(_) => None,
        }
    }
}

} // verus!
