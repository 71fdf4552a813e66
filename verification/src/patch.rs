//! Writing bytes over existing code: which requests go to the engine, and
//! what the status that it reports means.

use crate::address::Address;
use crate::error::DobbyMemoryOperationError;
use vstd::prelude::*;

verus! {

/// The status with which the engine reports that the bytes were written.
///
/// Trusted: reads `dobby_sys::ffi::MemoryOperationError_kMemoryOperationSuccess`,
/// which that crate defines as 0.
#[verifier::external_body]
fn status_success() -> (code: u32)
    ensures
        code == 0,
{
    dobby_sys::ffi::MemoryOperationError_kMemoryOperationSuccess
}

/// The status with which the engine reports that the write itself failed.
///
/// Trusted: reads `dobby_sys::ffi::MemoryOperationError_kMemoryOperationError`,
/// which that crate defines as 1.
#[verifier::external_body]
fn status_error() -> (code: u32)
    ensures
        code == 1,
{
    dobby_sys::ffi::MemoryOperationError_kMemoryOperationError
}

/// The status with which the engine reports that it cannot get executable
/// memory.
///
/// Trusted: reads
/// `dobby_sys::ffi::MemoryOperationError_kNotSupportAllocateExecutableMemory`,
/// which that crate defines as 2.
#[verifier::external_body]
fn status_not_support_allocate_executable_memory() -> (code: u32)
    ensures
        code == 2,
{
    dobby_sys::ffi::MemoryOperationError_kNotSupportAllocateExecutableMemory
}

/// The status with which the engine reports that the bytes do not fit.
///
/// Trusted: reads `dobby_sys::ffi::MemoryOperationError_kNotEnough`, which
/// that crate defines as 3.
#[verifier::external_body]
fn status_not_enough() -> (code: u32)
    ensures
        code == 3,
{
    dobby_sys::ffi::MemoryOperationError_kNotEnough
}

/// The most bytes that one request can write at `addr`. The engine takes the
/// count as a 32-bit number, and the last byte written must still have an
/// address.
pub open spec fn window_limit(addr: Address) -> int {
    let to_end = usize::MAX - addr + 1;
    if to_end < u32::MAX {
        to_end
    } else {
        u32::MAX as int
    }
}

/// What a status reported by the engine means: 0 is success, 1 a failed write,
/// 2 that executable memory cannot be had, 3 that the bytes do not fit. Every
/// other status is a failure without a known reason.
pub open spec fn status_meaning(status: u32) -> Result<(), DobbyMemoryOperationError> {
    if status == 0 {
        Ok(())
    } else if status == 1 {
        Err(DobbyMemoryOperationError::MemoryOperationError)
    } else if status == 2 {
        Err(DobbyMemoryOperationError::NotSupportAllocateExecutableMemory)
    } else if status == 3 {
        Err(DobbyMemoryOperationError::NotEnough)
    } else {
        Err(DobbyMemoryOperationError::Unknown)
    }
}

/// How a patch of `len` bytes at `addr` ends when the engine reports `status`.
/// Bytes beyond the window at `addr` are refused whatever the status says.
pub open spec fn patch_outcome(addr: Address, len: nat, status: u32) -> Result<
    (),
    DobbyMemoryOperationError,
> {
    if len > window_limit(addr) {
        Err(DobbyMemoryOperationError::NotEnough)
    } else {
        status_meaning(status)
    }
}

/// Tells whether `len` bytes fit into the window at `addr`.
fn fits_window(addr: Address, len: usize) -> (fits: bool)
    ensures
        fits == (len <= window_limit(addr)),
{
    len <= u32::MAX as usize && (len == 0 || len - 1 <= usize::MAX - addr)
}

/// Decides whether the engine may be asked to write `code` at `addr`.
///
/// `Ok` carries the byte count to hand to the engine. `Err` means that the
/// engine must not be called: the bytes reach beyond the window at `addr`,
/// and writing a part of them would damage the code next to it.
pub fn patch_request(addr: Address, code: &[u8]) -> (r: Result<u32, DobbyMemoryOperationError>)
    ensures
        code@.len() <= window_limit(addr) ==> r == Ok::<u32, DobbyMemoryOperationError>(
            code@.len() as u32,
        ),
        code@.len() > window_limit(addr) ==> r == Err::<u32, DobbyMemoryOperationError>(
            DobbyMemoryOperationError::NotEnough,
        ),
{
    if fits_window(addr, code.len()) {
        Ok(code.len() as u32)
    } else {
        Err(DobbyMemoryOperationError::NotEnough)
    }
}

/// Completes a patch of `code` at `addr`, for which the engine reported
/// `status`.
pub fn patch_code(addr: Address, code: &[u8], status: u32) -> (r: Result<
    (),
    DobbyMemoryOperationError,
>)
    ensures
        r == patch_outcome(addr, code@.len(), status),
        code@.len() > window_limit(addr) ==> r == Err::<(), DobbyMemoryOperationError>(
            DobbyMemoryOperationError::NotEnough,
        ),
        r is Ok <==> code@.len() <= window_limit(addr) && status == 0,
{
    if !fits_window(addr, code.len()) {
        Err(DobbyMemoryOperationError::NotEnough)
    } else if status == status_success() {
        Ok(())
    } else if status == status_error() {
        Err(DobbyMemoryOperationError::MemoryOperationError)
    } else if status == status_not_enough() {
        Err(DobbyMemoryOperationError::NotEnough)
    } else if status == status_not_support_allocate_executable_memory() {
        Err(DobbyMemoryOperationError::NotSupportAllocateExecutableMemory)
    } else {
        Err(DobbyMemoryOperationError::Unknown)
    }
}

} // verus!
