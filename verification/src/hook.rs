//! Installing and removing hooks, as a caller of the library sees it.

use crate::address::{Address, NULL_ADDRESS};
use crate::error::DobbyHookError;
use crate::registry::{
    after_install,
    after_remove,
    install_result,
    is_active,
    remove_result,
    HookRegistry,
    HookReply,
};
use vstd::prelude::*;

verus! {

/// Completes a hook at `addr` that sends its calls to `replace`, for which
/// the engine answered `reply`, and writes the trampoline to `origin`.
///
/// On success `addr` is active in `registry` and `origin` holds the
/// trampoline. On failure `origin` keeps what it held and `registry` stays as
/// it was: a target that is active already gets `AlreadyHooked` and keeps its
/// hook, and a failure of the engine comes back as `HookError`.
pub fn hook_and_update_origin(
    registry: &mut HookRegistry,
    addr: Address,
    replace: Address,
    reply: HookReply,
    origin: &mut Address,
) -> (r: Result<(), DobbyHookError>)
    ensures
        r is Ok <==> !is_active(old(registry)@, addr) && reply.status == 0,
        r matches Err(error) ==> install_result(old(registry)@, addr, reply) == Err::<
            Address,
            DobbyHookError,
        >(error),
        final(registry)@ == after_install(old(registry)@, addr, replace, reply),
        r is Ok ==> *final(origin) == reply.origin,
        r is Err ==> *final(origin) == *old(origin) && final(registry)@ == old(registry)@,
{
    match registry.install(addr, replace, reply) {
        Ok(trampoline) => {
            *origin = trampoline;
            Ok(())
        },
        Err(error) => Err(error),
    }
}

/// Completes a hook at `addr` that sends its calls to `replace`, for which
/// the engine answered `reply`, and returns the trampoline through which the
/// code of `addr` can still be run.
///
/// A target that is active already gets `AlreadyHooked` and keeps its hook.
/// A failure of the engine comes back as `HookError` and leaves no entry
/// behind.
pub fn hook(registry: &mut HookRegistry, addr: Address, replace: Address, reply: HookReply) -> (r:
    Result<Address, DobbyHookError>)
    ensures
        r == install_result(old(registry)@, addr, reply),
        final(registry)@ == after_install(old(registry)@, addr, replace, reply),
        is_active(old(registry)@, addr) ==> r == Err::<Address, DobbyHookError>(
            DobbyHookError::AlreadyHooked,
        ) && final(registry)@ == old(registry)@,
        r is Err ==> final(registry)@ == old(registry)@,
        r is Ok ==> is_active(final(registry)@, addr) && final(registry)@[addr].replacement
            == replace,
{
    let mut origin: Address = NULL_ADDRESS;
    match hook_and_update_origin(registry, addr, replace, reply, &mut origin) {
        Ok(()) => Ok(origin),
        Err(error) => Err(error),
    }
}

/// Completes the removal of the hook at `addr`, for which the engine
/// reported `status`.
///
/// A target without an active hook gets `NotHooked`, and a failure of the
/// engine comes back as `HookError`: either way `registry` stays as it was.
pub fn unhook(registry: &mut HookRegistry, addr: Address, status: i32) -> (r: Result<
    (),
    DobbyHookError,
>)
    ensures
        r == remove_result(old(registry)@, addr, status),
        final(registry)@ == after_remove(old(registry)@, addr, status),
        !is_active(old(registry)@, addr) ==> r == Err::<(), DobbyHookError>(
            DobbyHookError::NotHooked,
        ) && final(registry)@ == old(registry)@,
        r is Err ==> final(registry)@ == old(registry)@,
        r is Ok ==> !is_active(final(registry)@, addr),
{
    registry.remove(addr, status)
}

} // verus!
