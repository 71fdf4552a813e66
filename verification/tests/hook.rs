use dobby_rs::{
    hook, hook_and_update_origin, unhook, Address, DobbyHookError, HookEntry, HookRegistry,
    HookReply, HookState,
};

fn add(a: u64, b: u64) -> u64 {
    a + b
}

fn sub(a: u64, b: u64) -> u64 {
    a - b
}

const ADD: Address = 0x1000;
const SUB: Address = 0x2000;
const TRAMPOLINE: Address = 0x3000;

/// Where a call of `addr` lands: at the replacement while a hook is active.
fn landing(registry: &HookRegistry, addr: Address) -> Address {
    match registry.lookup(addr) {
        Some(entry) if entry.state == HookState::Active => entry.replacement,
        _ => addr,
    }
}

/// Runs the code that a call of `addr` reaches. The trampoline stands for
/// the code of `add` as it was before the hook.
fn call(registry: &HookRegistry, addr: Address, a: u64, b: u64) -> u64 {
    match landing(registry, addr) {
        ADD | TRAMPOLINE => add(a, b),
        SUB => sub(a, b),
        other => panic!("no code at {:x}", other),
    }
}

fn installed(origin: Address) -> HookReply {
    HookReply { status: 0, origin }
}

#[test]
fn test_hook() {
    let mut registry = HookRegistry::new();
    let addr = ADD;
    let replace = SUB;

    let c = call(&registry, addr, 7, 5);
    assert_eq!(c, 7 + 5);

    println!("addr={:x} replace={:x}", addr, replace);
    let origin = hook(&mut registry, addr, replace, installed(TRAMPOLINE)).unwrap();
    println!("origin={:x}", origin);

    let c = call(&registry, origin, 2, 1);
    assert_eq!(c, 2 + 1);

    let c = call(&registry, addr, 7, 5);
    assert_eq!(c, 7 - 5);
}

#[test]
fn hook_then_unhook_restores_the_target() {
    let mut registry = HookRegistry::new();
    assert_eq!(call(&registry, ADD, 7, 5), 12);
    let origin = hook(&mut registry, ADD, SUB, installed(TRAMPOLINE)).unwrap();
    assert_eq!(call(&registry, ADD, 7, 5), 2);
    assert_eq!(call(&registry, origin, 2, 1), 3);
    assert_eq!(unhook(&mut registry, ADD, 0), Ok(()));
    assert_eq!(call(&registry, ADD, 7, 5), 12);
}

#[test]
fn hook_returns_the_trampoline_and_records_the_entry() {
    let mut registry = HookRegistry::new();
    assert_eq!(registry.lookup(ADD), None);
    assert!(!registry.is_active(ADD));
    assert_eq!(hook(&mut registry, ADD, SUB, installed(TRAMPOLINE)), Ok(TRAMPOLINE));
    assert!(registry.is_active(ADD));
    assert_eq!(
        registry.lookup(ADD),
        Some(HookEntry {
            target: ADD,
            replacement: SUB,
            trampoline: TRAMPOLINE,
            state: HookState::Active,
        })
    );
    assert_eq!(registry.lookup(SUB), None);
}

#[test]
fn hook_on_an_active_target_is_a_conflict() {
    let mut registry = HookRegistry::new();
    hook(&mut registry, ADD, SUB, installed(TRAMPOLINE)).unwrap();
    let before = registry.lookup(ADD);
    assert_eq!(registry.check_install(ADD), Err(DobbyHookError::AlreadyHooked));
    assert_eq!(
        hook(&mut registry, ADD, 0x2222, installed(0x4000)),
        Err(DobbyHookError::AlreadyHooked)
    );
    assert_eq!(registry.lookup(ADD), before);
    assert_eq!(call(&registry, ADD, 7, 5), 2);
}

#[test]
fn hook_that_the_engine_fails_leaves_no_entry() {
    let mut registry = HookRegistry::new();
    assert_eq!(registry.check_install(ADD), Ok(()));
    let reply = HookReply { status: -1, origin: TRAMPOLINE };
    assert_eq!(hook(&mut registry, ADD, SUB, reply), Err(DobbyHookError::HookError));
    assert_eq!(registry.lookup(ADD), None);
    assert!(!registry.is_active(ADD));
    assert_eq!(hook(&mut registry, ADD, SUB, installed(TRAMPOLINE)), Ok(TRAMPOLINE));
}

#[test]
fn unhook_without_a_hook_is_refused() {
    let mut registry = HookRegistry::new();
    assert_eq!(registry.check_remove(ADD), Err(DobbyHookError::NotHooked));
    assert_eq!(unhook(&mut registry, ADD, 0), Err(DobbyHookError::NotHooked));
    assert_eq!(registry.lookup(ADD), None);

    hook(&mut registry, ADD, SUB, installed(TRAMPOLINE)).unwrap();
    assert_eq!(registry.check_remove(ADD), Ok(()));
    assert_eq!(unhook(&mut registry, ADD, 0), Ok(()));
    assert_eq!(unhook(&mut registry, ADD, 0), Err(DobbyHookError::NotHooked));
    assert_eq!(registry.check_remove(ADD), Err(DobbyHookError::NotHooked));
}

#[test]
fn unhook_that_the_engine_fails_keeps_the_hook() {
    let mut registry = HookRegistry::new();
    hook(&mut registry, ADD, SUB, installed(TRAMPOLINE)).unwrap();
    let before = registry.lookup(ADD);
    assert_eq!(unhook(&mut registry, ADD, -1), Err(DobbyHookError::HookError));
    assert_eq!(registry.lookup(ADD), before);
    assert!(registry.is_active(ADD));
}

#[test]
fn removed_entry_is_kept_and_can_be_hooked_again() {
    let mut registry = HookRegistry::new();
    hook(&mut registry, ADD, SUB, installed(TRAMPOLINE)).unwrap();
    unhook(&mut registry, ADD, 0).unwrap();
    assert_eq!(
        registry.lookup(ADD),
        Some(HookEntry {
            target: ADD,
            replacement: SUB,
            trampoline: TRAMPOLINE,
            state: HookState::Removed,
        })
    );
    assert_eq!(registry.check_install(ADD), Ok(()));
    assert_eq!(hook(&mut registry, ADD, 0x2222, installed(0x4000)), Ok(0x4000));
    assert_eq!(
        registry.lookup(ADD),
        Some(HookEntry {
            target: ADD,
            replacement: 0x2222,
            trampoline: 0x4000,
            state: HookState::Active,
        })
    );
}

#[test]
fn hooks_on_two_targets_do_not_disturb_each_other() {
    let mut registry = HookRegistry::new();
    assert_eq!(hook(&mut registry, ADD, SUB, installed(TRAMPOLINE)), Ok(TRAMPOLINE));
    assert_eq!(hook(&mut registry, 0x5000, 0x6000, installed(0x7000)), Ok(0x7000));
    let first = registry.lookup(ADD);
    assert_eq!(unhook(&mut registry, 0x5000, 0), Ok(()));
    assert_eq!(registry.lookup(ADD), first);
    assert!(registry.is_active(ADD));
    assert!(!registry.is_active(0x5000));
    assert_eq!(
        hook(&mut registry, 0x5000, 0x6000, HookReply { status: 1, origin: 0 }),
        Err(DobbyHookError::HookError)
    );
    assert_eq!(registry.lookup(ADD), first);
}

#[test]
fn hook_and_update_origin_writes_the_slot_on_success_only() {
    let mut registry = HookRegistry::new();
    let mut origin: Address = 7;
    let failed = HookReply { status: -1, origin: TRAMPOLINE };
    assert_eq!(
        hook_and_update_origin(&mut registry, ADD, SUB, failed, &mut origin),
        Err(DobbyHookError::HookError)
    );
    assert_eq!(origin, 7);
    assert_eq!(
        hook_and_update_origin(&mut registry, ADD, SUB, installed(TRAMPOLINE), &mut origin),
        Ok(())
    );
    assert_eq!(origin, TRAMPOLINE);
    let mut second: Address = 9;
    assert_eq!(
        hook_and_update_origin(&mut registry, ADD, SUB, installed(0x4000), &mut second),
        Err(DobbyHookError::AlreadyHooked)
    );
    assert_eq!(second, 9);
    assert_eq!(registry.lookup(ADD).map(|entry| entry.trampoline), Some(TRAMPOLINE));
}

#[test]
fn hook_error_messages() {
    assert_eq!(DobbyHookError::HookError.message(), "hook error");
    assert_eq!(DobbyHookError::AlreadyHooked.message(), "already hooked");
    assert_eq!(DobbyHookError::NotHooked.message(), "not hooked");
}
