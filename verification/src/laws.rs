//! What holds of the table of hooks over whole runs of operations.

use crate::address::Address;
use crate::registry::{
    after_install,
    after_remove,
    install_result,
    is_active,
    remove_result,
    HookEntry,
    HookReply,
};
use vstd::prelude::*;

verus! {

/// One completed operation on the table of hooks, with the engine's answer.
pub enum HookOp {
    /// A hook at `target` that sends its calls to `replacement`.
    Install { target: Address, replacement: Address, reply: HookReply },
    /// The removal of the hook at `target`.
    Remove { target: Address, status: i32 },
}

/// The table after one operation.
pub open spec fn step(hooks: Map<Address, HookEntry>, op: HookOp) -> Map<Address, HookEntry> {
    match op {
        HookOp::Install { target, replacement, reply } => after_install(
            hooks,
            target,
            replacement,
            reply,
        ),
        HookOp::Remove { target, status } => after_remove(hooks, target, status),
    }
}

/// The table after the operations `ops`, done in their order.
pub open spec fn run(hooks: Map<Address, HookEntry>, ops: Seq<HookOp>) -> Map<Address, HookEntry>
    decreases ops.len(),
{
    if ops.len() == 0 {
        hooks
    } else {
        step(run(hooks, ops.drop_last()), ops.last())
    }
}

/// Holds when `op` is a removal at `target` that the engine carried out.
pub open spec fn takes_out(op: HookOp, target: Address) -> bool {
    op matches HookOp::Remove { target: removed, status } && removed == target && status == 0
}

/// A hook stays in place until it is removed: after a hook was installed at
/// `target`, whatever is installed or removed afterwards, at this target or
/// at others, the target is active and sends its calls to the same
/// replacement, with the same trampoline, as long as none of these operations
/// is a removal at `target` that the engine carried out.
pub proof fn lemma_hook_stays_until_removed(
    hooks: Map<Address, HookEntry>,
    target: Address,
    replacement: Address,
    reply: HookReply,
    ops: Seq<HookOp>,
)
    requires
        install_result(hooks, target, reply) is Ok,
        forall|i: int| 0 <= i < ops.len() ==> !takes_out(#[trigger] ops[i], target),
    ensures
        is_active(run(after_install(hooks, target, replacement, reply), ops), target),
        run(after_install(hooks, target, replacement, reply), ops)[target] == (HookEntry {
            target,
            replacement,
            trampoline: reply.origin,
            state: crate::registry::HookState::Active,
        }),
    decreases ops.len(),
{
    if ops.len() > 0 {
        let before = ops.drop_last();
        assert forall|i: int| 0 <= i < before.len() implies !takes_out(
            #[trigger] before[i],
            target,
        ) by {
            assert(before[i] == ops[i]);
        }
        lemma_hook_stays_until_removed(hooks, target, replacement, reply, before);
        assert(!takes_out(ops.last(), target));
    }
}

/// A removal undoes the hook and nothing else: after a hook was installed at
/// `target` and removed again, the target is not active, every other target
/// has the entry that it had before, and exactly the targets that were
/// active before are active.
pub proof fn lemma_remove_undoes_install(
    hooks: Map<Address, HookEntry>,
    target: Address,
    replacement: Address,
    reply: HookReply,
)
    requires
        install_result(hooks, target, reply) is Ok,
    ensures
        remove_result(after_install(hooks, target, replacement, reply), target, 0) is Ok,
        ({
            let restored = after_remove(
                after_install(hooks, target, replacement, reply),
                target,
                0,
            );
            &&& !is_active(restored, target)
            &&& forall|other: Address|
                other != target ==> restored.dom().contains(other) == hooks.dom().contains(other)
                    && restored[other] == hooks[other]
            &&& forall|any: Address| is_active(restored, any) == is_active(hooks, any)
        }),
{
}

/// A target whose hook was removed can be hooked again: the next installation
/// is not refused, and when the engine succeeds the target is active with the
/// new replacement and the new trampoline.
pub proof fn lemma_removed_target_can_be_hooked_again(
    hooks: Map<Address, HookEntry>,
    target: Address,
    status: i32,
    replacement: Address,
    reply: HookReply,
)
    requires
        remove_result(hooks, target, status) is Ok,
    ensures
        install_result(after_remove(hooks, target, status), target, reply) != Err::<
            Address,
            crate::error::DobbyHookError,
        >(crate::error::DobbyHookError::AlreadyHooked),
        reply.status == 0 ==> {
            let again = after_install(
                after_remove(hooks, target, status),
                target,
                replacement,
                reply,
            );
            &&& is_active(again, target)
            &&& again[target].replacement == replacement
            &&& again[target].trampoline == reply.origin
        },
{
}

} // verus!
