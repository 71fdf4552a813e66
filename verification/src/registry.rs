//! The table of hooks: which targets are hooked, with what, and the rules by
//! which a target moves from unhooked to active to removed and back to active.

use crate::address::Address;
use crate::error::DobbyHookError;
use vstd::prelude::*;

verus! {

/// Where a target that the table knows stands.
#[derive(Debug, Clone, Copy, PartialEq, Eq, Structural)]
pub enum HookState {
    /// The takeover branch is in place at the target.
    Active,
    /// The hook was taken out again. The entry is kept as a record.
    Removed,
}

/// What the table keeps about one target.
#[derive(Debug, Clone, Copy, PartialEq, Eq, Structural)]
pub struct HookEntry {
    /// The address whose code was patched.
    pub target: Address,
    /// The code that runs in place of the target while the hook is active.
    pub replacement: Address,
    /// The trampoline through which the target's own code can still be run.
    pub trampoline: Address,
    /// Whether the hook is in place.
    pub state: HookState,
}

/// What the engine answered when it was asked to install a hook.
#[derive(Debug, Clone, Copy, PartialEq, Eq, Structural)]
pub struct HookReply {
    /// Zero when the hook was installed, anything else when it was not.
    pub status: i32,
    /// The trampoline that the engine built. It means nothing unless `status`
    /// is zero.
    pub origin: Address,
}

/// Holds when `target` carries a hook that is in place.
pub open spec fn is_active(hooks: Map<Address, HookEntry>, target: Address) -> bool {
    hooks.dom().contains(target) && hooks[target].state == HookState::Active
}

/// How installing a hook at `target` ends, given the table before and the
/// engine's answer: a target with an active hook is refused, a failure of the
/// engine is passed on, and otherwise the caller gets the trampoline.
pub open spec fn install_result(
    hooks: Map<Address, HookEntry>,
    target: Address,
    reply: HookReply,
) -> Result<Address, DobbyHookError> {
    if is_active(hooks, target) {
        Err(DobbyHookError::AlreadyHooked)
    } else if reply.status != 0 {
        Err(DobbyHookError::HookError)
    } else {
        Ok(reply.origin)
    }
}

/// The table after installing a hook at `target`: on success `target` has a
/// fresh active entry, and nothing else has changed; on failure nothing has
/// changed at all.
pub open spec fn after_install(
    hooks: Map<Address, HookEntry>,
    target: Address,
    replacement: Address,
    reply: HookReply,
) -> Map<Address, HookEntry> {
    if install_result(hooks, target, reply) is Ok {
        hooks.insert(
            target,
            HookEntry { target, replacement, trampoline: reply.origin, state: HookState::Active },
        )
    } else {
        hooks
    }
}

/// How removing the hook at `target` ends, given the table before and the
/// status that the engine reported: a target without an active hook is
/// refused, and a failure of the engine is passed on.
pub open spec fn remove_result(hooks: Map<Address, HookEntry>, target: Address, status: i32) -> Result<
    (),
    DobbyHookError,
> {
    if !is_active(hooks, target) {
        Err(DobbyHookError::NotHooked)
    } else if status != 0 {
        Err(DobbyHookError::HookError)
    } else {
        Ok(())
    }
}

/// The table after removing the hook at `target`: on success the entry of
/// `target` is marked as removed, and nothing else has changed; on failure
/// nothing has changed at all.
pub open spec fn after_remove(hooks: Map<Address, HookEntry>, target: Address, status: i32) -> Map<
    Address,
    HookEntry,
> {
    if remove_result(hooks, target, status) is Ok {
        hooks.insert(target, HookEntry { state: HookState::Removed, ..hooks[target] })
    } else {
        hooks
    }
}

/// Holds when no two entries of `entries` speak of the same target.
spec fn distinct_targets(entries: Seq<HookEntry>) -> bool {
    forall|i: int, j: int|
        0 <= i < j < entries.len() ==> (#[trigger] entries[i]).target != (
        #[trigger] entries[j]).target
}

/// Holds when some entry of `entries` speaks of `target`.
spec fn mentions(entries: Seq<HookEntry>, target: Address) -> bool {
    exists|i: int| 0 <= i < entries.len() && (#[trigger] entries[i]).target == target
}

/// The entries as a table from each target to its entry.
spec fn table(entries: Seq<HookEntry>) -> Map<Address, HookEntry> {
    Map::new(
        |target: Address| mentions(entries, target),
        |target: Address|
            entries[choose|i: int|
                0 <= i < entries.len() && (#[trigger] entries[i]).target == target],
    )
}

/// Each entry is found in the table under its own target.
proof fn lemma_table_at(entries: Seq<HookEntry>, i: int)
    requires
        distinct_targets(entries),
        0 <= i < entries.len(),
    ensures
        table(entries).dom().contains(entries[i].target),
        table(entries)[entries[i].target] == entries[i],
{
    let target = entries[i].target;
    assert(mentions(entries, target));
    let j = choose|j: int| 0 <= j < entries.len() && (#[trigger] entries[j]).target == target;
    assert(j == i);
}

/// Appending an entry for a new target adds it to the table.
proof fn lemma_table_push(entries: Seq<HookEntry>, entry: HookEntry)
    requires
        distinct_targets(entries),
        !mentions(entries, entry.target),
    ensures
        distinct_targets(entries.push(entry)),
        table(entries.push(entry)) == table(entries).insert(entry.target, entry),
{
    let longer = entries.push(entry);
    let last = entries.len() as int;
    assert(longer[last] == entry);
    assert forall|i: int, j: int| 0 <= i < j < longer.len() implies (#[trigger] longer[i]).target
        != (#[trigger] longer[j]).target by {
        assert(longer[i] == entries[i]);
        if j < last {
            assert(longer[j] == entries[j]);
        }
    }
    let wanted = table(entries).insert(entry.target, entry);
    assert forall|target: Address| #[trigger]
        table(longer).dom().contains(target) == wanted.dom().contains(target) by {
        if mentions(longer, target) {
            let i = choose|i: int| 0 <= i < longer.len() && (#[trigger] longer[i]).target == target;
            if i < last {
                assert(entries[i].target == target);
            }
        }
        if mentions(entries, target) {
            let i = choose|i: int|
                0 <= i < entries.len() && (#[trigger] entries[i]).target == target;
            assert(longer[i].target == target);
        }
    }
    assert(table(longer).dom() =~= wanted.dom());
    assert forall|target: Address| #[trigger] wanted.dom().contains(target) implies table(
        longer,
    )[target] == wanted[target] by {
        if target == entry.target {
            lemma_table_at(longer, last);
        } else {
            let i = choose|i: int|
                0 <= i < entries.len() && (#[trigger] entries[i]).target == target;
            assert(longer[i] == entries[i]);
            lemma_table_at(longer, i);
            lemma_table_at(entries, i);
        }
    }
    assert(table(longer) =~= wanted);
}

/// Writing a new entry over the one of the same target replaces it in the
/// table.
proof fn lemma_table_update(entries: Seq<HookEntry>, i: int, entry: HookEntry)
    requires
        distinct_targets(entries),
        0 <= i < entries.len(),
        entry.target == entries[i].target,
    ensures
        distinct_targets(entries.update(i, entry)),
        table(entries.update(i, entry)) == table(entries).insert(entry.target, entry),
{
    let changed = entries.update(i, entry);
    assert(changed[i] == entry);
    assert forall|a: int| 0 <= a < changed.len() implies (#[trigger] changed[a]).target
        == entries[a].target by {}
    assert forall|a: int, b: int| 0 <= a < b < changed.len() implies (#[trigger] changed[a]).target
        != (#[trigger] changed[b]).target by {
        assert(entries[a].target != entries[b].target);
    }
    let wanted = table(entries).insert(entry.target, entry);
    assert forall|target: Address| #[trigger]
        table(changed).dom().contains(target) == wanted.dom().contains(target) by {
        if mentions(changed, target) {
            let k = choose|k: int|
                0 <= k < changed.len() && (#[trigger] changed[k]).target == target;
            assert(entries[k].target == target);
        }
        if mentions(entries, target) {
            let k = choose|k: int|
                0 <= k < entries.len() && (#[trigger] entries[k]).target == target;
            assert(changed[k].target == target);
        }
    }
    assert(table(changed).dom() =~= wanted.dom());
    assert forall|target: Address| #[trigger] wanted.dom().contains(target) implies table(
        changed,
    )[target] == wanted[target] by {
        if target == entry.target {
            lemma_table_at(changed, i);
        } else {
            let k = choose|k: int|
                0 <= k < entries.len() && (#[trigger] entries[k]).target == target;
            assert(changed[k] == entries[k]);
            lemma_table_at(changed, k);
            lemma_table_at(entries, k);
        }
    }
    assert(table(changed) =~= wanted);
}

/// The hooks of one process.
///
/// The table holds at most one entry for each target, so a target never
/// carries two active hooks.
pub struct HookRegistry {
    entries: Vec<HookEntry>,
}

impl View for HookRegistry {
    type V = Map<Address, HookEntry>;

    /// The table from each target that was ever hooked to its entry.
    closed spec fn view(&self) -> Map<Address, HookEntry> {
        table(self.entries@)
    }
}

impl HookRegistry {
    #[verifier::type_invariant]
    spec fn well_formed(&self) -> bool {
        distinct_targets(self.entries@)
    }

    /// A table without hooks.
    pub fn new() -> (registry: Self)
        ensures
            registry@ == Map::<Address, HookEntry>::empty(),
    {
        let registry = HookRegistry { entries: Vec::new() };
        assert(registry@ =~= Map::<Address, HookEntry>::empty());
        registry
    }

    /// The place of the entry of `target`, if there is one.
    fn find(&self, target: Address) -> (place: Option<usize>)
        ensures
            place matches Some(i) ==> i < self.entries@.len() && self.entries@[i as int].target
                == target,
            place is None ==> !mentions(self.entries@, target),
    {
        let mut i: usize = 0;
        while i < self.entries.len()
            invariant
                i <= self.entries@.len(),
                forall|j: int| 0 <= j < i ==> (#[trigger] self.entries@[j]).target != target,
            decreases self.entries@.len() - i,
        {
            if self.entries[i].target == target {
                return Some(i);
            }
            i += 1;
        }
        None
    }

    /// What the table keeps about `target`: its entry, or `None` for a target
    /// that was never hooked.
    pub fn lookup(&self, target: Address) -> (entry: Option<HookEntry>)
        ensures
            self@.dom().contains(target) ==> entry == Some(self@[target]),
            !self@.dom().contains(target) ==> entry is None,
            entry matches Some(found) ==> found.target == target,
    {
        proof {
            use_type_invariant(self);
        }
        match self.find(target) {
            Some(i) => {
                proof {
                    lemma_table_at(self.entries@, i as int);
                }
                Some(self.entries[i])
            },
            None => None,
        }
    }

    /// Tells whether `target` carries a hook that is in place.
    pub fn is_active(&self, target: Address) -> (active: bool)
        ensures
            active == is_active(self@, target),
    {
        match self.lookup(target) {
            Some(entry) => entry.state == HookState::Active,
            None => false,
        }
    }

    /// Decides whether the engine may be asked to hook `target`.
    ///
    /// `Err` means that the engine must not be called: the target carries an
    /// active hook, which stays as it is.
    pub fn check_install(&self, target: Address) -> (r: Result<(), DobbyHookError>)
        ensures
            is_active(self@, target) ==> r == Err::<(), DobbyHookError>(
                DobbyHookError::AlreadyHooked,
            ),
            !is_active(self@, target) ==> r is Ok,
    {
        if self.is_active(target) {
            Err(DobbyHookError::AlreadyHooked)
        } else {
            Ok(())
        }
    }

    /// Decides whether the engine may be asked to take the hook out of
    /// `target`.
    ///
    /// `Err` means that the engine must not be called: the target carries no
    /// active hook, and no memory is to be written.
    pub fn check_remove(&self, target: Address) -> (r: Result<(), DobbyHookError>)
        ensures
            !is_active(self@, target) ==> r == Err::<(), DobbyHookError>(
                DobbyHookError::NotHooked,
            ),
            is_active(self@, target) ==> r is Ok,
    {
        if self.is_active(target) {
            Ok(())
        } else {
            Err(DobbyHookError::NotHooked)
        }
    }

    /// Completes the installation of a hook at `target` that sends its calls
    /// to `replacement`, for which the engine answered `reply`.
    ///
    /// On success the target is active and the caller gets the trampoline. A
    /// target that is active already is refused, and a failure of the engine
    /// is passed on: either way the table stays as it was, so the hook that
    /// was there is untouched and a failed attempt leaves no trace.
    pub fn install(&mut self, target: Address, replacement: Address, reply: HookReply) -> (r:
        Result<Address, DobbyHookError>)
        ensures
            r == install_result(old(self)@, target, reply),
            final(self)@ == after_install(old(self)@, target, replacement, reply),
            is_active(old(self)@, target) ==> r == Err::<Address, DobbyHookError>(
                DobbyHookError::AlreadyHooked,
            ) && final(self)@ == old(self)@,
            r is Err ==> final(self)@ == old(self)@,
            r is Ok ==> is_active(final(self)@, target),
    {
        proof {
            use_type_invariant(&*self);
        }
        let entry = HookEntry {
            target,
            replacement,
            trampoline: reply.origin,
            state: HookState::Active,
        };
        match self.find(target) {
            Some(i) => {
                proof {
                    lemma_table_at(self.entries@, i as int);
                }
                if self.entries[i].state == HookState::Active {
                    return Err(DobbyHookError::AlreadyHooked);
                }
                if reply.status != 0 {
                    return Err(DobbyHookError::HookError);
                }
                proof {
                    lemma_table_update(self.entries@, i as int, entry);
                }
                let mut entries: Vec<HookEntry> = Vec::new();
                std::mem::swap(&mut entries, &mut self.entries);
                entries.set(i, entry);
                self.entries = entries;
                Ok(reply.origin)
            },
            None => {
                if reply.status != 0 {
                    return Err(DobbyHookError::HookError);
                }
                proof {
                    lemma_table_push(self.entries@, entry);
                }
                let mut entries: Vec<HookEntry> = Vec::new();
                std::mem::swap(&mut entries, &mut self.entries);
                entries.push(entry);
                self.entries = entries;
                Ok(reply.origin)
            },
        }
    }

    /// Completes the removal of the hook at `target`, for which the engine
    /// reported `status`.
    ///
    /// On success the entry stays in the table, marked as removed. A target
    /// without an active hook is refused, and a failure of the engine is
    /// passed on: either way the table stays as it was.
    pub fn remove(&mut self, target: Address, status: i32) -> (r: Result<(), DobbyHookError>)
        ensures
            r == remove_result(old(self)@, target, status),
            final(self)@ == after_remove(old(self)@, target, status),
            !is_active(old(self)@, target) ==> r == Err::<(), DobbyHookError>(
                DobbyHookError::NotHooked,
            ) && final(self)@ == old(self)@,
            r is Err ==> final(self)@ == old(self)@,
            r is Ok ==> !is_active(final(self)@, target),
    {
        proof {
            use_type_invariant(&*self);
        }
        match self.find(target) {
            Some(i) => {
                proof {
                    lemma_table_at(self.entries@, i as int);
                }
                let entry = self.entries[i];
                if entry.state != HookState::Active {
                    return Err(DobbyHookError::NotHooked);
                }
                if status != 0 {
                    return Err(DobbyHookError::HookError);
                }
                let removed = HookEntry { state: HookState::Removed, ..entry };
                proof {
                    lemma_table_update(self.entries@, i as int, removed);
                }
                let mut entries: Vec<HookEntry> = Vec::new();
                std::mem::swap(&mut entries, &mut self.entries);
                entries.set(i, removed);
                self.entries = entries;
                Ok(())
            },
            None => Err(DobbyHookError::NotHooked),
        }
    }
}

} // verus!
