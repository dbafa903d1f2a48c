//! Instance identities and the guard that selects an instance for the span
//! of one operation and restores the previous selection afterwards.

use vstd::prelude::*;

verus! {

/// A stable identity for one of the engine's instances. The engine's own
/// ordinals shift when an instance is freed, so identities are assigned
/// once, when an instance is made, and never reused.
#[derive(Clone, Copy, Debug, PartialEq, Eq, Structural)]
pub struct InstanceId {
    pub number: i32,
}

/// What a guard does to the thread's selection when it is released.
#[derive(Clone, Copy, Debug, PartialEq, Eq, Structural)]
pub enum Restore {
    /// The target was already current: nothing was switched, nothing is restored.
    Nothing,
    /// The given instance was current before the switch and is selected again.
    Previous(InstanceId),
    /// No instance was current before the switch; the default instance,
    /// the only one that is always valid, is selected.
    Default,
}

/// The record that a guarded operation keeps of the selection it replaced.
///
/// A guard is made by [`ActiveInstanceGuard::acquire`] when an operation
/// starts and consumed by [`ActiveInstanceGuard::release`] when it ends.
/// Each guard holds its own record, so guards nest without a shared depth.
#[derive(Debug)]
pub struct ActiveInstanceGuard {
    restore: Restore,
}

/// The record that acquiring a guard for `target` keeps, when `current` is
/// the thread's selection at that moment.
pub open spec fn restore_for(current: Option<InstanceId>, target: InstanceId) -> Restore {
    match current {
        Some(c) => if c == target {
            Restore::Nothing
        } else {
            Restore::Previous(c)
        },
        None => Restore::Default,
    }
}

/// The thread's selection after a guard with record `restore` is released,
/// when the selection just before the release is `selection`.
pub open spec fn selection_after_release(
    restore: Restore,
    default: InstanceId,
    selection: Option<InstanceId>,
) -> Option<InstanceId> {
    match restore {
        Restore::Nothing => selection,
        Restore::Previous(p) => Some(p),
        Restore::Default => Some(default),
    }
}

/// A guarded operation: it acquires a guard for `target`, makes the guarded
/// operations in `inner` one after the other, then releases its guard.
pub struct GuardedCall {
    pub target: InstanceId,
    pub inner: Seq<GuardedCall>,
}

/// The thread's selection after the guarded operation `call` has run,
/// starting from `selection`.
pub open spec fn call_selection(
    selection: Option<InstanceId>,
    call: GuardedCall,
    default: InstanceId,
) -> Option<InstanceId>
    decreases call, 0int,
{
    let inside = calls_selection(Some(call.target), call.inner, 0, default);
    selection_after_release(restore_for(selection, call.target), default, inside)
}

/// The thread's selection after `calls[from..]` have run one after the
/// other, starting from `selection`.
pub open spec fn calls_selection(
    selection: Option<InstanceId>,
    calls: Seq<GuardedCall>,
    from: int,
    default: InstanceId,
) -> Option<InstanceId>
    decreases calls, calls.len() - from,
{
    if 0 <= from < calls.len() {
        let after = call_selection(selection, calls[from], default);
        calls_selection(after, calls, from + 1, default)
    } else {
        selection
    }
}

impl ActiveInstanceGuard {
    pub closed spec fn restore_spec(&self) -> Restore {
        self.restore
    }

    /// Starts a guarded operation on `target`, given the thread's `current`
    /// selection as the engine reports it.
    ///
    /// Returns the guard and the instance that must now be made current:
    /// `None` when `target` is current already, so that nothing is switched.
    /// After the switch the selection is `Some(target)` in either case.
    pub fn acquire(current: Option<InstanceId>, target: InstanceId) -> (r: (
        ActiveInstanceGuard,
        Option<InstanceId>,
    ))
        ensures
            r.0.restore_spec() == restore_for(current, target),
            r.1 == (if current == Some(target) {
                None::<InstanceId>
            } else {
                Some(target)
            }),
            match r.1 {
                Some(i) => Some(i),
                None => current,
            } == Some(target),
    {
        match current {
            Some(c) => {
                if c.number == target.number {
                    (ActiveInstanceGuard { restore: Restore::Nothing }, None)
                } else {
                    (ActiveInstanceGuard { restore: Restore::Previous(c) }, Some(target))
                }
            },
            None => (ActiveInstanceGuard { restore: Restore::Default }, Some(target)),
        }
    }

    /// Ends a guarded operation. Returns the instance that must now be made
    /// current, or `None` when the selection is to be left as it is.
    pub fn release(self, default: InstanceId) -> (r: Option<InstanceId>)
        ensures
            r == (match self.restore_spec() {
                Restore::Nothing => None::<InstanceId>,
                Restore::Previous(p) => Some(p),
                Restore::Default => Some(default),
            }),
            forall|s: Option<InstanceId>|
                #[trigger] selection_after_release(self.restore_spec(), default, s) == match r {
                    Some(i) => Some(i),
                    None => s,
                },
    {
        match self.restore {
            Restore::Nothing => None,
            Restore::Previous(p) => Some(p),
            Restore::Default => Some(default),
        }
    }

    /// The record this guard keeps.
    pub fn restore(&self) -> (r: Restore)
        ensures
            r == self.restore_spec(),
    {
        self.restore
    }
}

/// Guard restoration for any nesting: however guarded operations call one
/// another, in sequence or inside each other, once the outermost guard is
/// released the thread's current instance is the one that was current
/// before the outermost acquisition.
pub proof fn lemma_guarded_call_restores(current: InstanceId, call: GuardedCall, default: InstanceId)
    ensures
        call_selection(Some(current), call, default) == Some(current),
    decreases call, 0int,
{
    lemma_guarded_calls_restore(call.target, call.inner, 0, default);
}

/// A run of guarded operations leaves the thread's selection as it found it.
pub proof fn lemma_guarded_calls_restore(
    current: InstanceId,
    calls: Seq<GuardedCall>,
    from: int,
    default: InstanceId,
)
    ensures
        calls_selection(Some(current), calls, from, default) == Some(current),
    decreases calls, calls.len() - from,
{
    if 0 <= from < calls.len() {
        lemma_guarded_call_restores(current, calls[from], default);
        lemma_guarded_calls_restore(current, calls, from + 1, default);
    }
}

/// Default fallback: when no instance is current on the thread, a guarded
/// operation, whatever it nests, leaves the default instance current.
pub proof fn lemma_default_fallback(call: GuardedCall, default: InstanceId)
    ensures
        call_selection(None, call, default) == Some(default),
{
    lemma_guarded_calls_restore(call.target, call.inner, 0, default);
}

} // verus!
