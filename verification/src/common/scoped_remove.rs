//! Removing a hook for a while, e.g. to call the original function from within a hook handler.

use vstd::prelude::*;
use crate::error::HookError;

verus! {

/// Types that can be installed and removed as hooks.
///
/// This minimal interface lets `ScopedRemove` work with different hook types (inline hooks,
/// IAT hooks, vtable hooks, ...).
pub trait Hookable {
    /// Whether the hook is currently installed.
    spec fn is_hooked(&self) -> bool;

    /// Install the hook; once that succeeded, it is installed.
    fn install(&mut self) -> (r: Result<(), HookError>)
        ensures
            r is Ok ==> final(self).is_hooked(),
    ;

    /// Remove the hook; once that succeeded, it is no longer installed. Removing a hook that is
    /// not installed fails.
    fn remove(&mut self) -> (r: Result<(), HookError>)
        ensures
            r is Ok ==> !final(self).is_hooked(),
            !old(self).is_hooked() ==> r is Err,
    ;
}

/// Removes a hook on construction and reinstalls it when `restore` is called (the guard of
/// the application layer calls it when dropped).
pub struct ScopedRemove<'a, T: Hookable> {
    hook: &'a mut T,
    removed: bool,
}

impl<'a, T: Hookable> ScopedRemove<'a, T> {
    /// Whether the hook was removed when this guard was created.
    pub closed spec fn is_removed(&self) -> bool {
        self.removed
    }

    /// The hook this guard holds, as it currently is.
    pub closed spec fn held(&self) -> T {
        *self.hook
    }

    /// Removes `hook` (one call of its `remove`) and remembers whether that succeeded; a guard
    /// that removed its hook holds it uninstalled, and a hook that was not installed is not
    /// removed.
    pub fn new(hook: &'a mut T) -> (r: Self)
        ensures
            r.is_removed() ==> !r.held().is_hooked(),
            !old(hook).is_hooked() ==> !r.is_removed(),
            exists|call: &mut T, res: Result<(), HookError>|
                #![trigger call_ensures(T::remove, (call,), res)]
                call_ensures(T::remove, (call,), res) && mut_ref_current(call) == *old(hook)
                    && mut_ref_future(call) == r.held() && r.is_removed() == (res is Ok),
    {
        let removal = hook.remove();
        Self::from_removal(hook, removal)
    }

    /// The guard for `hook` whose removal had the outcome `removal`.
    pub fn from_removal(hook: &'a mut T, removal: Result<(), HookError>) -> (r: Self)
        ensures
            r.is_removed() == removal is Ok,
            r.held() == *old(hook),
    {
        ScopedRemove { hook, removed: removal.is_ok() }
    }

    /// Returns a shared reference to the inner hook.
    pub fn inner(&self) -> (r: &T)
        ensures
            *r == self.held(),
    {
        self.hook
    }

    /// Returns `true` if the hook was successfully removed when this guard was created.
    ///
    /// Returns `false` if the hook was not installed at construction time, in which case the
    /// guard is a no-op and nothing is reinstalled.
    pub fn removed(&self) -> (r: bool)
        ensures
            r == self.is_removed(),
    {
        self.removed
    }

    /// Ends the guard: reinstalls the hook if this guard removed it (one call of its `install`),
    /// and returns the outcome of that install; returns `None` when there was nothing to reinstall, and then leaves the hook
    /// as it is. Once the install succeeded, the hook is installed.
    pub fn restore(&mut self) -> (r: Option<Result<(), HookError>>)
        ensures
            r is Some <==> old(self).is_removed(),
            final(self).is_removed() == old(self).is_removed(),
            r matches Some(res) ==> (res is Ok ==> final(self).held().is_hooked()),
            r matches Some(res) ==> exists|call: &mut T|
                #![trigger call_ensures(T::install, (call,), res)]
                call_ensures(T::install, (call,), res) && mut_ref_current(call) == old(self).held()
                    && mut_ref_future(call) == final(self).held(),
            r is None ==> final(self).held() == old(self).held(),
    {
        if self.removed {
            Some(self.hook.install())
        } else {
            None
        }
    }
}

} // verus!
