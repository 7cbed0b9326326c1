//! The rules of the `#[hook]` attribute, which makes a function hookable by giving it the C
//! ABI and forbidding its inlining.

use vstd::prelude::*;

verus! {

/// Why `#[hook]` refuses a function.
#[derive(Debug, Clone, Copy, PartialEq, Eq, Structural)]
pub enum HookAttrError {
    /// An `async fn` has no single machine-code body to hook.
    Async,
    /// A `const fn` may be evaluated at compile time instead of being called.
    Const,
    /// A generic function has one body per instantiation.
    Generic,
}

/// What `check_hookable` decides for a function with these properties: the first rule it
/// breaks, in the order async, const, generic.
pub open spec fn spec_check_hookable(is_async: bool, is_const: bool, is_generic: bool) -> Result<(), HookAttrError> {
    if is_async {
        Err(HookAttrError::Async)
    } else if is_const {
        Err(HookAttrError::Const)
    } else if is_generic {
        Err(HookAttrError::Generic)
    } else {
        Ok(())
    }
}

/// Decides whether `#[hook]` accepts a function that is `async`, `const` or has generic
/// parameters as given.
pub fn check_hookable(is_async: bool, is_const: bool, is_generic: bool) -> (r: Result<(), HookAttrError>)
    ensures
        r == spec_check_hookable(is_async, is_const, is_generic),
{
    if is_async {
        return Err(HookAttrError::Async);
    }
    if is_const {
        return Err(HookAttrError::Const);
    }
    if is_generic {
        return Err(HookAttrError::Generic);
    }
    Ok(())
}

impl HookAttrError {
    /// The compile error that `#[hook]` reports.
    pub fn message(&self) -> (r: &'static str)
        ensures
            r@ == match *self {
                HookAttrError::Async => "#[hook] cannot be applied to async functions"@,
                HookAttrError::Const => "#[hook] cannot be applied to const functions"@,
                HookAttrError::Generic => "#[hook] cannot be applied to generic functions"@,
            },
    {
        match self {
            HookAttrError::Async => "#[hook] cannot be applied to async functions",
            HookAttrError::Const => "#[hook] cannot be applied to const functions",
            HookAttrError::Generic => "#[hook] cannot be applied to generic functions",
        }
    }
}

} // verus!
