//! The capability protocols a class variant may implement.
//!
//! Each optional native behaviour -- being callable, acting as a
//! descriptor, being hashable, supporting rich comparison -- is an
//! independently implementable trait, not a class hierarchy.  A negative
//! marker, [`Unhashable`], opts a variant out of hashing entirely and
//! overrides any positive implementation it would otherwise get.

use vstd::prelude::*;

use crate::cmp_op::{PyComparisonOp, PyComparisonValue};
use crate::object::{is_identical, FuncArgs, OptionalArg, PyHash, PyObjectRef, VmError, VmErrorKind};
use crate::vm::VmContext;

verus! {

/// The call protocol: a variant implementing this capability can be run as
/// a callable.
pub trait SlotCall<V: VmContext> {
    /// Runs the object as a callable with the given arguments.  The
    /// behaviour is the implementing variant's own; nothing is promised of
    /// the outcome.
    fn call(&self, args: FuncArgs, vm: &mut V) -> Result<PyObjectRef, VmError>;
}

/// The descriptor protocol: a variant implementing this capability can
/// customize attribute access when found as a class-level attribute.
pub trait SlotDescriptor<V: VmContext> {
    /// The descriptor-get hook: binds the descriptor `zelf` to the owning
    /// instance and class, either of which may be absent.  The behaviour is
    /// the implementing variant's own; nothing is promised of the outcome.
    fn descr_get(
        vm: &mut V,
        zelf: PyObjectRef,
        obj: Option<PyObjectRef>,
        cls: OptionalArg<PyObjectRef>,
    ) -> Result<PyObjectRef, VmError>;

    /// The convenience entry point: an explicit owner is handed to the
    /// hook as a present one.
    fn get(zelf: PyObjectRef, obj: PyObjectRef, cls: OptionalArg<PyObjectRef>, vm: &mut V) -> Result<
        PyObjectRef,
        VmError,
    > {
        Self::descr_get(vm, zelf, Some(obj), cls)
    }

    /// Coerces an absent owning instance to the explicit "none" object,
    /// for hook implementations that always want a concrete second
    /// argument.
    fn unwrap_owner(zelf: PyObjectRef, obj: Option<PyObjectRef>, vm: &V) -> (r: (
        PyObjectRef,
        PyObjectRef,
    ))
        ensures
            r.0 == zelf,
            r.1 == match obj {
                Some(o) => o,
                None => vm.none_spec(),
            },
    {
        let o = vm.unwrap_or_none(obj);
        (zelf, o)
    }

    /// The "descriptor accessed through the class itself" branch: with an
    /// owning instance present the pair goes forward to the hook; with no
    /// owning instance the hook must be skipped and the descriptor itself
    /// handed back unchanged, as the early-return value.  Whether the
    /// owning instance's type matches the descriptor's declared type is
    /// deliberately not checked here: the check is permissive by design.
    fn check_owner(zelf: PyObjectRef, obj: Option<PyObjectRef>) -> (r: Result<
        (PyObjectRef, PyObjectRef),
        Result<PyObjectRef, VmError>,
    >)
        ensures
            r == match obj {
                Some(o) => Ok::<(PyObjectRef, PyObjectRef), Result<PyObjectRef, VmError>>(
                    (zelf, o),
                ),
                None => Err(Ok(zelf)),
            },
    {
        match obj {
            Some(o) => Ok((zelf, o)),
            None => Err(Ok(zelf)),
        }
    }

    /// Whether the optional owning class is exactly the given object.
    fn cls_is(cls: &OptionalArg<PyObjectRef>, other: &PyObjectRef) -> (r: bool)
        ensures
            r == match *cls {
                OptionalArg::Present(c) => c.id == other.id,
                OptionalArg::Missing => false,
            },
    {
        match cls {
            OptionalArg::Present(c) => is_identical(c, other),
            OptionalArg::Missing => false,
        }
    }
}

/// The hash protocol: a variant implementing this capability can produce
/// an integer hash of itself.
pub trait Hashable<V: VmContext> {
    /// Produces this object's hash value.  The behaviour is the
    /// implementing variant's own; nothing is promised of the outcome.
    fn hash(&self, vm: &mut V) -> Result<PyHash, VmError>;
}

/// The negative marker capability: a variant marked unhashable opts out of
/// hashing entirely and automatically receives a `hash` that always fails
/// with the fixed type error, independent of any other logic.
pub trait Unhashable {

}

impl<V: VmContext, T: Unhashable> Hashable<V> for T {
    /// Opting out of hashing always fails with the fixed type error.
    fn hash(&self, _vm: &mut V) -> (r: Result<PyHash, VmError>)
        ensures
            (r matches Err(e) && e.kind == VmErrorKind::TypeError && e.message@
                == "unhashable type"@),
    {
        Err(VmError::type_error("unhashable type".to_owned()))
    }
}

/// Law: hashing any variant marked unhashable fails with the fixed type
/// error, whatever the variant and whatever the context.
pub fn hash_of_unhashable<V: VmContext, T: Unhashable>(x: &T, vm: &mut V) -> (r: Result<
    PyHash,
    VmError,
>)
    ensures
        (r matches Err(e) && e.kind == VmErrorKind::TypeError && e.message@
            == "unhashable type"@),
{
    x.hash(vm)
}

/// The rich-comparison protocol: a variant implementing this capability
/// answers the six comparison operators, or declines.
pub trait Comparable<V: VmContext> {
    /// Compares `self` against `other` under `op`: a definite boolean, a
    /// declined `NotImplemented`, or an error from user code.  The
    /// behaviour is the implementing variant's own; nothing is promised of
    /// the outcome.
    fn cmp(&self, other: &PyObjectRef, op: PyComparisonOp, vm: &mut V) -> Result<
        PyComparisonValue,
        VmError,
    >;

    /// Compares for equality: delegates to `cmp` with `Eq`.
    fn eq(&self, other: &PyObjectRef, vm: &mut V) -> Result<PyComparisonValue, VmError> {
        self.cmp(other, PyComparisonOp::Eq, vm)
    }

    /// Compares for inequality: delegates to `cmp` with `Ne`.
    fn ne(&self, other: &PyObjectRef, vm: &mut V) -> Result<PyComparisonValue, VmError> {
        self.cmp(other, PyComparisonOp::Ne, vm)
    }

    /// Compares for strict order below: delegates to `cmp` with `Lt`.
    fn lt(&self, other: &PyObjectRef, vm: &mut V) -> Result<PyComparisonValue, VmError> {
        self.cmp(other, PyComparisonOp::Lt, vm)
    }

    /// Compares for order below-or-equal: delegates to `cmp` with `Le`.
    fn le(&self, other: &PyObjectRef, vm: &mut V) -> Result<PyComparisonValue, VmError> {
        self.cmp(other, PyComparisonOp::Le, vm)
    }

    /// Compares for order above-or-equal: delegates to `cmp` with `Ge`.
    fn ge(&self, other: &PyObjectRef, vm: &mut V) -> Result<PyComparisonValue, VmError> {
        self.cmp(other, PyComparisonOp::Ge, vm)
    }

    /// Compares for strict order above: delegates to `cmp` with `Gt`.
    fn gt(&self, other: &PyObjectRef, vm: &mut V) -> Result<PyComparisonValue, VmError> {
        self.cmp(other, PyComparisonOp::Gt, vm)
    }
}

} // verus!
