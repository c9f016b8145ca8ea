//! The plain object model the dispatch core works over.
//!
//! The surrounding runtime owns the real object representation; the dispatch
//! core only needs an object's identity and the identity of its class, so an
//! object is carried here as a small handle of those two numbers.  Errors
//! raised while dispatching travel through [`VmError`], the single
//! error-result channel shared by every operation of the core.

use vstd::prelude::*;

verus! {

/// The integer type of an object hash value.
pub type PyHash = i64;

/// A handle to a runtime object: the identity of the object itself and of
/// the class it belongs to.  Two handles with the same `id` refer to the
/// same underlying instance.
#[derive(Clone, Copy, Debug, PartialEq, Eq, Structural)]
pub struct PyObjectRef {
    pub id: u64,
    pub class_id: u64,
}

/// Identity of runtime values: two values are identical exactly when their
/// ids coincide.
pub trait IdProtocol {
    /// The identity this value carries.
    spec fn id_spec(&self) -> u64;

    /// Returns the identity this value carries.
    fn get_id(&self) -> (r: u64)
        ensures
            r == self.id_spec(),
    ;
}

/// Relies on `str`'s `PartialEq`: two string slices compare equal exactly
/// when their character sequences are equal.
#[verifier::external_body]
pub(crate) fn str_eq(a: &str, b: &str) -> (r: bool)
    ensures
        r == (a@ == b@),
{
    a == b
}

/// True exactly when `a` and `b` are the same underlying object.
pub fn is_identical<A: IdProtocol, B: IdProtocol>(a: &A, b: &B) -> (r: bool)
    ensures
        r == (a.id_spec() == b.id_spec()),
{
    a.get_id() == b.get_id()
}

impl IdProtocol for PyObjectRef {
    open spec fn id_spec(&self) -> u64 {
        self.id
    }

    fn get_id(&self) -> u64 {
        self.id
    }
}

/// The kind of an error surfaced by the dispatch core or by runtime code it
/// invoked.  Callers distinguish "protocol failed" from "native operation
/// failed" only by this kind.
#[derive(Clone, Copy, Debug, PartialEq, Eq, Structural)]
pub enum VmErrorKind {
    /// An operation was applied to a value of an unsupported type.
    TypeError,
    /// A required attribute was not found on a class.
    AttributeError,
    /// A native (operating-system level) operation failed.
    OsError,
}

/// An error travelling through the dispatch core's result channel.
#[derive(Clone, Debug)]
pub struct VmError {
    pub kind: VmErrorKind,
    pub message: String,
}

impl VmError {
    /// Builds a type error with the given message.
    pub fn type_error(message: String) -> (r: Self)
        ensures
            r.kind == VmErrorKind::TypeError,
            r.message == message,
    {
        VmError { kind: VmErrorKind::TypeError, message }
    }

    /// Builds an attribute error with the given message.
    pub fn attribute_error(message: String) -> (r: Self)
        ensures
            r.kind == VmErrorKind::AttributeError,
            r.message == message,
    {
        VmError { kind: VmErrorKind::AttributeError, message }
    }

    /// Builds an operating-system error with the given message.
    pub fn os_error(message: String) -> (r: Self)
        ensures
            r.kind == VmErrorKind::OsError,
            r.message == message,
    {
        VmError { kind: VmErrorKind::OsError, message }
    }
}

/// The argument list handed to an invoked callable.
#[derive(Clone, Debug)]
pub struct FuncArgs {
    pub args: Vec<PyObjectRef>,
}

impl FuncArgs {
    /// An empty argument list.
    pub fn new() -> (r: Self)
        ensures
            r.args@ == Seq::<PyObjectRef>::empty(),
    {
        FuncArgs { args: Vec::new() }
    }

    /// Puts `item` in front of the existing arguments, as the new first
    /// positional argument.
    pub fn insert(&mut self, item: PyObjectRef)
        ensures
            final(self).args@ == seq![item] + old(self).args@,
    {
        self.args.insert(0, item);
        proof {
            assert(self.args@ =~= seq![item] + old(self).args@);
        }
    }
}

/// An argument that a caller may leave out, distinct from one passed
/// explicitly as "none".
#[derive(Clone, Copy, Debug)]
pub enum OptionalArg<T> {
    Present(T),
    Missing,
}

impl<T> OptionalArg<T> {
    /// What this argument is as an `Option`.
    pub open spec fn spec_into_option(self) -> Option<T> {
        match self {
            OptionalArg::Present(t) => Some(t),
            OptionalArg::Missing => None,
        }
    }

    /// Turns the argument into an `Option`: present becomes `Some`, missing
    /// becomes `None`.
    pub fn into_option(self) -> (r: Option<T>)
        ensures
            r == self.spec_into_option(),
    {
        match self {
            OptionalArg::Present(t) => Some(t),
            OptionalArg::Missing => None,
        }
    }
}

} // verus!
