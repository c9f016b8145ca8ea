//! The per-class slot table and the generic forwarding functions.
//!
//! A class owns one slot table.  The call and descriptor-get slots hold an
//! optional forwarding function in an atomic cell and are (re)installed
//! whenever a recognized protocol hook is bound as a class attribute; the
//! constructor, hash and compare slots are fixed when the class is
//! constructed.  A forwarding function is a trampoline, not a cache: on
//! every invocation it re-resolves the live magic-method attribute through
//! the interpreter context, so a redefinition is observed immediately, and
//! installing a slot twice is harmless.

use vstd::prelude::*;

use crossbeam_utils::atomic::AtomicCell;

use crate::flags::PyTpFlags;
use crate::object::{str_eq, FuncArgs, OptionalArg, PyObjectRef, VmError, VmErrorKind};
use crate::vm::VmContext;

verus! {

/// A handle naming a native function supplied by the runtime embedding
/// this core; the embedder maps it back to the real implementation.
pub type SlotHandle = u64;

/// The forwarding function a call slot can hold.
#[derive(Clone, Copy, Debug, PartialEq, Eq, Structural)]
pub enum CallSlotFn {
    /// The trampoline that re-resolves and invokes the live "make
    /// callable" attribute.
    GenericCallForwarder,
}

/// The forwarding function a descriptor-get slot can hold.
#[derive(Clone, Copy, Debug, PartialEq, Eq, Structural)]
pub enum DescrGetSlotFn {
    /// The trampoline that re-resolves and invokes the live
    /// "descriptor get" attribute.
    GenericDescrGetForwarder,
}

#[verifier::external_type_specification]
#[verifier::external_body]
#[verifier::reject_recursive_types(T)]
pub struct ExAtomicCell<T>(AtomicCell<T>);

/// What a call-slot cell holds.
pub uninterp spec fn call_cell_value(c: AtomicCell<Option<CallSlotFn>>) -> Option<CallSlotFn>;

/// What a descriptor-get-slot cell holds.
pub uninterp spec fn descr_cell_value(c: AtomicCell<Option<DescrGetSlotFn>>) -> Option<
    DescrGetSlotFn,
>;

/// Relies on `crossbeam_utils::atomic::AtomicCell::new`: the cell starts
/// out holding the given value.
#[verifier::external_body]
fn new_call_cell(v: Option<CallSlotFn>) -> (c: AtomicCell<Option<CallSlotFn>>)
    ensures
        call_cell_value(c) == v,
{
    AtomicCell::new(v)
}

/// Relies on `crossbeam_utils::atomic::AtomicCell::load`: returns the value
/// the cell holds.
#[verifier::external_body]
fn load_call_cell(c: &AtomicCell<Option<CallSlotFn>>) -> (r: Option<CallSlotFn>)
    ensures
        r == call_cell_value(*c),
{
    c.load()
}

/// Relies on `crossbeam_utils::atomic::AtomicCell::store`: replaces the
/// value the cell holds.
#[verifier::external_body]
fn store_call_cell(c: &mut AtomicCell<Option<CallSlotFn>>, v: Option<CallSlotFn>)
    ensures
        call_cell_value(*final(c)) == v,
{
    c.store(v)
}

/// Relies on `crossbeam_utils::atomic::AtomicCell::new`: the cell starts
/// out holding the given value.
#[verifier::external_body]
fn new_descr_cell(v: Option<DescrGetSlotFn>) -> (c: AtomicCell<Option<DescrGetSlotFn>>)
    ensures
        descr_cell_value(c) == v,
{
    AtomicCell::new(v)
}

/// Relies on `crossbeam_utils::atomic::AtomicCell::load`: returns the value
/// the cell holds.
#[verifier::external_body]
fn load_descr_cell(c: &AtomicCell<Option<DescrGetSlotFn>>) -> (r: Option<DescrGetSlotFn>)
    ensures
        r == descr_cell_value(*c),
{
    c.load()
}

/// Relies on `crossbeam_utils::atomic::AtomicCell::store`: replaces the
/// value the cell holds.
#[verifier::external_body]
fn store_descr_cell(c: &mut AtomicCell<Option<DescrGetSlotFn>>, v: Option<DescrGetSlotFn>)
    ensures
        descr_cell_value(*final(c)) == v,
{
    c.store(v)
}

/// The slot table of one class.  The class owns it exclusively; `call` and
/// `descr_get` may go from absent to present, or be re-pointed at the same
/// forwarder, but are never cleared; `new`, `hash` and `cmp` are fixed once
/// class construction completes.
#[derive(Debug)]
pub struct PyClassSlots {
    /// The class's capability flags.
    pub flags: PyTpFlags,
    /// An optional internal display name.
    pub name: Option<String>,
    /// The native constructor, fixed at class construction.
    pub new: Option<SlotHandle>,
    /// The call-protocol forwarding function, installed on attribute
    /// assignment.
    pub call: AtomicCell<Option<CallSlotFn>>,
    /// The descriptor-get forwarding function, installed on attribute
    /// assignment.
    pub descr_get: AtomicCell<Option<DescrGetSlotFn>>,
    /// The native hash function, fixed at class construction.
    pub hash: Option<SlotHandle>,
    /// The native rich-comparison function, fixed at class construction.
    pub cmp: Option<SlotHandle>,
}

impl PyClassSlots {
    /// A fresh slot table for a class with the given flags: every slot
    /// starts out absent.
    pub fn from_flags(flags: PyTpFlags) -> (r: Self)
        ensures
            r.flags == flags,
            r.name is None,
            r.new is None,
            r.hash is None,
            r.cmp is None,
            call_cell_value(r.call) is None,
            descr_cell_value(r.descr_get) is None,
    {
        PyClassSlots {
            flags,
            name: None,
            new: None,
            call: new_call_cell(None),
            descr_get: new_descr_cell(None),
            hash: None,
            cmp: None,
        }
    }

    /// Reacts to `name` being bound as a class attribute: a recognized
    /// protocol hook installs the matching generic forwarder into its
    /// slot, any other name changes nothing.  A slot that was present
    /// stays present.
    pub fn update_slot_func(&mut self, name: &str)
        ensures
            name@ == "__call__"@ ==> call_cell_value(final(self).call) == Some(
                CallSlotFn::GenericCallForwarder,
            ) && final(self).descr_get == old(self).descr_get,
            name@ == "__get__"@ ==> descr_cell_value(final(self).descr_get) == Some(
                DescrGetSlotFn::GenericDescrGetForwarder,
            ) && final(self).call == old(self).call,
            name@ != "__call__"@ && name@ != "__get__"@ ==> *final(self) == *old(self),
            final(self).flags == old(self).flags,
            final(self).name == old(self).name,
            final(self).new == old(self).new,
            final(self).hash == old(self).hash,
            final(self).cmp == old(self).cmp,
            call_cell_value(old(self).call) is Some ==> call_cell_value(final(self).call) is Some,
            descr_cell_value(old(self).descr_get) is Some ==> descr_cell_value(
                final(self).descr_get,
            ) is Some,
    {
        proof {
            // The two hook names have different lengths, so the branches
            // below are mutually exclusive.
            reveal_strlit("__call__");
            reveal_strlit("__get__");
            assert("__call__"@.len() == 8);
            assert("__get__"@.len() == 7);
        }
        if str_eq(name, "__call__") {
            store_call_cell(&mut self.call, Some(CallSlotFn::GenericCallForwarder));
        } else if str_eq(name, "__get__") {
            store_descr_cell(&mut self.descr_get, Some(DescrGetSlotFn::GenericDescrGetForwarder));
        }
    }

    /// The call-protocol slot, absent when the class is not callable.
    pub fn get_call_slot(&self) -> (r: Option<CallSlotFn>)
        ensures
            r == call_cell_value(self.call),
    {
        load_call_cell(&self.call)
    }

    /// The descriptor-get slot, absent when the class is no descriptor.
    pub fn get_descr_get_slot(&self) -> (r: Option<DescrGetSlotFn>)
        ensures
            r == descr_cell_value(self.descr_get),
    {
        load_descr_cell(&self.descr_get)
    }

    /// The native hash slot, absent when the class supplies none.
    pub fn get_hash_slot(&self) -> (r: Option<SlotHandle>)
        ensures
            r == self.hash,
    {
        self.hash
    }

    /// The native rich-comparison slot, absent when the class supplies
    /// none.
    pub fn get_cmp_slot(&self) -> (r: Option<SlotHandle>)
        ensures
            r == self.cmp,
    {
        self.cmp
    }

    /// The native constructor slot, absent when the class supplies none.
    pub fn get_new_slot(&self) -> (r: Option<SlotHandle>)
        ensures
            r == self.new,
    {
        self.new
    }

    /// The class's internal display name.
    pub fn get_name(&self) -> (r: &Option<String>)
        ensures
            r == &self.name,
    {
        &self.name
    }

    /// Replaces the class's internal display name.
    pub fn set_name(&mut self, name: String)
        ensures
            final(self).name == Some(name),
            final(self).flags == old(self).flags,
            final(self).new == old(self).new,
            final(self).hash == old(self).hash,
            final(self).cmp == old(self).cmp,
            final(self).call == old(self).call,
            final(self).descr_get == old(self).descr_get,
    {
        self.name = Some(name);
    }
}

/// Fetches the live value of the magic attribute `name` on the class of
/// `zelf`, or reports the attribute as missing.
pub fn get_class_magic<V: VmContext>(vm: &V, zelf: &PyObjectRef, name: &str) -> (r: Result<
    PyObjectRef,
    VmError,
>)
    ensures
        match vm.resolve_spec(zelf.class_id, name@) {
            Some(v) => r == Ok::<PyObjectRef, VmError>(v),
            None => r matches Err(e) && e.kind == VmErrorKind::AttributeError && e.message@
                == name@,
        },
{
    match vm.resolve_class_attr(zelf, name) {
        Some(v) => Ok(v),
        None => Err(VmError::attribute_error(name.to_owned())),
    }
}

/// The generic call forwarder: re-resolves the "make callable" attribute on
/// the callee's class at invocation time, applies descriptor binding,
/// prepends the callee as the first argument, and invokes the result.  The
/// outcome of running the resolved user code propagates unchanged.
pub fn call_magic_call<V: VmContext>(vm: &mut V, zelf: PyObjectRef, args: FuncArgs) -> (r: Result<
    PyObjectRef,
    VmError,
>)
    ensures
        old(vm).resolve_spec(zelf.class_id, "__call__"@) is None ==> (r matches Err(e)
            && e.kind == VmErrorKind::AttributeError),
{
    let magic = match get_class_magic(vm, &zelf, "__call__") {
        Ok(m) => m,
        Err(e) => {
            return Err(e);
        },
    };
    let magic = match vm.call_if_get_descriptor(magic, zelf) {
        Ok(m) => m,
        Err(e) => {
            return Err(e);
        },
    };
    let mut args = args;
    args.insert(zelf);
    vm.invoke(&magic, args)
}

/// The generic descriptor-get forwarder: re-resolves the "descriptor get"
/// attribute on the descriptor's class at invocation time and invokes it
/// with the descriptor, the owning instance or none, and the owning class
/// or none.  The outcome of running the resolved user code propagates
/// unchanged.
pub fn call_magic_descr_get<V: VmContext>(
    vm: &mut V,
    zelf: PyObjectRef,
    obj: Option<PyObjectRef>,
    cls: OptionalArg<PyObjectRef>,
) -> (r: Result<PyObjectRef, VmError>)
    ensures
        old(vm).resolve_spec(zelf.class_id, "__get__"@) is None ==> (r matches Err(e)
            && e.kind == VmErrorKind::AttributeError),
{
    let magic = match get_class_magic(vm, &zelf, "__get__") {
        Ok(m) => m,
        Err(e) => {
            return Err(e);
        },
    };
    let obj_arg = vm.unwrap_or_none(obj);
    let cls_arg = vm.unwrap_or_none(cls.into_option());
    let mut call_args = FuncArgs::new();
    call_args.args.push(zelf);
    call_args.args.push(obj_arg);
    call_args.args.push(cls_arg);
    vm.invoke(&magic, call_args)
}

impl CallSlotFn {
    /// Runs the forwarding function this slot value denotes.
    pub fn invoke<V: VmContext>(self, vm: &mut V, zelf: PyObjectRef, args: FuncArgs) -> (r: Result<
        PyObjectRef,
        VmError,
    >)
        ensures
            old(vm).resolve_spec(zelf.class_id, "__call__"@) is None ==> (r matches Err(e)
                && e.kind == VmErrorKind::AttributeError),
    {
        match self {
            CallSlotFn::GenericCallForwarder => call_magic_call(vm, zelf, args),
        }
    }
}

impl DescrGetSlotFn {
    /// Runs the forwarding function this slot value denotes.
    pub fn invoke<V: VmContext>(
        self,
        vm: &mut V,
        zelf: PyObjectRef,
        obj: Option<PyObjectRef>,
        cls: OptionalArg<PyObjectRef>,
    ) -> (r: Result<PyObjectRef, VmError>)
        ensures
            old(vm).resolve_spec(zelf.class_id, "__get__"@) is None ==> (r matches Err(e)
                && e.kind == VmErrorKind::AttributeError),
    {
        match self {
            DescrGetSlotFn::GenericDescrGetForwarder => call_magic_descr_get(vm, zelf, obj, cls),
        }
    }
}

} // verus!
