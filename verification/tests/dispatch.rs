use slot_dispatch::flags::{PyTpFlags, BASETYPE, CREATED_WITH_FLAGS, HAS_DICT, HEAPTYPE};
use slot_dispatch::object::{FuncArgs, OptionalArg, PyObjectRef, VmError, VmErrorKind};
use slot_dispatch::slots::{
    call_magic_call, call_magic_descr_get, get_class_magic, CallSlotFn, DescrGetSlotFn,
    PyClassSlots,
};
use slot_dispatch::vm::{TableVm, VmContext};

fn obj(id: u64, class_id: u64) -> PyObjectRef {
    PyObjectRef { id, class_id }
}

fn fresh_vm() -> TableVm {
    TableVm::new(obj(0, 0))
}

#[test]
fn flags_default_is_heaptype_alone() {
    let f = PyTpFlags::default_flags();
    assert_eq!(f.bits, 1u64 << 9);
    assert_eq!(f, PyTpFlags::default());
    assert!(f.has_feature(PyTpFlags::from_bits(HEAPTYPE)));
    assert!(!f.has_feature(PyTpFlags::from_bits(BASETYPE)));
    assert!(!f.has_feature(PyTpFlags::from_bits(HAS_DICT)));
    assert!(!f.is_created_with_flags());
}

#[test]
fn flags_membership_needs_every_bit() {
    let f = PyTpFlags::from_bits(HEAPTYPE | BASETYPE);
    assert!(f.has_feature(PyTpFlags::from_bits(HEAPTYPE)));
    assert!(f.has_feature(PyTpFlags::from_bits(BASETYPE)));
    assert!(f.has_feature(PyTpFlags::from_bits(HEAPTYPE | BASETYPE)));
    assert!(!f.has_feature(PyTpFlags::from_bits(HEAPTYPE | HAS_DICT)));
    let g = PyTpFlags::from_bits(HEAPTYPE | CREATED_WITH_FLAGS);
    assert!(g.is_created_with_flags());
}

#[test]
fn func_args_insert_prepends() {
    let a = obj(1, 10);
    let b = obj(2, 10);
    let z = obj(3, 10);
    let mut args = FuncArgs::new();
    args.args.push(a);
    args.args.push(b);
    args.insert(z);
    assert_eq!(args.args, vec![z, a, b]);
}

#[test]
fn optional_arg_into_option() {
    let a = obj(5, 1);
    assert_eq!(OptionalArg::Present(a).into_option(), Some(a));
    assert_eq!(OptionalArg::<PyObjectRef>::Missing.into_option(), None);
}

#[test]
fn vm_error_constructors_carry_kind_and_message() {
    let e = VmError::type_error("t".to_string());
    assert_eq!(e.kind, VmErrorKind::TypeError);
    assert_eq!(e.message, "t");
    let e = VmError::attribute_error("a".to_string());
    assert_eq!(e.kind, VmErrorKind::AttributeError);
    assert_eq!(e.message, "a");
    let e = VmError::os_error("o".to_string());
    assert_eq!(e.kind, VmErrorKind::OsError);
    assert_eq!(e.message, "o");
}

#[test]
fn table_vm_resolution_and_shadowing() {
    let mut vm = fresh_vm();
    let inst = obj(50, 7);
    assert_eq!(vm.resolve_class_attr(&inst, "__call__"), None);
    let v1 = obj(201, 1);
    let v2 = obj(202, 1);
    vm.set_class_attr(7, "__call__".to_string(), v1);
    assert_eq!(vm.resolve_class_attr(&inst, "__call__"), Some(v1));
    vm.set_class_attr(7, "__call__".to_string(), v2);
    assert_eq!(vm.resolve_class_attr(&inst, "__call__"), Some(v2));
    assert_eq!(vm.resolve_class_attr(&inst, "__get__"), None);
    let other_class = obj(51, 8);
    assert_eq!(vm.resolve_class_attr(&other_class, "__call__"), None);
}

#[test]
fn get_class_magic_reports_a_missing_attribute() {
    let vm = fresh_vm();
    let inst = obj(50, 7);
    let e = get_class_magic(&vm, &inst, "__call__").unwrap_err();
    assert_eq!(e.kind, VmErrorKind::AttributeError);
    assert_eq!(e.message, "__call__");
}

#[test]
fn fresh_slot_table_has_every_slot_absent() {
    let slots = PyClassSlots::from_flags(PyTpFlags::default_flags());
    assert_eq!(slots.flags, PyTpFlags::default_flags());
    assert_eq!(slots.get_call_slot(), None);
    assert_eq!(slots.get_descr_get_slot(), None);
    assert_eq!(slots.get_hash_slot(), None);
    assert_eq!(slots.get_cmp_slot(), None);
    assert_eq!(slots.get_new_slot(), None);
    assert_eq!(slots.get_name(), &None);
}

#[test]
fn update_slot_func_installs_only_recognized_hooks() {
    let mut slots = PyClassSlots::from_flags(PyTpFlags::default_flags());
    slots.update_slot_func("__init__");
    assert_eq!(slots.get_call_slot(), None);
    assert_eq!(slots.get_descr_get_slot(), None);
    slots.update_slot_func("__call__");
    assert_eq!(slots.get_call_slot(), Some(CallSlotFn::GenericCallForwarder));
    assert_eq!(slots.get_descr_get_slot(), None);
    slots.update_slot_func("__get__");
    assert_eq!(slots.get_call_slot(), Some(CallSlotFn::GenericCallForwarder));
    assert_eq!(
        slots.get_descr_get_slot(),
        Some(DescrGetSlotFn::GenericDescrGetForwarder)
    );
    slots.update_slot_func("unrelated");
    assert_eq!(slots.get_call_slot(), Some(CallSlotFn::GenericCallForwarder));
    assert_eq!(
        slots.get_descr_get_slot(),
        Some(DescrGetSlotFn::GenericDescrGetForwarder)
    );
}

#[test]
fn slot_table_name_and_fixed_slots() {
    let mut slots = PyClassSlots::from_flags(PyTpFlags::default_flags());
    slots.set_name("point".to_string());
    assert_eq!(slots.get_name(), &Some("point".to_string()));
    slots.hash = Some(11);
    slots.cmp = Some(12);
    slots.new = Some(13);
    assert_eq!(slots.get_hash_slot(), Some(11));
    assert_eq!(slots.get_cmp_slot(), Some(12));
    assert_eq!(slots.get_new_slot(), Some(13));
}

#[test]
fn redefining_the_call_attribute_is_observed_immediately() {
    let mut vm = fresh_vm();
    let class_id = 7u64;
    let zelf = obj(100, class_id);
    let impl1 = obj(201, 1);
    let impl2 = obj(202, 1);

    vm.set_class_attr(class_id, "__call__".to_string(), impl1);
    let mut slots = PyClassSlots::from_flags(PyTpFlags::default_flags());
    slots.update_slot_func("__call__");
    let slot = slots.get_call_slot().unwrap();

    let r1 = slot.invoke(&mut vm, zelf, FuncArgs::new()).unwrap();
    assert_eq!(r1, impl1);

    vm.set_class_attr(class_id, "__call__".to_string(), impl2);
    slots.update_slot_func("__call__");
    let slot = slots.get_call_slot().unwrap();

    let r2 = slot.invoke(&mut vm, zelf, FuncArgs::new()).unwrap();
    assert_eq!(r2, impl2);

    assert_eq!(vm.invoked, vec![impl1, impl2]);
}

#[test]
fn call_forwarder_without_the_attribute_reports_it_missing() {
    let mut vm = fresh_vm();
    let zelf = obj(100, 7);
    let e = call_magic_call(&mut vm, zelf, FuncArgs::new()).unwrap_err();
    assert_eq!(e.kind, VmErrorKind::AttributeError);
    assert_eq!(e.message, "__call__");
    assert!(vm.invoked.is_empty());
}

#[test]
fn descr_get_forwarder_resolves_the_live_hook() {
    let mut vm = fresh_vm();
    let class_id = 9u64;
    let descr = obj(300, class_id);
    let hook = obj(301, 1);
    vm.set_class_attr(class_id, "__get__".to_string(), hook);

    let mut slots = PyClassSlots::from_flags(PyTpFlags::default_flags());
    slots.update_slot_func("__get__");
    let slot = slots.get_descr_get_slot().unwrap();

    let owner = obj(400, 2);
    let r = slot
        .invoke(&mut vm, descr, Some(owner), OptionalArg::Missing)
        .unwrap();
    assert_eq!(r, hook);
    assert_eq!(vm.invoked, vec![hook]);
}

#[test]
fn descr_get_forwarder_without_the_hook_reports_it_missing() {
    let mut vm = fresh_vm();
    let descr = obj(300, 9);
    let e = call_magic_descr_get(&mut vm, descr, None, OptionalArg::Missing).unwrap_err();
    assert_eq!(e.kind, VmErrorKind::AttributeError);
    assert_eq!(e.message, "__get__");
}
