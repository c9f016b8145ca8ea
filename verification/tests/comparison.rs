use std::cmp::Ordering;

use slot_dispatch::cmp_op::{PyComparisonOp, PyComparisonValue};
use slot_dispatch::object::{PyObjectRef, VmError, VmErrorKind};

fn ok_bool(b: bool) -> Result<PyComparisonValue, VmError> {
    Ok(PyComparisonValue::Implemented(b))
}

#[test]
fn eval_ord_matches_bit_table() {
    let cases: [(PyComparisonOp, Ordering, bool); 18] = [
        (PyComparisonOp::Lt, Ordering::Less, true),
        (PyComparisonOp::Lt, Ordering::Equal, false),
        (PyComparisonOp::Lt, Ordering::Greater, false),
        (PyComparisonOp::Gt, Ordering::Less, false),
        (PyComparisonOp::Gt, Ordering::Equal, false),
        (PyComparisonOp::Gt, Ordering::Greater, true),
        (PyComparisonOp::Ne, Ordering::Less, true),
        (PyComparisonOp::Ne, Ordering::Equal, false),
        (PyComparisonOp::Ne, Ordering::Greater, true),
        (PyComparisonOp::Eq, Ordering::Less, false),
        (PyComparisonOp::Eq, Ordering::Equal, true),
        (PyComparisonOp::Eq, Ordering::Greater, false),
        (PyComparisonOp::Le, Ordering::Less, true),
        (PyComparisonOp::Le, Ordering::Equal, true),
        (PyComparisonOp::Le, Ordering::Greater, false),
        (PyComparisonOp::Ge, Ordering::Less, false),
        (PyComparisonOp::Ge, Ordering::Equal, true),
        (PyComparisonOp::Ge, Ordering::Greater, true),
    ];
    for (op, ord, expected) in cases {
        assert_eq!(op.eval_ord(ord), expected);
    }
}

#[test]
fn operator_bits_are_the_documented_encoding() {
    assert_eq!(PyComparisonOp::Lt.bits(), 0b001);
    assert_eq!(PyComparisonOp::Gt.bits(), 0b010);
    assert_eq!(PyComparisonOp::Ne.bits(), 0b011);
    assert_eq!(PyComparisonOp::Eq.bits(), 0b100);
    assert_eq!(PyComparisonOp::Le.bits(), 0b101);
    assert_eq!(PyComparisonOp::Ge.bits(), 0b110);
}

#[test]
fn swapped_is_an_involution() {
    let all = [
        PyComparisonOp::Lt,
        PyComparisonOp::Gt,
        PyComparisonOp::Ne,
        PyComparisonOp::Eq,
        PyComparisonOp::Le,
        PyComparisonOp::Ge,
    ];
    for op in all {
        assert_eq!(op.swapped().swapped(), op);
    }
    assert_eq!(PyComparisonOp::Eq.swapped(), PyComparisonOp::Eq);
    assert_eq!(PyComparisonOp::Ne.swapped(), PyComparisonOp::Ne);
    assert_eq!(PyComparisonOp::Lt.swapped(), PyComparisonOp::Gt);
    assert_eq!(PyComparisonOp::Le.swapped(), PyComparisonOp::Ge);
}

#[test]
fn eq_only_passes_equality_through() {
    let r = PyComparisonOp::Eq.eq_only(|| ok_bool(true));
    assert_eq!(r.unwrap(), PyComparisonValue::Implemented(true));
    let r = PyComparisonOp::Eq.eq_only(|| ok_bool(false));
    assert_eq!(r.unwrap(), PyComparisonValue::Implemented(false));
}

#[test]
fn eq_only_negates_inequality() {
    let r = PyComparisonOp::Ne.eq_only(|| ok_bool(true));
    assert_eq!(r.unwrap(), PyComparisonValue::Implemented(false));
    let r = PyComparisonOp::Ne.eq_only(|| ok_bool(false));
    assert_eq!(r.unwrap(), PyComparisonValue::Implemented(true));
}

#[test]
fn eq_only_never_negates_a_declined_answer() {
    let r = PyComparisonOp::Ne.eq_only(|| Ok(PyComparisonValue::NotImplemented));
    assert_eq!(r.unwrap(), PyComparisonValue::NotImplemented);
}

#[test]
fn eq_only_passes_errors_through() {
    let r = PyComparisonOp::Ne.eq_only(|| Err(VmError::type_error("boom".to_string())));
    let e = r.unwrap_err();
    assert_eq!(e.kind, VmErrorKind::TypeError);
    assert_eq!(e.message, "boom");
}

#[test]
fn eq_only_declines_ordering_operators_without_running_compute() {
    for op in [
        PyComparisonOp::Lt,
        PyComparisonOp::Le,
        PyComparisonOp::Gt,
        PyComparisonOp::Ge,
    ] {
        let r = op.eq_only(|| -> Result<PyComparisonValue, VmError> {
            panic!("compute must not run for an ordering operator");
        });
        assert_eq!(r.unwrap(), PyComparisonValue::NotImplemented);
    }
}

#[test]
fn identical_optimization_on_the_same_object() {
    let x = PyObjectRef { id: 42, class_id: 7 };
    assert_eq!(PyComparisonOp::Eq.identical_optimization(&x, &x), Some(true));
    assert_eq!(PyComparisonOp::Ne.identical_optimization(&x, &x), Some(false));
    assert_eq!(PyComparisonOp::Lt.identical_optimization(&x, &x), None);
    assert_eq!(PyComparisonOp::Le.identical_optimization(&x, &x), None);
    assert_eq!(PyComparisonOp::Gt.identical_optimization(&x, &x), None);
    assert_eq!(PyComparisonOp::Ge.identical_optimization(&x, &x), None);
}

#[test]
fn identical_optimization_on_distinct_objects() {
    let x = PyObjectRef { id: 42, class_id: 7 };
    let y = PyObjectRef { id: 43, class_id: 7 };
    for op in [
        PyComparisonOp::Lt,
        PyComparisonOp::Gt,
        PyComparisonOp::Ne,
        PyComparisonOp::Eq,
        PyComparisonOp::Le,
        PyComparisonOp::Ge,
    ] {
        assert_eq!(op.identical_optimization(&x, &y), None);
    }
}

#[test]
fn map_eq_answers_only_equality_and_inequality() {
    assert_eq!(PyComparisonOp::Eq.map_eq(|| true), Some(true));
    assert_eq!(PyComparisonOp::Eq.map_eq(|| false), None);
    assert_eq!(PyComparisonOp::Ne.map_eq(|| true), Some(false));
    assert_eq!(PyComparisonOp::Ne.map_eq(|| false), None);
    let r = PyComparisonOp::Gt.map_eq(|| -> bool {
        panic!("the test must not run for an ordering operator");
    });
    assert_eq!(r, None);
}

#[test]
fn method_names_are_the_magic_attribute_names() {
    assert_eq!(PyComparisonOp::Lt.method_name(), "__lt__");
    assert_eq!(PyComparisonOp::Le.method_name(), "__le__");
    assert_eq!(PyComparisonOp::Eq.method_name(), "__eq__");
    assert_eq!(PyComparisonOp::Ne.method_name(), "__ne__");
    assert_eq!(PyComparisonOp::Ge.method_name(), "__ge__");
    assert_eq!(PyComparisonOp::Gt.method_name(), "__gt__");
}

#[test]
fn operator_tokens_are_the_source_tokens() {
    assert_eq!(PyComparisonOp::Lt.operator_token(), "<");
    assert_eq!(PyComparisonOp::Le.operator_token(), "<=");
    assert_eq!(PyComparisonOp::Eq.operator_token(), "==");
    assert_eq!(PyComparisonOp::Ne.operator_token(), "!=");
    assert_eq!(PyComparisonOp::Ge.operator_token(), ">=");
    assert_eq!(PyComparisonOp::Gt.operator_token(), ">");
}
