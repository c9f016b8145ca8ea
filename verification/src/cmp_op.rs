//! The rich-comparison operator algebra.
//!
//! Six operators are encoded in three bits -- bit 0 "less", bit 1 "greater",
//! bit 2 "equal" -- so that an operator's value is the bitwise OR of the
//! orderings it accepts, and evaluating an operator against a three-way
//! ordering is a single bitwise AND.  A comparison's outcome is a tri-state:
//! a definite boolean, or a declined `NotImplemented` that the caller must
//! answer by retrying the swapped operator on the other operand.

use vstd::prelude::*;

use crate::object::{IdProtocol, VmError};

verus! {

/// The outcome of one rich comparison: a definite boolean, or a refusal to
/// produce an answer, which the caller resolves by a reflected retry.
#[derive(Clone, Copy, Debug, PartialEq, Eq, Structural)]
pub enum PyComparisonValue {
    Implemented(bool),
    NotImplemented,
}

/// One of the six rich-comparison operators.
#[derive(Clone, Copy, Debug, PartialEq, Eq, Structural)]
pub enum PyComparisonOp {
    Lt,
    Gt,
    Ne,
    Eq,
    Le,
    Ge,
}

/// The three-bit encoding of an operator: bit 0 set when the operator
/// accepts "less", bit 1 when it accepts "greater", bit 2 when it accepts
/// "equal".
pub open spec fn op_bits(op: PyComparisonOp) -> u8 {
    match op {
        PyComparisonOp::Lt => 1,
        PyComparisonOp::Gt => 2,
        PyComparisonOp::Ne => 3,
        PyComparisonOp::Eq => 4,
        PyComparisonOp::Le => 5,
        PyComparisonOp::Ge => 6,
    }
}

/// The bit standing for one three-way ordering in the operator encoding.
pub open spec fn ord_bit(ord: core::cmp::Ordering) -> u8 {
    match ord {
        core::cmp::Ordering::Less => 1,
        core::cmp::Ordering::Equal => 4,
        core::cmp::Ordering::Greater => 2,
    }
}

/// Whether `ord` satisfies `op`, stated by meaning rather than by bits:
/// `Lt` accepts "less" alone, `Le` everything but "greater", and so on.
pub open spec fn op_accepts(op: PyComparisonOp, ord: core::cmp::Ordering) -> bool {
    match op {
        PyComparisonOp::Lt => ord == core::cmp::Ordering::Less,
        PyComparisonOp::Gt => ord == core::cmp::Ordering::Greater,
        PyComparisonOp::Ne => ord != core::cmp::Ordering::Equal,
        PyComparisonOp::Eq => ord == core::cmp::Ordering::Equal,
        PyComparisonOp::Le => ord != core::cmp::Ordering::Greater,
        PyComparisonOp::Ge => ord != core::cmp::Ordering::Less,
    }
}

/// Law: for every operator and every ordering, the bitwise test of the
/// three-bit encoding agrees with the operator's meaning.
pub proof fn lemma_eval_ord_matches_encoding(op: PyComparisonOp, ord: core::cmp::Ordering)
    ensures
        (op_bits(op) & ord_bit(ord) != 0) == op_accepts(op, ord),
{
    assert((1u8 & 1u8 != 0) && (1u8 & 4u8 == 0) && (1u8 & 2u8 == 0)) by (bit_vector);
    assert((2u8 & 1u8 == 0) && (2u8 & 4u8 == 0) && (2u8 & 2u8 != 0)) by (bit_vector);
    assert((3u8 & 1u8 != 0) && (3u8 & 4u8 == 0) && (3u8 & 2u8 != 0)) by (bit_vector);
    assert((4u8 & 1u8 == 0) && (4u8 & 4u8 != 0) && (4u8 & 2u8 == 0)) by (bit_vector);
    assert((5u8 & 1u8 != 0) && (5u8 & 4u8 != 0) && (5u8 & 2u8 == 0)) by (bit_vector);
    assert((6u8 & 1u8 == 0) && (6u8 & 4u8 != 0) && (6u8 & 2u8 != 0)) by (bit_vector);
}

/// The operator to apply when the operand order is reversed: the strict and
/// non-strict order pairs swap, equality and inequality stay themselves.
pub open spec fn swapped_spec(op: PyComparisonOp) -> PyComparisonOp {
    match op {
        PyComparisonOp::Lt => PyComparisonOp::Gt,
        PyComparisonOp::Le => PyComparisonOp::Ge,
        PyComparisonOp::Eq => PyComparisonOp::Eq,
        PyComparisonOp::Ne => PyComparisonOp::Ne,
        PyComparisonOp::Ge => PyComparisonOp::Le,
        PyComparisonOp::Gt => PyComparisonOp::Lt,
    }
}

/// Law: `swapped` is an involution, and equality and inequality are their
/// own swaps.
pub proof fn lemma_swapped_involution(op: PyComparisonOp)
    ensures
        swapped_spec(swapped_spec(op)) == op,
        swapped_spec(PyComparisonOp::Eq) == PyComparisonOp::Eq,
        swapped_spec(PyComparisonOp::Ne) == PyComparisonOp::Ne,
{
}

/// The reversed three-way ordering, as seen from the other operand.
pub open spec fn ord_reversed(ord: core::cmp::Ordering) -> core::cmp::Ordering {
    match ord {
        core::cmp::Ordering::Less => core::cmp::Ordering::Greater,
        core::cmp::Ordering::Equal => core::cmp::Ordering::Equal,
        core::cmp::Ordering::Greater => core::cmp::Ordering::Less,
    }
}

/// Law: the swapped operator evaluated against the reversed ordering gives
/// the same answer as the original operator against the original ordering,
/// which is what makes the reflected-operator fallback sound.
pub proof fn lemma_swapped_reverses_ordering(op: PyComparisonOp, ord: core::cmp::Ordering)
    ensures
        op_accepts(swapped_spec(op), ord_reversed(ord)) == op_accepts(op, ord),
{
}

/// The comparison outcome with a definite boolean negated and a declined
/// outcome or an error left unchanged.
pub open spec fn negated_result(r: Result<PyComparisonValue, VmError>) -> Result<
    PyComparisonValue,
    VmError,
> {
    match r {
        Ok(PyComparisonValue::Implemented(b)) => Ok(PyComparisonValue::Implemented(!b)),
        _ => r,
    }
}

/// What the identity fast path may answer: when both operands are the same
/// object, equality holds, so `Eq` may answer "true" and `Ne` "false";
/// every other case gives no answer.
pub open spec fn identical_opt_spec(op: PyComparisonOp, same: bool) -> Option<bool> {
    if same {
        match op {
            PyComparisonOp::Eq => Some(true),
            PyComparisonOp::Ne => Some(false),
            _ => None,
        }
    } else {
        None
    }
}

impl PyComparisonOp {
    /// The three-bit encoding of this operator.
    pub fn bits(self) -> (r: u8)
        ensures
            r == op_bits(self),
    {
        match self {
            PyComparisonOp::Lt => 1,
            PyComparisonOp::Gt => 2,
            PyComparisonOp::Ne => 3,
            PyComparisonOp::Eq => 4,
            PyComparisonOp::Le => 5,
            PyComparisonOp::Ge => 6,
        }
    }

    /// Runs `f` for equality or inequality and declines every other
    /// operator without running `f` at all.  For `Eq` the outcome is
    /// exactly `f`'s; for `Ne` a definite boolean from `f` is negated while
    /// a declined outcome or an error passes through unchanged.
    pub fn eq_only<F: FnOnce() -> Result<PyComparisonValue, VmError>>(self, f: F) -> (r: Result<
        PyComparisonValue,
        VmError,
    >)
        requires
            self == PyComparisonOp::Eq || self == PyComparisonOp::Ne ==> call_requires(f, ()),
        ensures
            self == PyComparisonOp::Eq ==> call_ensures(f, (), r),
            self == PyComparisonOp::Ne ==> exists|r0: Result<PyComparisonValue, VmError>|
                call_ensures(f, (), r0) && r == negated_result(r0),
            self != PyComparisonOp::Eq && self != PyComparisonOp::Ne ==> r == Ok::<
                PyComparisonValue,
                VmError,
            >(PyComparisonValue::NotImplemented),
    {
        match self {
            PyComparisonOp::Eq => f(),
            PyComparisonOp::Ne => {
                let r0 = f();
                let ghost witness = r0;
                let r = match r0 {
                    Ok(PyComparisonValue::Implemented(b)) => Ok(
                        PyComparisonValue::Implemented(!b),
                    ),
                    Ok(PyComparisonValue::NotImplemented) => Ok(PyComparisonValue::NotImplemented),
                    Err(e) => Err(e),
                };
                proof {
                    assert(call_ensures(f, (), witness) && r == negated_result(witness));
                }
                r
            },
            _ => Ok(PyComparisonValue::NotImplemented),
        }
    }

    /// Evaluates this operator against a three-way ordering by the bitwise
    /// test of the three-bit encoding; the answer is the operator's meaning
    /// applied to the ordering.
    pub fn eval_ord(self, ord: core::cmp::Ordering) -> (r: bool)
        ensures
            r == (op_bits(self) & ord_bit(ord) != 0),
            r == op_accepts(self, ord),
    {
        let bit: u8 = match ord {
            core::cmp::Ordering::Less => 1,
            core::cmp::Ordering::Equal => 4,
            core::cmp::Ordering::Greater => 2,
        };
        proof {
            lemma_eval_ord_matches_encoding(self, ord);
        }
        self.bits() & bit != 0
    }

    /// The operator to apply when the operand order is reversed for a
    /// reflected-operator retry.
    pub fn swapped(self) -> (r: Self)
        ensures
            r == swapped_spec(self),
    {
        match self {
            PyComparisonOp::Lt => PyComparisonOp::Gt,
            PyComparisonOp::Le => PyComparisonOp::Ge,
            PyComparisonOp::Eq => PyComparisonOp::Eq,
            PyComparisonOp::Ne => PyComparisonOp::Ne,
            PyComparisonOp::Ge => PyComparisonOp::Le,
            PyComparisonOp::Gt => PyComparisonOp::Lt,
        }
    }

    /// The magic-method attribute name that backs this operator.
    pub fn method_name(self) -> (r: &'static str)
        ensures
            self == PyComparisonOp::Lt ==> r@ == "__lt__"@,
            self == PyComparisonOp::Le ==> r@ == "__le__"@,
            self == PyComparisonOp::Eq ==> r@ == "__eq__"@,
            self == PyComparisonOp::Ne ==> r@ == "__ne__"@,
            self == PyComparisonOp::Ge ==> r@ == "__ge__"@,
            self == PyComparisonOp::Gt ==> r@ == "__gt__"@,
    {
        match self {
            PyComparisonOp::Lt => "__lt__",
            PyComparisonOp::Le => "__le__",
            PyComparisonOp::Eq => "__eq__",
            PyComparisonOp::Ne => "__ne__",
            PyComparisonOp::Ge => "__ge__",
            PyComparisonOp::Gt => "__gt__",
        }
    }

    /// The source-level token of this operator.
    pub fn operator_token(self) -> (r: &'static str)
        ensures
            self == PyComparisonOp::Lt ==> r@ == "<"@,
            self == PyComparisonOp::Le ==> r@ == "<="@,
            self == PyComparisonOp::Eq ==> r@ == "=="@,
            self == PyComparisonOp::Ne ==> r@ == "!="@,
            self == PyComparisonOp::Ge ==> r@ == ">="@,
            self == PyComparisonOp::Gt ==> r@ == ">"@,
    {
        match self {
            PyComparisonOp::Lt => "<",
            PyComparisonOp::Le => "<=",
            PyComparisonOp::Eq => "==",
            PyComparisonOp::Ne => "!=",
            PyComparisonOp::Ge => ">=",
            PyComparisonOp::Gt => ">",
        }
    }

    /// The identity fast path: when `a` and `b` are the exact same object,
    /// answers "true" for `Eq` and "false" for `Ne`; every other operator,
    /// and distinct objects, get no answer.
    pub fn identical_optimization<A: IdProtocol, B: IdProtocol>(self, a: &A, b: &B) -> (r: Option<bool>)
        ensures
            r == identical_opt_spec(self, a.id_spec() == b.id_spec()),
    {
        let same = crate::object::is_identical(a, b);
        let check = || -> (res: bool)
            ensures
                res == (a.id_spec() == b.id_spec()),
            {
                same
            };
        self.map_eq(check)
    }

    /// Returns `Some(true)` when this operator is `Eq` and `f()` holds,
    /// `Some(false)` when it is `Ne` and `f()` holds, and `None` otherwise;
    /// `f` is not run for any other operator.
    pub fn map_eq<F: FnOnce() -> bool>(self, f: F) -> (r: Option<bool>)
        requires
            self == PyComparisonOp::Eq || self == PyComparisonOp::Ne ==> call_requires(f, ()),
        ensures
            self == PyComparisonOp::Eq ==> ((r == Some(true) && call_ensures(f, (), true)) || (r
                == None::<bool> && call_ensures(f, (), false))),
            self == PyComparisonOp::Ne ==> ((r == Some(false) && call_ensures(f, (), true)) || (r
                == None::<bool> && call_ensures(f, (), false))),
            self != PyComparisonOp::Eq && self != PyComparisonOp::Ne ==> r == None::<bool>,
    {
        match self {
            PyComparisonOp::Eq => {
                if f() {
                    Some(true)
                } else {
                    None
                }
            },
            PyComparisonOp::Ne => {
                if f() {
                    Some(false)
                } else {
                    None
                }
            },
            _ => None,
        }
    }
}

} // verus!
