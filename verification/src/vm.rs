//! The interpreter collaborators the dispatch core consumes.
//!
//! The dispatch core never looks attributes up or runs user code itself; it
//! goes through a [`VmContext`]: attribute resolution over a class's
//! ancestry, descriptor binding, and invocation of a resolved callable.
//! Resolution is a pure read of the context's current attribute table, so
//! its outcome is pinned down exactly; binding and invocation run arbitrary
//! user-level code, so nothing is promised of them beyond their signature.
//!
//! [`TableVm`] is a small concrete context over a flat attribute table; it
//! stands in for the full interpreter in tests and exercises every contract
//! of the trait.

use vstd::prelude::*;

use crate::object::{FuncArgs, PyObjectRef, VmError};

verus! {

/// The interpreter services the dispatch core consumes.
pub trait VmContext {
    /// What resolving `name` on the class `class_id` currently yields: the
    /// live value of the class attribute, or `None` when the class's
    /// ancestry does not define it.
    spec fn resolve_spec(&self, class_id: u64, name: Seq<char>) -> Option<PyObjectRef>;

    /// The distinguished "none" object of this runtime.
    spec fn none_spec(&self) -> PyObjectRef;

    /// Resolves `name` on the class of `obj` across its ancestry.  A pure
    /// read of the context's current attribute table.
    fn resolve_class_attr(&self, obj: &PyObjectRef, name: &str) -> (r: Option<PyObjectRef>)
        ensures
            r == self.resolve_spec(obj.class_id, name@),
    ;

    /// Returns the distinguished "none" object.
    fn none_object(&self) -> (r: PyObjectRef)
        ensures
            r == self.none_spec(),
    ;

    /// Coerces an absent value to the explicit "none" object.
    fn unwrap_or_none(&self, obj: Option<PyObjectRef>) -> (r: PyObjectRef)
        ensures
            r == match obj {
                Some(o) => o,
                None => self.none_spec(),
            },
    {
        match obj {
            Some(o) => o,
            None => self.none_object(),
        }
    }

    /// If `value`'s class supports the descriptor protocol, binds `value`
    /// to `obj` by running the descriptor-get hook; otherwise hands `value`
    /// back.  May run arbitrary user code, so nothing is promised of the
    /// outcome.
    fn call_if_get_descriptor(&mut self, value: PyObjectRef, obj: PyObjectRef) -> Result<
        PyObjectRef,
        VmError,
    >;

    /// Invokes a callable with the given arguments.  Runs arbitrary user
    /// code, so nothing is promised of the outcome.
    fn invoke(&mut self, callable: &PyObjectRef, args: FuncArgs) -> Result<PyObjectRef, VmError>;
}

/// One class-attribute binding of a [`TableVm`].
#[derive(Clone, Debug)]
pub struct AttrEntry {
    pub class_id: u64,
    pub name: String,
    pub value: PyObjectRef,
}

/// What a flat attribute table resolves `name` on `class_id` to: the most
/// recently appended matching entry wins, so a later assignment shadows an
/// earlier one.
pub open spec fn lookup_attr(entries: Seq<AttrEntry>, class_id: u64, name: Seq<char>) -> Option<
    PyObjectRef,
>
    decreases entries.len(),
{
    if entries.len() == 0 {
        None
    } else if entries.last().class_id == class_id && entries.last().name@ == name {
        Some(entries.last().value)
    } else {
        lookup_attr(entries.drop_last(), class_id, name)
    }
}

/// Law: appending a binding makes lookup of its key yield its value and
/// leaves every other key's lookup unchanged.
pub proof fn lemma_lookup_push(
    entries: Seq<AttrEntry>,
    e: AttrEntry,
    class_id: u64,
    name: Seq<char>,
)
    ensures
        lookup_attr(entries.push(e), class_id, name) == if e.class_id == class_id && e.name@
            == name {
            Some(e.value)
        } else {
            lookup_attr(entries, class_id, name)
        },
{
    assert(entries.push(e).last() == e);
    assert(entries.push(e).drop_last() =~= entries);
}

/// A concrete interpreter context over a flat class-attribute table.
/// Invoking a callable only records it and hands it back, which is enough
/// for the dispatch core's callers to observe exactly which implementation
/// a forwarder chose.
#[derive(Debug)]
pub struct TableVm {
    /// The distinguished "none" object of this context.
    pub none_obj: PyObjectRef,
    /// The class-attribute bindings, in assignment order.
    pub entries: Vec<AttrEntry>,
    /// Every callable that was invoked through this context, oldest first.
    pub invoked: Vec<PyObjectRef>,
}

impl TableVm {
    /// A context with no attribute bindings.
    pub fn new(none_obj: PyObjectRef) -> (r: Self)
        ensures
            r.none_obj == none_obj,
            r.entries@ == Seq::<AttrEntry>::empty(),
            r.invoked@ == Seq::<PyObjectRef>::empty(),
    {
        TableVm { none_obj, entries: Vec::new(), invoked: Vec::new() }
    }

    /// Binds `name` on the class `class_id` to `value`, shadowing any
    /// earlier binding of the same key and leaving every other key as it
    /// was.
    pub fn set_class_attr(&mut self, class_id: u64, name: String, value: PyObjectRef)
        ensures
            final(self).none_obj == old(self).none_obj,
            final(self).invoked == old(self).invoked,
            final(self).resolve_spec(class_id, name@) == Some(value),
            forall|c: u64, n: Seq<char>|
                !(c == class_id && n == name@) ==> #[trigger] final(self).resolve_spec(c, n)
                    == old(self).resolve_spec(c, n),
    {
        let ghost n_spec = name@;
        let e = AttrEntry { class_id, name, value };
        let ghost e_spec = e;
        self.entries.push(e);
        proof {
            assert forall|c: u64, n: Seq<char>| #[trigger]
                lookup_attr(self.entries@, c, n) == (if c == class_id && n == n_spec {
                    Some(value)
                } else {
                    lookup_attr(old(self).entries@, c, n)
                }) by {
                lemma_lookup_push(old(self).entries@, e_spec, c, n);
            }
        }
    }
}

impl VmContext for TableVm {
    open spec fn resolve_spec(&self, class_id: u64, name: Seq<char>) -> Option<PyObjectRef> {
        lookup_attr(self.entries@, class_id, name)
    }

    open spec fn none_spec(&self) -> PyObjectRef {
        self.none_obj
    }

    fn resolve_class_attr(&self, obj: &PyObjectRef, name: &str) -> (r: Option<PyObjectRef>) {
        let mut i: usize = self.entries.len();
        proof {
            assert(self.entries@.take(i as int) =~= self.entries@);
        }
        while 0 < i
            invariant
                i <= self.entries.len(),
                lookup_attr(self.entries@.take(i as int), obj.class_id, name@) == lookup_attr(
                    self.entries@,
                    obj.class_id,
                    name@,
                ),
            decreases i,
        {
            let ghost i0 = i as int;
            i = i - 1;
            proof {
                assert(self.entries@.take(i0).last() == self.entries@[i0 - 1]);
                assert(self.entries@.take(i0).drop_last() =~= self.entries@.take(i0 - 1));
            }
            let e = &self.entries[i];
            if e.class_id == obj.class_id && crate::object::str_eq(e.name.as_str(), name) {
                return Some(e.value);
            }
        }
        proof {
            assert(self.entries@.take(0) =~= Seq::<AttrEntry>::empty());
        }
        None
    }

    fn none_object(&self) -> (r: PyObjectRef) {
        self.none_obj
    }

    /// This context has no descriptors: the value is handed back unbound.
    fn call_if_get_descriptor(&mut self, value: PyObjectRef, _obj: PyObjectRef) -> (r: Result<
        PyObjectRef,
        VmError,
    >)
        ensures
            r == Ok::<PyObjectRef, VmError>(value),
            *final(self) == *old(self),
    {
        Ok(value)
    }

    /// Invoking a callable records it and hands it back unchanged.
    fn invoke(&mut self, callable: &PyObjectRef, _args: FuncArgs) -> (r: Result<
        PyObjectRef,
        VmError,
    >)
        ensures
            r == Ok::<PyObjectRef, VmError>(*callable),
            final(self).invoked@ == old(self).invoked@.push(*callable),
            final(self).entries == old(self).entries,
            final(self).none_obj == old(self).none_obj,
    {
        self.invoked.push(*callable);
        Ok(*callable)
    }
}

} // verus!
