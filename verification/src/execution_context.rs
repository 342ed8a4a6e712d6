//! The binding table: per-evaluation storage that maps each field of one
//! scheme to an optional runtime value, with type-checked writes by name and
//! constant-time reads by field handle.

use vstd::pervasive::VecAdditionalExecFns;
use vstd::prelude::*;

use crate::scheme::Field;
use crate::scheme::Scheme;
use crate::types::LhsValue;
use crate::types::Type;

verus! {

/// The fault returned when the type of the value supplied for a field does
/// not match the type declared for that field in the [`Scheme`].
///
/// The write that produced it left the table untouched.
#[derive(Debug, PartialEq, Eq, Structural)]
pub struct FieldValueTypeMismatchError {
    /// The type declared for the field in the [`Scheme`].
    pub field_type: Type,
    /// The type of the value that was supplied.
    pub value_type: Type,
}

/// An execution context stores an associated [`Scheme`] and a set of runtime
/// values to evaluate a compiled filter against.
///
/// It acts as a map in terms of public API, but provides constant-time
/// index-based access to values for a filter during execution: one slot per
/// declared field, every slot initially empty, each filled only by a
/// successful typed write.
pub struct ExecutionContext<'e> {
    scheme: &'e Scheme,
    values: Vec<Option<LhsValue>>,
}

impl<'e> ExecutionContext<'e> {
    /// The scheme this context was created from.
    pub closed spec fn spec_scheme(&self) -> Scheme {
        *self.scheme
    }

    /// The slot array: one optional value per field index of the scheme.
    pub closed spec fn slots(&self) -> Seq<Option<LhsValue>> {
        self.values@
    }

    /// Well-formedness: the scheme is well-formed and there is exactly one
    /// slot per declared field.
    pub open spec fn wf(&self) -> bool {
        self.spec_scheme().wf() && self.slots().len() == self.spec_scheme().num_fields()
    }

    /// Creates an execution context associated with a given scheme, with one
    /// empty slot per declared field.
    ///
    /// This scheme will be used for resolving any field names and indices.
    pub fn new<'s: 'e>(scheme: &'s Scheme) -> (r: Self)
        requires
            scheme.wf(),
        ensures
            r.wf(),
            r.spec_scheme() == *scheme,
            r.slots().len() == scheme.num_fields(),
            forall|i: int| 0 <= i < r.slots().len() ==> r.slots()[i] is None,
    {
        let n = scheme.get_field_count();
        let mut values: Vec<Option<LhsValue>> = Vec::new();
        while values.len() < n
            invariant
                values@.len() <= n,
                forall|i: int| 0 <= i < values@.len() ==> values@[i] is None,
            decreases n - values.len(),
        {
            values.push(None);
        }
        ExecutionContext { scheme, values }
    }

    /// Returns the associated scheme.
    pub fn scheme(&self) -> (r: &'e Scheme)
        ensures
            *r == self.spec_scheme(),
    {
        self.scheme
    }

    /// Returns the value bound to `field`.
    ///
    /// A compiled expression that references a field implies that field is
    /// supplied before evaluation runs, so the slot must already be filled:
    /// an empty slot is a contract violation of the surrounding pipeline,
    /// never answered with a default value, and is excluded here rather than
    /// detected at run time. The handle must come from the scheme this
    /// context was created from.
    pub fn get_field_value_unchecked(&self, field: Field<'e>) -> (r: &LhsValue)
        requires
            self.wf(),
            field.wf(),
            field.spec_scheme() == self.spec_scheme(),
            self.slots()[field.spec_index()] is Some,
        ensures
            self.slots()[field.spec_index()] == Some(*r),
    {
        let idx = field.index();
        match &self.values[idx] {
            Some(v) => v,
            None => vstd::pervasive::unreached(),
        }
    }

    /// Reports whether `field` has been given a value by a successful write.
    /// Right after construction this is `false` for every field.
    pub fn is_field_value_set(&self, field: Field<'e>) -> (r: bool)
        requires
            self.wf(),
            field.wf(),
            field.spec_scheme() == self.spec_scheme(),
        ensures
            r == (self.slots()[field.spec_index()] is Some),
    {
        let idx = field.index();
        self.values[idx].is_some()
    }

    /// Sets a runtime value for a given field name.
    ///
    /// The name is resolved against the associated scheme; by contract the
    /// caller presents only names the scheme declares. When the value's type
    /// equals the field's declared type, the value replaces whatever the
    /// field's slot held and every other slot is untouched. Otherwise
    /// nothing changes and the fault reports both types.
    pub fn set_field_value(&mut self, name: &str, value: LhsValue) -> (r: Result<
        (),
        FieldValueTypeMismatchError,
    >)
        requires
            old(self).wf(),
            old(self).spec_scheme().has_field(name@),
        ensures
            final(self).wf(),
            final(self).spec_scheme() == old(self).spec_scheme(),
            ({
                let i = old(self).spec_scheme().field_index_of(name@);
                let declared = old(self).spec_scheme().type_at(i);
                &&& r is Ok <==> declared == value.get_type()
                &&& r is Ok ==> final(self).slots() == old(self).slots().update(
                    i,
                    Some(value),
                )
                &&& r is Err ==> r->Err_0 == (FieldValueTypeMismatchError {
                    field_type: declared,
                    value_type: value.get_type(),
                }) && *final(self) == *old(self)
            }),
    {
        let scheme_ref = self.scheme;
        let field = scheme_ref.get_field_index(name).unwrap();

        let field_type = field.get_type();
        let value_type = value.get_type();

        if field_type == value_type {
            let idx = field.index();
            self.values.set(idx, Some(value));
            Ok(())
        } else {
            Err(FieldValueTypeMismatchError { field_type, value_type })
        }
    }
}

/// After a successful typed write, the written field's slot holds exactly
/// the written value, so a read of that field returns it unchanged.
pub proof fn lemma_write_then_read(
    pre: ExecutionContext,
    post: ExecutionContext,
    i: int,
    v: LhsValue,
)
    requires
        0 <= i < pre.slots().len(),
        post.slots() == pre.slots().update(i, Some(v)),
    ensures
        post.slots()[i] is Some,
        post.slots()[i] == Some(v),
{
}

/// Writing the same field twice keeps only the second value: the slots after
/// the two writes are exactly the slots after the second write alone, and no
/// trace of the first value remains.
pub proof fn lemma_second_write_wins(
    pre: ExecutionContext,
    mid: ExecutionContext,
    post: ExecutionContext,
    i: int,
    v1: LhsValue,
    v2: LhsValue,
)
    requires
        0 <= i < pre.slots().len(),
        mid.slots() == pre.slots().update(i, Some(v1)),
        post.slots() == mid.slots().update(i, Some(v2)),
    ensures
        post.slots() =~= pre.slots().update(i, Some(v2)),
        post.slots()[i] == Some(v2),
{
}

} // verus!
