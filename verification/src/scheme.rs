//! The immutable field catalog that binding tables are scoped to, and the
//! resolved field handles it hands out.

use vstd::prelude::*;

use crate::types::Type;

verus! {

/// One field declaration inside a [`Scheme`]: a name and a declared type.
struct FieldDecl {
    name: String,
    ty: Type,
}

/// An immutable catalog of field declarations, each with a unique name, a
/// stable numeric index (its position in declaration order) and a declared
/// [`Type`]. A scheme is built once, then shared read-only by every binding
/// table and evaluation that refers to its fields.
pub struct Scheme {
    fields: Vec<FieldDecl>,
}

/// A resolved reference to one field of one [`Scheme`]: it carries the
/// field's index together with the scheme it was resolved from, and is
/// meaningless against any other scheme.
#[derive(Clone, Copy)]
pub struct Field<'s> {
    scheme: &'s Scheme,
    index: usize,
}

impl Scheme {
    /// The number of declared fields.
    pub closed spec fn num_fields(&self) -> int {
        self.fields@.len() as int
    }

    /// The name of the field at index `i`.
    pub closed spec fn name_at(&self, i: int) -> Seq<char> {
        self.fields@[i].name@
    }

    /// The declared type of the field at index `i`.
    pub closed spec fn type_at(&self, i: int) -> Type {
        self.fields@[i].ty
    }

    /// Whether some field is declared under `name`.
    pub open spec fn has_field(&self, name: Seq<char>) -> bool {
        exists|i: int| 0 <= i < self.num_fields() && self.name_at(i) == name
    }

    /// The index of the field declared under `name`; meaningful only when
    /// `has_field(name)` holds, and then unique by `wf()`.
    pub open spec fn field_index_of(&self, name: Seq<char>) -> int {
        choose|i: int| 0 <= i < self.num_fields() && self.name_at(i) == name
    }

    /// Well-formedness: no two fields share a name, so a name resolves to at
    /// most one index.
    pub open spec fn wf(&self) -> bool {
        forall|i: int, j: int|
            0 <= i < j < self.num_fields() ==> self.name_at(i) != self.name_at(j)
    }

    /// Creates an empty scheme with no declared fields.
    pub fn new() -> (r: Scheme)
        ensures
            r.wf(),
            r.num_fields() == 0,
    {
        Scheme { fields: Vec::new() }
    }

    /// Declares a new field under `name` with declared type `ty`, giving it
    /// the next free index. Returns `true` on success and `false`, leaving
    /// the scheme unchanged, when `name` is already taken.
    pub fn add_field(&mut self, name: String, ty: Type) -> (r: bool)
        requires
            old(self).wf(),
        ensures
            final(self).wf(),
            r == !old(self).has_field(name@),
            final(self).has_field(name@),
            !r ==> *final(self) == *old(self),
            r ==> final(self).num_fields() == old(self).num_fields() + 1
                && final(self).name_at(old(self).num_fields()) == name@
                && final(self).type_at(old(self).num_fields()) == ty
                && (forall|i: int|
                    0 <= i < old(self).num_fields()
                        ==> final(self).name_at(i) == old(self).name_at(i)
                        && final(self).type_at(i) == old(self).type_at(i)),
    {
        let taken = self.get_field_index(name.as_str()).is_some();
        if taken {
            false
        } else {
            self.fields.push(FieldDecl { name, ty });
            proof {
                let n0 = old(self).num_fields();
                assert(self.name_at(n0) == name@);
                assert forall|i: int, j: int|
                    0 <= i < j < self.num_fields() implies self.name_at(i) != self.name_at(
                    j,
                ) by {
                    if j < n0 {
                        assert(old(self).name_at(i) != old(self).name_at(j));
                    } else {
                        assert(self.name_at(i) == old(self).name_at(i));
                        assert(!old(self).has_field(name@));
                    }
                }
            }
            true
        }
    }

    /// The number of declared fields; binding tables allocate one slot per
    /// field.
    pub fn get_field_count(&self) -> (r: usize)
        ensures
            r == self.num_fields(),
    {
        self.fields.len()
    }

    /// Resolves `name` to a field handle by scanning the declarations.
    /// Returns `None` exactly when no field is declared under `name`.
    pub fn get_field_index<'s>(&'s self, name: &str) -> (r: Option<Field<'s>>)
        requires
            self.wf(),
        ensures
            r is Some <==> self.has_field(name@),
            r is Some ==> {
                let f = r->0;
                f.wf() && f.spec_scheme() == *self && f.spec_index() == self.field_index_of(
                    name@,
                ) && self.name_at(f.spec_index()) == name@
            },
    {
        let name_owned: String = name.to_owned();
        let n = self.fields.len();
        let mut i: usize = 0;
        while i < n
            invariant
                self.wf(),
                n == self.num_fields(),
                0 <= i <= n,
                name_owned@ == name@,
                forall|j: int| 0 <= j < i ==> self.name_at(j) != name@,
            decreases n - i,
        {
            if self.fields[i].name == name_owned {
                proof {
                    assert(self.name_at(i as int) == name@);
                    let k = self.field_index_of(name@);
                    assert(0 <= k < self.num_fields() && self.name_at(k) == name@);
                    assert(k == i as int);
                }
                return Some(Field { scheme: self, index: i });
            }
            i += 1;
        }
        None
    }
}

impl<'s> Field<'s> {
    /// The scheme this handle was resolved from.
    pub closed spec fn spec_scheme(&self) -> Scheme {
        *self.scheme
    }

    /// The index of the referenced field within its scheme.
    pub closed spec fn spec_index(&self) -> int {
        self.index as int
    }

    /// The declared type of the referenced field.
    pub open spec fn spec_type(&self) -> Type {
        self.spec_scheme().type_at(self.spec_index())
    }

    /// The declared name of the referenced field.
    pub open spec fn spec_name(&self) -> Seq<char> {
        self.spec_scheme().name_at(self.spec_index())
    }

    /// Well-formedness: the handle's scheme is well-formed and the index
    /// points at one of its fields.
    pub open spec fn wf(&self) -> bool {
        self.spec_scheme().wf() && 0 <= self.spec_index() < self.spec_scheme().num_fields()
    }

    /// Returns the field's index within its scheme.
    pub fn index(&self) -> (r: usize)
        ensures
            r == self.spec_index(),
    {
        self.index
    }

    /// Returns the field's declared type.
    pub fn get_type(&self) -> (r: Type)
        requires
            self.wf(),
        ensures
            r == self.spec_type(),
    {
        self.scheme.fields[self.index].ty
    }

    /// Returns the field's declared name.
    pub fn name(&self) -> (r: &'s str)
        requires
            self.wf(),
        ensures
            r@ == self.spec_name(),
    {
        self.scheme.fields[self.index].name.as_str()
    }

    /// Returns the scheme this handle was resolved from.
    pub fn scheme(&self) -> (r: &'s Scheme)
        ensures
            *r == self.spec_scheme(),
    {
        self.scheme
    }
}

} // verus!
