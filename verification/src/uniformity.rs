//! Uniformity validation: every field must share the first field's declared
//! type.
//!
//! The comparison is textual/structural, exactly as the declared types were
//! captured: a type alias and its expansion do not compare equal. A failure
//! is a structured [`Diagnostic`], never a free-form string, and only the
//! first mismatch in position order is reported, so a diagnostic is
//! deterministic and single-cause.

use vstd::prelude::*;

use crate::descriptor::FieldDescriptor;
use crate::descriptor::FieldRef;
use crate::descriptor::RawFields;
use crate::descriptor::TypeDescriptor;
use crate::descriptor::raw_declared_type;
use crate::descriptor::raw_field_count;

verus! {

/// A structured uniformity error: the subject type's name, the expected
/// element type (the first field's), the offending field's type, and the
/// offending field itself, by identifier or by position exactly as that
/// field is written.
#[derive(Debug)]
pub struct Diagnostic {
    pub subject_type_name: String,
    pub expected_type: String,
    pub found_type: String,
    pub offending_field: FieldRef,
}

/// Outcome of validation: the resolved element type (absent exactly for a
/// zero-field subject, which is trivially uniform and has no element type to
/// reference), or the diagnostic for the first mismatching field.
#[derive(Debug)]
pub enum UniformityResult {
    Uniform(Option<String>),
    Mismatch(Diagnostic),
}

/// All fields at positions strictly below `n` share the first field's
/// declared type.
pub open spec fn uniform_up_to(fields: Seq<FieldDescriptor>, n: int) -> bool {
    forall|i: int|
        0 <= i < n ==> (#[trigger] fields[i]).declared_type@ == fields[0].declared_type@
}

/// Every field shares the first field's declared type; trivially true of an
/// empty field list.
pub open spec fn is_uniform(d: TypeDescriptor) -> bool {
    uniform_up_to(d.fields@, d.fields@.len() as int)
}

/// Uniformity stated of a raw field list: every declared type text equals
/// the first one; trivially true of an empty field list.
pub open spec fn raw_uniform(rf: RawFields) -> bool {
    forall|i: int|
        0 <= i < raw_field_count(rf)
            ==> #[trigger] raw_declared_type(rf, i) == raw_declared_type(rf, 0)
}

/// The diagnostic blames exactly the field of `d` at position `i`: subject
/// name, first field's type as expected, that field's type as found, and the
/// field referred to by identifier when it has one, by position otherwise.
pub open spec fn diagnoses(diag: Diagnostic, d: TypeDescriptor, i: int) -> bool {
    &&& diag.subject_type_name@ == d.name@
    &&& diag.expected_type@ == d.fields@[0].declared_type@
    &&& diag.found_type@ == d.fields@[i].declared_type@
    &&& match d.fields@[i].identifier {
        Some(id) => diag.offending_field matches FieldRef::Identifier(n) && n@ == id@,
        None => diag.offending_field matches FieldRef::Position(p) && p == i,
    }
}

/// At most one position can be the first mismatch — a position that
/// disagrees with the first field's type while every earlier position
/// agrees — so a diagnostic is deterministic and single-cause even when
/// several fields disagree.
pub proof fn lemma_first_mismatch_unique(fields: Seq<FieldDescriptor>, i: int, j: int)
    requires
        0 < i < fields.len(),
        fields[i].declared_type@ != fields[0].declared_type@,
        uniform_up_to(fields, i),
        0 < j < fields.len(),
        fields[j].declared_type@ != fields[0].declared_type@,
        uniform_up_to(fields, j),
    ensures
        i == j,
{
    if i < j {
        assert(fields[i].declared_type@ == fields[0].declared_type@);
    }
    if j < i {
        assert(fields[j].declared_type@ == fields[0].declared_type@);
    }
}

/// Walks the fields in ascending position order; reports the first field
/// whose declared type differs textually from the first field's, or the
/// resolved element type when all of them agree.
pub fn validate(d: &TypeDescriptor) -> (r: UniformityResult)
    ensures
        is_uniform(*d) <==> r is Uniform,
        match r {
            UniformityResult::Uniform(element) => {
                &&& element is Some <==> d.fields@.len() > 0
                &&& element matches Some(t) ==> t@ == d.fields@[0].declared_type@
            },
            UniformityResult::Mismatch(diag) => exists|i: int| {
                &&& 0 < i < d.fields@.len()
                &&& (#[trigger] d.fields@[i]).declared_type@ != d.fields@[0].declared_type@
                &&& uniform_up_to(d.fields@, i)
                &&& diagnoses(diag, *d, i)
            },
        },
{
    if d.fields.len() == 0 {
        return UniformityResult::Uniform(None);
    }
    let expected = &d.fields[0].declared_type;
    let mut i: usize = 1;
    while i < d.fields.len()
        invariant
            1 <= i <= d.fields@.len(),
            expected@ == d.fields@[0].declared_type@,
            uniform_up_to(d.fields@, i as int),
        decreases d.fields@.len() - i,
    {
        let found = &d.fields[i].declared_type;
        if !expected.eq(found) {
            let offending_field = match &d.fields[i].identifier {
                Some(id) => FieldRef::Identifier(id.clone()),
                None => FieldRef::Position(i),
            };
            let diag = Diagnostic {
                subject_type_name: d.name.clone(),
                expected_type: expected.clone(),
                found_type: found.clone(),
                offending_field,
            };
            proof {
                assert(diagnoses(diag, *d, i as int));
            }
            return UniformityResult::Mismatch(diag);
        }
        i = i + 1;
    }
    UniformityResult::Uniform(Some(expected.clone()))
}

} // verus!
