//! Interface synthesis: from a validated descriptor and a generation
//! configuration to the emitted interface, in structured form.
//!
//! The emitted interface always holds the length and emptiness queries and
//! one indexed accessor arm per field. The capability-gated view family is
//! present exactly when a gate is configured and the subject has at least
//! one field (a zero-field subject has no element type for a view to be
//! stated over). The documentation marker is carried through unmodified; it
//! is cosmetic and decides nothing.
//!
//! [`generate`] is the whole pipeline — extract, validate, synthesize — with
//! validation failure short-circuiting synthesis: one request, one result,
//! never a partial interface beside a diagnostic.

use vstd::prelude::*;

use crate::descriptor::FieldDescriptor;
use crate::descriptor::FieldRef;
use crate::descriptor::RawFields;
use crate::descriptor::RawShape;
use crate::descriptor::RawTypeDefinition;
use crate::descriptor::ShapeError;
use crate::descriptor::TypeDescriptor;
use crate::descriptor::extracted_from;
use crate::descriptor::named_fields_extracted;
use crate::descriptor::positional_fields_extracted;
use crate::descriptor::raw_declared_type;
use crate::descriptor::raw_field_count;
use crate::descriptor::raw_identifier;
use crate::uniformity::Diagnostic;
use crate::uniformity::UniformityResult;
use crate::uniformity::diagnoses;
use crate::uniformity::is_uniform;
use crate::uniformity::raw_uniform;
use crate::uniformity::uniform_up_to;
use crate::uniformity::validate;

verus! {

/// The recognized generation options: the name of the build-time capability
/// flag behind which the view family is emitted (absent: the family is not
/// emitted at all), and an optional documentation-build marker with no
/// behavioral effect.
#[derive(Debug)]
pub struct GenerationConfig {
    pub safety_gate: Option<String>,
    pub doc_marker: Option<String>,
}

/// One arm of the emitted indexed accessors: index `index` reads or writes
/// the field `field`.
#[derive(Debug)]
pub struct AccessorArm {
    pub index: usize,
    pub field: FieldRef,
}

/// The view family's description: which build-time capability flag guards
/// it, plus the cosmetic build marker, if one was configured.
#[derive(Debug)]
pub struct GatedOperations {
    pub gate_name: String,
    pub doc_marker: Option<String>,
}

/// The emitted interface in structured form: everything the rendering of
/// the generated source text depends on, and nothing else.
#[derive(Debug)]
pub struct EmittedInterface {
    pub subject_name: String,
    pub generic_parameters: Vec<String>,
    pub field_count: usize,
    pub empty: bool,
    pub element_type: Option<String>,
    pub accessor_arms: Vec<AccessorArm>,
    pub gated: Option<GatedOperations>,
}

/// The arm at index `i` accesses the field `f`: by identifier when the
/// field has one, by position otherwise.
pub open spec fn arm_for(arm: AccessorArm, f: FieldDescriptor, i: int) -> bool {
    &&& arm.index == i
    &&& match f.identifier {
        Some(id) => arm.field matches FieldRef::Identifier(n) && n@ == id@,
        None => arm.field matches FieldRef::Position(p) && p == i,
    }
}

/// Two optional texts agree, compared by contents.
pub open spec fn opt_text_eq(a: Option<String>, b: Option<String>) -> bool {
    match (a, b) {
        (Some(x), Some(y)) => x@ == y@,
        (None, None) => true,
        _ => false,
    }
}

/// What the synthesizer owes: name and generic parameters carried through,
/// the length query's value equal to the field count, emptiness exactly for
/// zero fields, the element type resolved to the first field's declared
/// type (absent exactly for zero fields), one accessor arm per field in
/// position order, and the gated family present exactly when a gate is
/// configured and there is at least one field.
pub open spec fn synthesized_from(d: TypeDescriptor, config: GenerationConfig, e: EmittedInterface) -> bool {
    let n = d.fields@.len();
    &&& e.subject_name@ == d.name@
    &&& e.generic_parameters@.len() == d.generic_parameters@.len()
    &&& forall|i: int|
        0 <= i < d.generic_parameters@.len()
            ==> (#[trigger] e.generic_parameters@[i])@ == d.generic_parameters@[i]@
    &&& e.field_count == n
    &&& e.empty == (n == 0)
    &&& (e.element_type is Some <==> n > 0)
    &&& (e.element_type matches Some(t) ==> t@ == d.fields@[0].declared_type@)
    &&& e.accessor_arms@.len() == n
    &&& forall|i: int| 0 <= i < n ==> arm_for(#[trigger] e.accessor_arms@[i], d.fields@[i], i)
    &&& match config.safety_gate {
        Some(gate) => {
            if n > 0 {
                e.gated matches Some(g) && g.gate_name@ == gate@
                    && opt_text_eq(g.doc_marker, config.doc_marker)
            } else {
                e.gated is None
            }
        },
        None => e.gated is None,
    }
}

/// Emits the structured interface for a descriptor that has passed
/// uniformity validation.
pub fn synthesize(d: &TypeDescriptor, config: GenerationConfig) -> (e: EmittedInterface)
    requires
        is_uniform(*d),
    ensures
        synthesized_from(*d, config, e),
{
    let GenerationConfig { safety_gate, doc_marker } = config;

    let mut generic_parameters: Vec<String> = Vec::new();
    let mut k: usize = 0;
    while k < d.generic_parameters.len()
        invariant
            k <= d.generic_parameters@.len(),
            generic_parameters@.len() == k,
            forall|j: int|
                0 <= j < k
                    ==> (#[trigger] generic_parameters@[j])@ == d.generic_parameters@[j]@,
        decreases d.generic_parameters@.len() - k,
    {
        generic_parameters.push(d.generic_parameters[k].clone());
        k = k + 1;
    }

    let field_count = d.fields.len();
    let empty = field_count == 0;
    let element_type = if field_count > 0 {
        Some(d.fields[0].declared_type.clone())
    } else {
        None
    };

    let mut accessor_arms: Vec<AccessorArm> = Vec::new();
    let mut i: usize = 0;
    while i < d.fields.len()
        invariant
            i <= d.fields@.len(),
            accessor_arms@.len() == i,
            forall|j: int| 0 <= j < i ==> arm_for(#[trigger] accessor_arms@[j], d.fields@[j], j),
        decreases d.fields@.len() - i,
    {
        let field = match &d.fields[i].identifier {
            Some(id) => FieldRef::Identifier(id.clone()),
            None => FieldRef::Position(i),
        };
        accessor_arms.push(AccessorArm { index: i, field });
        i = i + 1;
    }

    let gated = match safety_gate {
        Some(gate_name) => {
            if field_count > 0 {
                Some(GatedOperations { gate_name, doc_marker })
            } else {
                None
            }
        },
        None => None,
    };

    EmittedInterface {
        subject_name: d.name.clone(),
        generic_parameters,
        field_count,
        empty,
        element_type,
        accessor_arms,
        gated,
    }
}

/// A generation request's failure: the input was no product type, or its
/// fields were not uniform. Either way the request ends here; no partial
/// interface accompanies an error.
#[derive(Debug)]
pub enum GenerationError {
    Shape(ShapeError),
    Uniformity(Diagnostic),
}

/// The identifier's text, when there is one.
pub open spec fn identifier_text(o: Option<String>) -> Option<Seq<char>> {
    match o {
        Some(s) => Some(s@),
        None => None,
    }
}

/// The diagnostic blames exactly the raw field at position `i`: the subject
/// type's name, the first raw field's type as expected, that field's type
/// as found, and the field referred to by identifier when the raw list is a
/// named one, by position otherwise.
pub open spec fn raw_diagnoses(diag: Diagnostic, raw: RawTypeDefinition, rf: RawFields, i: int) -> bool {
    &&& diag.subject_type_name@ == raw.name@
    &&& diag.expected_type@ == raw_declared_type(rf, 0)
    &&& diag.found_type@ == raw_declared_type(rf, i)
    &&& match raw_identifier(rf, i) {
        Some(id) => diag.offending_field matches FieldRef::Identifier(n) && n@ == id,
        None => diag.offending_field matches FieldRef::Position(p) && p == i,
    }
}

/// What a successful generation request owes, stated of the raw input
/// alone: the same carried-through name and generic parameters, length and
/// emptiness values from the raw field count, the element type from the
/// first raw field, one accessor arm per raw field, and the gated family
/// present exactly when a gate is configured and there is a field.
pub open spec fn emitted_for(raw: RawTypeDefinition, rf: RawFields, config: GenerationConfig, e: EmittedInterface) -> bool {
    let n = raw_field_count(rf);
    &&& e.subject_name@ == raw.name@
    &&& e.generic_parameters@.len() == raw.generic_parameters@.len()
    &&& forall|i: int|
        0 <= i < raw.generic_parameters@.len()
            ==> (#[trigger] e.generic_parameters@[i])@ == raw.generic_parameters@[i]@
    &&& e.field_count == n
    &&& e.empty == (n == 0)
    &&& (e.element_type is Some <==> n > 0)
    &&& (e.element_type matches Some(t) ==> t@ == raw_declared_type(rf, 0))
    &&& e.accessor_arms@.len() == n
    &&& forall|i: int| 0 <= i < n ==> {
        &&& (#[trigger] e.accessor_arms@[i]).index == i
        &&& match raw_identifier(rf, i) {
            Some(id) => e.accessor_arms@[i].field matches FieldRef::Identifier(nm) && nm@ == id,
            None => e.accessor_arms@[i].field matches FieldRef::Position(p) && p == i,
        }
    }
    &&& match config.safety_gate {
        Some(gate) => {
            if n > 0 {
                e.gated matches Some(g) && g.gate_name@ == gate@
                    && opt_text_eq(g.doc_marker, config.doc_marker)
            } else {
                e.gated is None
            }
        },
        None => e.gated is None,
    }
}

/// A descriptor extracted from a structure mirrors the raw field list:
/// same count, same declared type texts, same identifier-or-position
/// distinction, field by field.
proof fn lemma_field_correspondence(raw: RawTypeDefinition, rf: RawFields, d: TypeDescriptor)
    requires
        raw.shape == RawShape::Structure(rf),
        extracted_from(raw, d),
    ensures
        d.fields@.len() == raw_field_count(rf),
        forall|i: int|
            0 <= i < raw_field_count(rf)
                ==> #[trigger] raw_declared_type(rf, i) == d.fields@[i].declared_type@,
        forall|i: int|
            0 <= i < raw_field_count(rf)
                ==> #[trigger] raw_identifier(rf, i) == identifier_text(d.fields@[i].identifier),
{
    match rf {
        RawFields::Named(v) => {
            assert(named_fields_extracted(v@, d.fields@));
            assert forall|i: int| 0 <= i < raw_field_count(rf)
                implies #[trigger] raw_declared_type(rf, i) == d.fields@[i].declared_type@
                    && raw_identifier(rf, i) == identifier_text(d.fields@[i].identifier) by {
                assert(d.fields@[i].declared_type@ == v@[i].declared_type@);
            }
        },
        RawFields::Positional(v) => {
            assert(positional_fields_extracted(v@, d.fields@));
            assert forall|i: int| 0 <= i < raw_field_count(rf)
                implies #[trigger] raw_declared_type(rf, i) == d.fields@[i].declared_type@
                    && raw_identifier(rf, i) == identifier_text(d.fields@[i].identifier) by {
                assert(d.fields@[i].declared_type@ == v@[i]@);
            }
        },
        RawFields::Unit => {
        },
    }
}

/// One complete generation request: extract the descriptor, validate
/// uniformity, synthesize the interface — a straight-line pipeline in which
/// a validation failure short-circuits synthesis. Returns the structured
/// interface exactly when the input is a structure whose fields all share
/// the first field's declared type; otherwise the one diagnostic that ended
/// the request.
pub fn generate(raw: RawTypeDefinition, config: GenerationConfig) -> (r: Result<EmittedInterface, GenerationError>)
    ensures
        match r {
            Ok(e) => raw.shape matches RawShape::Structure(rf) && raw_uniform(rf)
                && emitted_for(raw, rf, config, e),
            Err(GenerationError::Shape(s)) => !(raw.shape is Structure)
                && s.subject_type_name@ == raw.name@,
            Err(GenerationError::Uniformity(diag)) => raw.shape matches RawShape::Structure(rf)
                && exists|i: int| {
                    &&& 0 < i < raw_field_count(rf)
                    &&& raw_declared_type(rf, i) != raw_declared_type(rf, 0)
                    &&& forall|j: int|
                        0 <= j < i ==> #[trigger] raw_declared_type(rf, j) == raw_declared_type(rf, 0)
                    &&& #[trigger] raw_diagnoses(diag, raw, rf, i)
                },
        },
{
    let ghost raw0 = raw;
    let d = match raw.extract() {
        Ok(d) => d,
        Err(s) => {
            return Err(GenerationError::Shape(s));
        },
    };
    let ghost rf = (match raw0.shape {
        RawShape::Structure(rf_) => rf_,
        _ => arbitrary(),
    });
    proof {
        lemma_field_correspondence(raw0, rf, d);
    }
    match validate(&d) {
        UniformityResult::Mismatch(diag) => {
            proof {
                let i = choose|i: int| {
                    &&& 0 < i < d.fields@.len()
                    &&& (#[trigger] d.fields@[i]).declared_type@ != d.fields@[0].declared_type@
                    &&& uniform_up_to(d.fields@, i)
                    &&& diagnoses(diag, *(&d), i)
                };
                assert(raw_declared_type(rf, i) == d.fields@[i].declared_type@);
                assert(raw_declared_type(rf, 0) == d.fields@[0].declared_type@);
                assert forall|j: int| 0 <= j < i
                    implies #[trigger] raw_declared_type(rf, j) == raw_declared_type(rf, 0) by {
                    assert(d.fields@[j].declared_type@ == d.fields@[0].declared_type@);
                }
                assert(raw_diagnoses(diag, raw0, rf, i));
            }
            Err(GenerationError::Uniformity(diag))
        },
        UniformityResult::Uniform(_) => {
            let e = synthesize(&d, config);
            proof {
                assert forall|i: int| 0 <= i < raw_field_count(rf)
                    implies #[trigger] raw_declared_type(rf, i) == raw_declared_type(rf, 0) by {
                    assert(d.fields@[i].declared_type@ == d.fields@[0].declared_type@);
                }
                assert(raw_uniform(rf));
                assert forall|i: int| 0 <= i < raw_field_count(rf) implies {
                    &&& (#[trigger] e.accessor_arms@[i]).index == i
                    &&& match raw_identifier(rf, i) {
                        Some(id) => e.accessor_arms@[i].field matches FieldRef::Identifier(nm)
                            && nm@ == id,
                        None => e.accessor_arms@[i].field matches FieldRef::Position(p) && p == i,
                    }
                } by {
                    assert(arm_for(e.accessor_arms@[i], d.fields@[i], i));
                    assert(raw_identifier(rf, i) == identifier_text(d.fields@[i].identifier));
                }
                if raw_field_count(rf) > 0 {
                    assert(raw_declared_type(rf, 0) == d.fields@[0].declared_type@);
                }
                assert(emitted_for(raw0, rf, config, e));
            }
            Ok(e)
        },
    }
}

} // verus!

