//! Descriptor extraction: from a raw type definition to a normalized
//! [`TypeDescriptor`].
//!
//! The extractor is the leaf stage of the pipeline. It accepts exactly one
//! kind of input — a structure, of any field style — and rejects sum types
//! and untagged unions with a [`ShapeError`]. Identifiers and declared types
//! are captured verbatim: no whitespace normalization and no alias
//! resolution happens here, so type equality in the later stages is textual,
//! not semantic.

use vstd::prelude::*;

verus! {

/// How the fields of a product type are written down: with identifiers, by
/// position only, or not at all (a unit structure).
#[derive(Clone, Copy, Debug, PartialEq, Eq)]
pub enum FieldStyle {
    Named,
    Positional,
    Unit,
}

/// A reference to one field, exactly as the field itself is distinguished:
/// by identifier when it has one, by 0-based position otherwise.
#[derive(Debug)]
pub enum FieldRef {
    Identifier(String),
    Position(usize),
}

/// One field of the subject type: its identifier (present exactly for named
/// fields), the textual form of its declared type, and its 0-based position.
#[derive(Debug)]
pub struct FieldDescriptor {
    pub identifier: Option<String>,
    pub declared_type: String,
    pub position: usize,
}

/// The normalized subject of generation: name, generic parameters (opaque to
/// the generator, carried through unmodified), fields in declaration order,
/// and the field style.
#[derive(Debug)]
pub struct TypeDescriptor {
    pub name: String,
    pub generic_parameters: Vec<String>,
    pub fields: Vec<FieldDescriptor>,
    pub field_style: FieldStyle,
}

impl TypeDescriptor {
    /// Well-formedness: positions are exactly the indices, `Unit` style holds
    /// exactly of an empty field list, named fields all carry an identifier
    /// and positional fields carry none.
    pub open spec fn wf(self) -> bool {
        &&& forall|i: int|
            0 <= i < self.fields@.len() ==> (#[trigger] self.fields@[i]).position == i
        &&& (self.field_style is Unit <==> self.fields@.len() == 0)
        &&& self.field_style is Named ==> forall|i: int|
            0 <= i < self.fields@.len() ==> (#[trigger] self.fields@[i]).identifier is Some
        &&& self.field_style is Positional ==> forall|i: int|
            0 <= i < self.fields@.len() ==> (#[trigger] self.fields@[i]).identifier is None
    }
}

/// One field of a raw definition whose fields are named.
#[derive(Debug)]
pub struct RawNamedField {
    pub identifier: String,
    pub declared_type: String,
}

/// The field list of a raw structure definition, in declaration order.
/// Positional fields are given by their declared types alone.
#[derive(Debug)]
pub enum RawFields {
    Named(Vec<RawNamedField>),
    Positional(Vec<String>),
    Unit,
}

/// The shape of a raw type definition. Only structures are product types;
/// the other shapes are rejected by extraction.
#[derive(Debug)]
pub enum RawShape {
    Structure(RawFields),
    Enumeration,
    Union,
}

/// A raw type definition, as the surrounding build step hands it over: the
/// type's name, its generic parameters in textual form, and its shape.
#[derive(Debug)]
pub struct RawTypeDefinition {
    pub name: String,
    pub generic_parameters: Vec<String>,
    pub shape: RawShape,
}

/// The one fatal extraction error: the input is not a structure at all.
#[derive(Debug)]
pub struct ShapeError {
    pub subject_type_name: String,
}

/// How many fields a raw field list declares.
pub open spec fn raw_field_count(rf: RawFields) -> nat {
    match rf {
        RawFields::Named(v) => v@.len(),
        RawFields::Positional(v) => v@.len(),
        RawFields::Unit => 0,
    }
}

/// The declared type text of the raw field at position `i`.
pub open spec fn raw_declared_type(rf: RawFields, i: int) -> Seq<char> {
    match rf {
        RawFields::Named(v) => v@[i].declared_type@,
        RawFields::Positional(v) => v@[i]@,
        RawFields::Unit => Seq::empty(),
    }
}

/// The identifier text of the raw field at position `i`, present exactly
/// when the field list is a named one.
pub open spec fn raw_identifier(rf: RawFields, i: int) -> Option<Seq<char>> {
    match rf {
        RawFields::Named(v) => Some(v@[i].identifier@),
        RawFields::Positional(_) => None,
        RawFields::Unit => None,
    }
}

/// The descriptor fields mirror the raw named fields one for one: same
/// identifier, same declared type, position equal to the index.
pub open spec fn named_fields_extracted(raw: Seq<RawNamedField>, fields: Seq<FieldDescriptor>) -> bool {
    &&& fields.len() == raw.len()
    &&& forall|i: int| 0 <= i < raw.len() ==> {
        &&& (#[trigger] fields[i]).identifier matches Some(id) && id@ == raw[i].identifier@
        &&& fields[i].declared_type@ == raw[i].declared_type@
        &&& fields[i].position == i
    }
}

/// The descriptor fields mirror the raw positional fields one for one: no
/// identifier, same declared type, position equal to the index.
pub open spec fn positional_fields_extracted(raw: Seq<String>, fields: Seq<FieldDescriptor>) -> bool {
    &&& fields.len() == raw.len()
    &&& forall|i: int| 0 <= i < raw.len() ==> {
        &&& (#[trigger] fields[i]).identifier is None
        &&& fields[i].declared_type@ == raw[i]@
        &&& fields[i].position == i
    }
}

/// What extraction owes for a structure: name and generic parameters carried
/// through verbatim, fields captured in order with positions `0..n`, and the
/// style the raw field list had — an empty field list of either bracketed
/// style normalizes to `Unit`, so that `Unit` holds exactly of zero fields.
pub open spec fn extracted_from(raw: RawTypeDefinition, d: TypeDescriptor) -> bool {
    &&& d.name@ == raw.name@
    &&& d.generic_parameters@.len() == raw.generic_parameters@.len()
    &&& forall|i: int|
        0 <= i < raw.generic_parameters@.len()
            ==> (#[trigger] d.generic_parameters@[i])@ == raw.generic_parameters@[i]@
    &&& match raw.shape {
        RawShape::Structure(RawFields::Named(nf)) => {
            &&& named_fields_extracted(nf@, d.fields@)
            &&& d.field_style == (if nf@.len() == 0 { FieldStyle::Unit } else { FieldStyle::Named })
        },
        RawShape::Structure(RawFields::Positional(pf)) => {
            &&& positional_fields_extracted(pf@, d.fields@)
            &&& d.field_style == (if pf@.len() == 0 { FieldStyle::Unit } else { FieldStyle::Positional })
        },
        RawShape::Structure(RawFields::Unit) => {
            &&& d.fields@.len() == 0
            &&& d.field_style == FieldStyle::Unit
        },
        _ => false,
    }
}

impl RawTypeDefinition {
    /// Turns this raw definition into a normalized descriptor, or reports a
    /// [`ShapeError`] when the input is no structure. Pure: identifiers and
    /// declared types are captured verbatim for the later textual comparison.
    pub fn extract(self) -> (r: Result<TypeDescriptor, ShapeError>)
        ensures
            match r {
                Ok(d) => {
                    &&& self.shape is Structure
                    &&& extracted_from(self, d)
                    &&& d.wf()
                },
                Err(e) => {
                    &&& !(self.shape is Structure)
                    &&& e.subject_type_name@ == self.name@
                },
            },
    {
        let RawTypeDefinition { name, generic_parameters, shape } = self;
        match shape {
            RawShape::Structure(raw_fields) => {
                let mut fields: Vec<FieldDescriptor> = Vec::new();
                let field_style: FieldStyle;
                match raw_fields {
                    RawFields::Named(nf) => {
                        field_style = if nf.len() == 0 { FieldStyle::Unit } else { FieldStyle::Named };
                        let mut i: usize = 0;
                        while i < nf.len()
                            invariant
                                i <= nf@.len(),
                                fields@.len() == i,
                                forall|j: int| 0 <= j < i ==> {
                                    &&& (#[trigger] fields@[j]).identifier matches Some(id)
                                        && id@ == nf@[j].identifier@
                                    &&& fields@[j].declared_type@ == nf@[j].declared_type@
                                    &&& fields@[j].position == j
                                },
                            decreases nf@.len() - i,
                        {
                            fields.push(FieldDescriptor {
                                identifier: Some(nf[i].identifier.clone()),
                                declared_type: nf[i].declared_type.clone(),
                                position: i,
                            });
                            i = i + 1;
                        }
                    },
                    RawFields::Positional(pf) => {
                        field_style = if pf.len() == 0 { FieldStyle::Unit } else { FieldStyle::Positional };
                        let mut i: usize = 0;
                        while i < pf.len()
                            invariant
                                i <= pf@.len(),
                                fields@.len() == i,
                                forall|j: int| 0 <= j < i ==> {
                                    &&& (#[trigger] fields@[j]).identifier is None
                                    &&& fields@[j].declared_type@ == pf@[j]@
                                    &&& fields@[j].position == j
                                },
                            decreases pf@.len() - i,
                        {
                            fields.push(FieldDescriptor {
                                identifier: None,
                                declared_type: pf[i].clone(),
                                position: i,
                            });
                            i = i + 1;
                        }
                    },
                    RawFields::Unit => {
                        field_style = FieldStyle::Unit;
                    },
                }
                Ok(TypeDescriptor { name, generic_parameters, fields, field_style })
            },
            RawShape::Enumeration => Err(ShapeError { subject_type_name: name }),
            RawShape::Union => Err(ShapeError { subject_type_name: name }),
        }
    }
}

} // verus!
