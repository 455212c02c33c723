use uniform_array::descriptor::FieldRef;
use uniform_array::descriptor::FieldStyle;
use uniform_array::descriptor::RawFields;
use uniform_array::descriptor::RawNamedField;
use uniform_array::descriptor::RawShape;
use uniform_array::descriptor::RawTypeDefinition;
use uniform_array::synthesis::GenerationConfig;
use uniform_array::synthesis::GenerationError;
use uniform_array::synthesis::generate;
use uniform_array::uniformity::UniformityResult;
use uniform_array::uniformity::validate;

fn named_field(identifier: &str, declared_type: &str) -> RawNamedField {
    RawNamedField {
        identifier: identifier.to_string(),
        declared_type: declared_type.to_string(),
    }
}

fn structure(name: &str, fields: RawFields) -> RawTypeDefinition {
    RawTypeDefinition {
        name: name.to_string(),
        generic_parameters: Vec::new(),
        shape: RawShape::Structure(fields),
    }
}

fn no_gate() -> GenerationConfig {
    GenerationConfig { safety_gate: None, doc_marker: None }
}

#[test]
fn named_mismatch_is_reported_by_name() {
    let raw = structure(
        "Sensor",
        RawFields::Named(vec![
            named_field("a", "F32"),
            named_field("b", "F32"),
            named_field("c", "F32"),
            named_field("d", "U32"),
        ]),
    );
    match generate(raw, no_gate()) {
        Err(GenerationError::Uniformity(diag)) => {
            assert_eq!(diag.subject_type_name, "Sensor");
            assert_eq!(diag.expected_type, "F32");
            assert_eq!(diag.found_type, "U32");
            match &diag.offending_field {
                FieldRef::Identifier(name) => assert_eq!(name, "d"),
                FieldRef::Position(_) => panic!("a named field must be blamed by name"),
            }
        }
        _ => panic!("a mixed-type subject must fail generation"),
    }
}

#[test]
fn positional_mismatch_is_reported_by_position() {
    let raw = structure(
        "Triple",
        RawFields::Positional(vec![
            "I32".to_string(),
            "I64".to_string(),
            "I32".to_string(),
        ]),
    );
    match generate(raw, no_gate()) {
        Err(GenerationError::Uniformity(diag)) => {
            assert_eq!(diag.subject_type_name, "Triple");
            assert_eq!(diag.expected_type, "I32");
            assert_eq!(diag.found_type, "I64");
            match &diag.offending_field {
                FieldRef::Position(p) => assert_eq!(*p, 1),
                FieldRef::Identifier(_) => panic!("a positional field must be blamed by position"),
            }
        }
        _ => panic!("a mixed-type subject must fail generation"),
    }
}

#[test]
fn only_the_first_mismatch_is_reported() {
    let raw = structure(
        "Quad",
        RawFields::Positional(vec![
            "A".to_string(),
            "B".to_string(),
            "C".to_string(),
        ]),
    );
    match generate(raw, no_gate()) {
        Err(GenerationError::Uniformity(diag)) => {
            assert_eq!(diag.found_type, "B");
            match &diag.offending_field {
                FieldRef::Position(p) => assert_eq!(*p, 1),
                FieldRef::Identifier(_) => panic!("a positional field must be blamed by position"),
            }
        }
        _ => panic!("a mixed-type subject must fail generation"),
    }
}

#[test]
fn sum_types_are_rejected() {
    let raw = RawTypeDefinition {
        name: "Choice".to_string(),
        generic_parameters: Vec::new(),
        shape: RawShape::Enumeration,
    };
    match generate(raw, no_gate()) {
        Err(GenerationError::Shape(e)) => assert_eq!(e.subject_type_name, "Choice"),
        _ => panic!("an enumeration must fail extraction"),
    }

    let raw = RawTypeDefinition {
        name: "Raw".to_string(),
        generic_parameters: Vec::new(),
        shape: RawShape::Union,
    };
    match generate(raw, no_gate()) {
        Err(GenerationError::Shape(e)) => assert_eq!(e.subject_type_name, "Raw"),
        _ => panic!("a union must fail extraction"),
    }
}

#[test]
fn uniform_named_subject_generates() {
    let raw = structure(
        "Pair",
        RawFields::Named(vec![named_field("x", "T"), named_field("y", "T")]),
    );
    let config = GenerationConfig {
        safety_gate: Some("unsafest".to_string()),
        doc_marker: Some("docsrs".to_string()),
    };
    let emitted = generate(raw, config).expect("a uniform subject must generate");
    assert_eq!(emitted.subject_name, "Pair");
    assert_eq!(emitted.field_count, 2);
    assert!(!emitted.empty);
    assert_eq!(emitted.element_type.as_deref(), Some("T"));
    assert_eq!(emitted.accessor_arms.len(), 2);
    for (i, arm) in emitted.accessor_arms.iter().enumerate() {
        assert_eq!(arm.index, i);
    }
    match &emitted.accessor_arms[1].field {
        FieldRef::Identifier(name) => assert_eq!(name, "y"),
        FieldRef::Position(_) => panic!("a named field's arm must carry its identifier"),
    }
    let gated = emitted.gated.expect("an active gate must emit the view family");
    assert_eq!(gated.gate_name, "unsafest");
    assert_eq!(gated.doc_marker.as_deref(), Some("docsrs"));
}

#[test]
fn absent_gate_emits_no_view_family() {
    let raw = structure(
        "Pair",
        RawFields::Positional(vec!["I32".to_string(), "I32".to_string()]),
    );
    let emitted = generate(raw, no_gate()).expect("a uniform subject must generate");
    assert!(emitted.gated.is_none());
    assert_eq!(emitted.element_type.as_deref(), Some("I32"));
    match &emitted.accessor_arms[1].field {
        FieldRef::Position(p) => assert_eq!(*p, 1),
        FieldRef::Identifier(_) => panic!("a positional field's arm must carry its position"),
    }
}

#[test]
fn zero_field_subject_generates_trivially() {
    let raw = structure("Nothing", RawFields::Unit);
    let config = GenerationConfig {
        safety_gate: Some("unsafest".to_string()),
        doc_marker: None,
    };
    let emitted = generate(raw, config).expect("a zero-field subject is trivially uniform");
    assert_eq!(emitted.field_count, 0);
    assert!(emitted.empty);
    assert!(emitted.element_type.is_none());
    assert!(emitted.accessor_arms.is_empty());
    // no element type exists for a view to be stated over
    assert!(emitted.gated.is_none());
}

#[test]
fn generic_parameters_are_carried_through() {
    let raw = RawTypeDefinition {
        name: "Wrap".to_string(),
        generic_parameters: vec!["T: Sized".to_string(), "U".to_string()],
        shape: RawShape::Structure(RawFields::Named(vec![
            named_field("first", "T"),
            named_field("second", "T"),
        ])),
    };
    let emitted = generate(raw, no_gate()).expect("a uniform subject must generate");
    assert_eq!(emitted.generic_parameters, vec!["T: Sized".to_string(), "U".to_string()]);
}

#[test]
fn extraction_normalizes_styles() {
    let named = structure("A", RawFields::Named(vec![named_field("x", "T")]));
    let d = named.extract().expect("a structure must extract");
    assert_eq!(d.field_style, FieldStyle::Named);
    assert_eq!(d.fields.len(), 1);
    assert_eq!(d.fields[0].position, 0);
    assert_eq!(d.fields[0].identifier.as_deref(), Some("x"));
    assert_eq!(d.fields[0].declared_type, "T");

    let empty_named = structure("B", RawFields::Named(Vec::new()));
    let d = empty_named.extract().expect("a structure must extract");
    assert_eq!(d.field_style, FieldStyle::Unit);
    assert!(d.fields.is_empty());

    let positional = structure("C", RawFields::Positional(vec!["T".to_string()]));
    let d = positional.extract().expect("a structure must extract");
    assert_eq!(d.field_style, FieldStyle::Positional);
    assert!(d.fields[0].identifier.is_none());

    let unit = structure("D", RawFields::Unit);
    let d = unit.extract().expect("a structure must extract");
    assert_eq!(d.field_style, FieldStyle::Unit);
}

#[test]
fn validation_resolves_the_element_type() {
    let raw = structure(
        "Pair",
        RawFields::Positional(vec!["I32".to_string(), "I32".to_string()]),
    );
    let d = raw.extract().expect("a structure must extract");
    match validate(&d) {
        UniformityResult::Uniform(element) => assert_eq!(element.as_deref(), Some("I32")),
        UniformityResult::Mismatch(_) => panic!("a uniform subject must validate"),
    }

    let unit = structure("Nothing", RawFields::Unit);
    let d = unit.extract().expect("a structure must extract");
    match validate(&d) {
        UniformityResult::Uniform(element) => assert!(element.is_none()),
        UniformityResult::Mismatch(_) => panic!("a zero-field subject is trivially uniform"),
    }
}
