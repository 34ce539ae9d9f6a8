use greedy_enum::codegen::{generate, GenError};
use greedy_enum::decl::{Fields, TypeBody, TypeDecl, Variant};

fn variant(name: &str, fields: Fields) -> Variant {
    Variant {
        name: name.to_string(),
        fields,
    }
}

fn value_decl() -> TypeDecl {
    TypeDecl {
        name: "Value".to_string(),
        body: TypeBody::Enum(vec![
            variant("Point", Fields::Unnamed(vec!["Point".to_string()])),
            variant("Num", Fields::Unnamed(vec!["f64".to_string()])),
        ]),
    }
}

#[test]
fn emits_one_attempt_per_variant_in_order() {
    let code = generate(&value_decl()).unwrap();
    let expected = "impl ::std::str::FromStr for Value {\n    type Err = ::greedy_enum::ParseError;\n\n    fn from_str(s: &str) -> Result<Self, Self::Err> {\n        if let Ok(parsed) = <Point as ::std::str::FromStr>::from_str(s) {\n            return Ok(Value::Point(parsed));\n        }\n        if let Ok(parsed) = <f64 as ::std::str::FromStr>::from_str(s) {\n            return Ok(Value::Num(parsed));\n        }\n        Err(::greedy_enum::ParseError { span: s.to_string() })\n    }\n}\n";
    assert_eq!(code, expected);
}

#[test]
fn reordered_variants_swap_the_attempts() {
    let swapped = TypeDecl {
        name: "Value".to_string(),
        body: TypeBody::Enum(vec![
            variant("Num", Fields::Unnamed(vec!["f64".to_string()])),
            variant("Point", Fields::Unnamed(vec!["Point".to_string()])),
        ]),
    };
    let code = generate(&swapped).unwrap();
    let num = code.find("Value::Num(parsed)").unwrap();
    let point = code.find("Value::Point(parsed)").unwrap();
    assert!(num < point);
}

#[test]
fn empty_enum_generates_only_the_error_return() {
    let empty = TypeDecl {
        name: "Never".to_string(),
        body: TypeBody::Enum(vec![]),
    };
    let code = generate(&empty).unwrap();
    assert!(!code.contains("if let Ok(parsed)"));
    assert!(code.contains("Err(::greedy_enum::ParseError { span: s.to_string() })"));
}

#[test]
fn rejects_a_struct() {
    let d = TypeDecl {
        name: "P".to_string(),
        body: TypeBody::Struct,
    };
    let e = generate(&d).unwrap_err();
    assert!(matches!(e, GenError::NotAnEnum));
    assert_eq!(e.message(), "FromStr can only be implemented for enum");
}

#[test]
fn rejects_a_union() {
    let d = TypeDecl {
        name: "U".to_string(),
        body: TypeBody::Union,
    };
    let e = generate(&d).unwrap_err();
    assert!(matches!(e, GenError::NotAnEnum));
}

#[test]
fn rejects_a_variant_with_named_fields() {
    let d = TypeDecl {
        name: "E".to_string(),
        body: TypeBody::Enum(vec![variant("A", Fields::Named)]),
    };
    let e = generate(&d).unwrap_err();
    assert!(matches!(e, GenError::BadVariant));
    assert_eq!(
        e.message(),
        "FromStr can only be implemented for enums with exactly one unnamed field per variant"
    );
}

#[test]
fn rejects_a_unit_variant() {
    let d = TypeDecl {
        name: "E".to_string(),
        body: TypeBody::Enum(vec![
            variant("A", Fields::Unnamed(vec!["u32".to_string()])),
            variant("B", Fields::Unit),
        ]),
    };
    let e = generate(&d).unwrap_err();
    assert!(matches!(e, GenError::BadVariant));
}

#[test]
fn rejects_a_variant_with_two_unnamed_fields() {
    let d = TypeDecl {
        name: "E".to_string(),
        body: TypeBody::Enum(vec![variant(
            "A",
            Fields::Unnamed(vec!["u32".to_string(), "u32".to_string()]),
        )]),
    };
    let e = generate(&d).unwrap_err();
    assert!(matches!(e, GenError::BadVariant));
}
