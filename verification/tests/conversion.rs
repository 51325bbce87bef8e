use fact_gen::ast::{
    DeclaredType, FieldGroup, GenericsDecl, NamedField, TypeBody, TypeDeclaration, VariantDecl,
};
use fact_gen::convert::{convert, FactValue, FieldValue, ValueBody};
use fact_gen::errors::{ConversionError, GenError};
use fact_gen::generate::{generate, Conversion, ConversionBody};
use fact_gen::names::transform_name;
use fact_gen::plan::{ArgOp, FieldId, PlanCtor};
use fact_gen::term::Term;

fn s(x: &str) -> String {
    x.to_string()
}

fn no_generics() -> GenericsDecl {
    GenericsDecl { params: vec![], constraints: vec![] }
}

fn struct_decl(name: &str, group: FieldGroup) -> TypeDeclaration {
    TypeDeclaration { name: s(name), generics: no_generics(), body: TypeBody::StructBody(group) }
}

fn enum_decl(name: &str, variants: Vec<VariantDecl>) -> TypeDeclaration {
    TypeDeclaration {
        name: s(name),
        generics: no_generics(),
        body: TypeBody::EnumBody(variants),
    }
}

fn named(name: &str, ty: DeclaredType) -> NamedField {
    NamedField { name: s(name), ty }
}

fn i32_ty() -> DeclaredType {
    DeclaredType::Primitive { bits: 32, signed: true }
}

fn record(decl: TypeDeclaration, fields: Vec<FieldValue>) -> FactValue {
    FactValue { decl, body: ValueBody::RecordValue(fields) }
}

fn case(decl: TypeDeclaration, variant: &str, fields: Vec<FieldValue>) -> FactValue {
    FactValue { decl, body: ValueBody::CaseValue { variant: s(variant), fields } }
}

fn expect_number(t: &Term, expected: i32) {
    match t {
        Term::NumberTerm(v) => assert_eq!(*v, expected),
        other => panic!("expected a number term, got {:?}", other),
    }
}

fn expect_text(t: &Term, expected: &str) {
    match t {
        Term::TextTerm(v) => assert_eq!(v, expected),
        other => panic!("expected a text term, got {:?}", other),
    }
}

#[test]
fn unit_struct_yields_atom() {
    let decl = struct_decl("Flag", FieldGroup::Unit);
    let conv = generate(&decl).expect("a unit struct must generate");
    match &conv.body {
        ConversionBody::SingleBody(plan) => {
            assert_eq!(plan.steps.len(), 0);
            match &plan.ctor {
                PlanCtor::IdCtor { name, positive } => {
                    assert_eq!(name, "flag");
                    assert!(*positive);
                },
                other => panic!("expected an atomic constructor, got {:?}", other),
            }
        },
        other => panic!("expected a single plan, got {:?}", other),
    }
    let fv = record(struct_decl("Flag", FieldGroup::Unit), vec![]);
    match convert(&fv) {
        Ok(Term::IdTerm { name, positive }) => {
            assert_eq!(name, "flag");
            assert!(positive);
        },
        other => panic!("expected an atomic identifier, got {:?}", other),
    }
}

#[test]
fn named_fields_in_declared_order() {
    let decl = struct_decl(
        "Foo",
        FieldGroup::NamedFields(vec![
            named("a", i32_ty()),
            named("b", DeclaredType::StringType),
        ]),
    );
    let fv = record(decl, vec![FieldValue::NumValue(3), FieldValue::TextValue(s("x"))]);
    match convert(&fv) {
        Ok(Term::FunctionTerm { name, args, positive }) => {
            assert_eq!(name, "foo");
            assert!(positive);
            assert_eq!(args.len(), 2);
            expect_number(&args[0], 3);
            expect_text(&args[1], "x");
        },
        other => panic!("expected a function term, got {:?}", other),
    }
}

fn color_decl() -> TypeDeclaration {
    enum_decl(
        "Color",
        vec![
            VariantDecl { name: s("Red"), group: FieldGroup::Unit },
            VariantDecl {
                name: s("Custom"),
                group: FieldGroup::UnnamedFields(vec![i32_ty(), i32_ty(), i32_ty()]),
            },
        ],
    )
}

#[test]
fn enum_dispatch_unit_variant() {
    let fv = case(color_decl(), "Red", vec![]);
    match convert(&fv) {
        Ok(Term::IdTerm { name, positive }) => {
            assert_eq!(name, "red");
            assert!(positive);
        },
        other => panic!("expected an atomic identifier, got {:?}", other),
    }
}

#[test]
fn enum_dispatch_fielded_variant() {
    let fv = case(
        color_decl(),
        "Custom",
        vec![FieldValue::NumValue(1), FieldValue::NumValue(2), FieldValue::NumValue(3)],
    );
    match convert(&fv) {
        Ok(Term::FunctionTerm { name, args, positive }) => {
            assert_eq!(name, "custom");
            assert!(positive);
            assert_eq!(args.len(), 3);
            expect_number(&args[0], 1);
            expect_number(&args[1], 2);
            expect_number(&args[2], 3);
        },
        other => panic!("expected a function term, got {:?}", other),
    }
}

#[test]
fn unknown_variant_is_a_fatal_defect() {
    let fv = case(color_decl(), "Blue", vec![]);
    match convert(&fv) {
        Err(ConversionError::UnknownVariant { decl_name, variant }) => {
            assert_eq!(decl_name, "Color");
            assert_eq!(variant, "Blue");
        },
        other => panic!("expected the unknown-variant defect, got {:?}", other),
    }
}

#[test]
fn wide_integer_fails_generation() {
    let decl = struct_decl(
        "Wide",
        FieldGroup::NamedFields(vec![named(
            "big",
            DeclaredType::Primitive { bits: 64, signed: false },
        )]),
    );
    match generate(&decl) {
        Err(GenError::WidthOverflow(site)) => {
            assert_eq!(site.decl_name, "Wide");
            assert!(site.variant.is_none());
            assert!(matches!(&site.field, FieldId::FieldName(n) if n == "big"));
        },
        other => panic!("expected a width overflow, got {:?}", other),
    }
}

#[test]
fn wide_integer_fails_whatever_the_value() {
    let decl = struct_decl(
        "Wide",
        FieldGroup::UnnamedFields(vec![DeclaredType::Primitive { bits: 128, signed: true }]),
    );
    let fv = record(decl, vec![FieldValue::NumValue(0)]);
    match convert(&fv) {
        Err(ConversionError::NotGenerated(GenError::WidthOverflow(site))) => {
            assert!(matches!(site.field, FieldId::FieldIndex(0)));
        },
        other => panic!("expected a width overflow, got {:?}", other),
    }
}

#[test]
fn wide_integer_fails_in_enum_variant() {
    let decl = enum_decl(
        "Msg",
        vec![
            VariantDecl { name: s("Ping"), group: FieldGroup::Unit },
            VariantDecl {
                name: s("Stamp"),
                group: FieldGroup::NamedFields(vec![named(
                    "at",
                    DeclaredType::Primitive { bits: 64, signed: false },
                )]),
            },
        ],
    );
    match generate(&decl) {
        Err(GenError::WidthOverflow(site)) => {
            assert_eq!(site.decl_name, "Msg");
            assert_eq!(site.variant.as_deref(), Some("Stamp"));
            assert!(matches!(&site.field, FieldId::FieldName(n) if n == "at"));
        },
        other => panic!("expected a width overflow, got {:?}", other),
    }
}

#[test]
fn first_faulting_field_names_the_error() {
    let decl = struct_decl(
        "Mixed",
        FieldGroup::UnnamedFields(vec![
            DeclaredType::Primitive { bits: 64, signed: true },
            DeclaredType::Unsupported,
        ]),
    );
    match generate(&decl) {
        Err(GenError::WidthOverflow(site)) => {
            assert!(matches!(site.field, FieldId::FieldIndex(0)));
        },
        other => panic!("expected the first field's width overflow, got {:?}", other),
    }
}

#[test]
fn unsupported_type_fails_generation() {
    let decl = struct_decl(
        "Odd",
        FieldGroup::NamedFields(vec![named("f", DeclaredType::Unsupported)]),
    );
    match generate(&decl) {
        Err(GenError::UnsupportedType(site)) => {
            assert_eq!(site.decl_name, "Odd");
            assert!(matches!(&site.field, FieldId::FieldName(n) if n == "f"));
        },
        other => panic!("expected an unsupported-type error, got {:?}", other),
    }
}

#[test]
fn reference_encodes_like_the_direct_type() {
    let direct = struct_decl("Cell", FieldGroup::UnnamedFields(vec![i32_ty()]));
    let behind_ref = struct_decl(
        "Cell",
        FieldGroup::UnnamedFields(vec![DeclaredType::ReferenceType(Box::new(i32_ty()))]),
    );
    let t1 = convert(&record(direct, vec![FieldValue::NumValue(7)])).expect("direct converts");
    let t2 = convert(&record(behind_ref, vec![FieldValue::NumValue(7)])).expect(
        "reference converts",
    );
    assert_eq!(format!("{:?}", t1), format!("{:?}", t2));
}

#[test]
fn reference_does_not_hide_a_wide_integer() {
    let decl = struct_decl(
        "Hidden",
        FieldGroup::UnnamedFields(vec![DeclaredType::ReferenceType(Box::new(
            DeclaredType::Primitive { bits: 64, signed: false },
        ))]),
    );
    assert!(matches!(generate(&decl), Err(GenError::WidthOverflow(_))));
}

fn inner_decl() -> TypeDeclaration {
    struct_decl("Inner", FieldGroup::NamedFields(vec![named("x", i32_ty())]))
}

#[test]
fn nested_field_holds_the_sub_terms_own_conversion() {
    let standalone = convert(&record(inner_decl(), vec![FieldValue::NumValue(5)])).expect(
        "the inner value converts in isolation",
    );
    let outer = struct_decl(
        "Outer",
        FieldGroup::NamedFields(vec![named("kid", DeclaredType::CompositeType(s("Inner")))]),
    );
    let fv = record(
        outer,
        vec![FieldValue::NestedValue(Box::new(record(
            inner_decl(),
            vec![FieldValue::NumValue(5)],
        )))],
    );
    match convert(&fv) {
        Ok(Term::FunctionTerm { name, args, .. }) => {
            assert_eq!(name, "outer");
            assert_eq!(args.len(), 1);
            assert_eq!(format!("{:?}", args[0]), format!("{:?}", standalone));
        },
        other => panic!("expected a function term, got {:?}", other),
    }
}

#[test]
fn tuple_field_delegates_like_a_composite() {
    let decl = struct_decl(
        "Wrap",
        FieldGroup::UnnamedFields(vec![DeclaredType::TupleType(vec![i32_ty(), i32_ty()])]),
    );
    let conv = generate(&decl).expect("a tuple field generates");
    match &conv.body {
        ConversionBody::SingleBody(plan) => assert!(matches!(plan.steps[0], ArgOp::Nested)),
        other => panic!("expected a single plan, got {:?}", other),
    }
}

#[test]
fn boolean_counts_as_numeric() {
    let decl = struct_decl(
        "Light",
        FieldGroup::NamedFields(vec![named(
            "on",
            DeclaredType::Primitive { bits: 1, signed: false },
        )]),
    );
    let fv = record(decl, vec![FieldValue::NumValue(1)]);
    match convert(&fv) {
        Ok(Term::FunctionTerm { args, .. }) => expect_number(&args[0], 1),
        other => panic!("expected a function term, got {:?}", other),
    }
}

#[test]
fn union_kind_is_rejected() {
    let decl = TypeDeclaration {
        name: s("Blob"),
        generics: no_generics(),
        body: TypeBody::UnionBody,
    };
    match generate(&decl) {
        Err(GenError::UnsupportedKind { decl_name }) => assert_eq!(decl_name, "Blob"),
        other => panic!("expected the unsupported-kind error, got {:?}", other),
    }
}

#[test]
fn name_transformation_is_stable_on_snake_input() {
    assert_eq!(transform_name("already_snake"), "already_snake");
    assert_eq!(transform_name("word"), "word");
}

#[test]
fn name_transformation_lowers_declared_casing() {
    assert_eq!(transform_name("FooBar"), "foo_bar");
    assert_eq!(transform_name("HTTPFooBar"), "http_foo_bar");
    let decl = struct_decl("FooBar", FieldGroup::Unit);
    let fv = record(decl, vec![]);
    match convert(&fv) {
        Ok(Term::IdTerm { name, .. }) => assert_eq!(name, "foo_bar"),
        other => panic!("expected an atomic identifier, got {:?}", other),
    }
}

#[test]
fn non_ascii_text_fails_with_the_field_named() {
    let decl = struct_decl(
        "Note",
        FieldGroup::NamedFields(vec![
            named("tag", i32_ty()),
            named("msg", DeclaredType::StringType),
        ]),
    );
    let fv = record(
        decl,
        vec![FieldValue::NumValue(9), FieldValue::TextValue(s("caf\u{e9}"))],
    );
    match convert(&fv) {
        Err(ConversionError::AtField { decl_name, variant, field, cause }) => {
            assert_eq!(decl_name, "Note");
            assert!(variant.is_none());
            assert!(matches!(&field, FieldId::FieldName(n) if n == "msg"));
            assert!(matches!(
                *cause,
                ConversionError::UnrepresentableText { .. }
            ));
        },
        other => panic!("expected a framed charset failure, got {:?}", other),
    }
}

#[test]
fn nested_failure_keeps_its_attribution() {
    let inner = struct_decl(
        "Inner",
        FieldGroup::NamedFields(vec![named("msg", DeclaredType::StringType)]),
    );
    let outer = struct_decl(
        "Outer",
        FieldGroup::NamedFields(vec![named("kid", DeclaredType::CompositeType(s("Inner")))]),
    );
    let fv = record(
        outer,
        vec![FieldValue::NestedValue(Box::new(record(
            inner,
            vec![FieldValue::TextValue(s("na\u{ef}ve"))],
        )))],
    );
    match convert(&fv) {
        Err(ConversionError::AtField { decl_name, field, cause, .. }) => {
            assert_eq!(decl_name, "Outer");
            assert!(matches!(&field, FieldId::FieldName(n) if n == "kid"));
            match *cause {
                ConversionError::AtField { decl_name: inner_name, cause: inner_cause, .. } => {
                    assert_eq!(inner_name, "Inner");
                    assert!(matches!(
                        *inner_cause,
                        ConversionError::UnrepresentableText { .. }
                    ));
                },
                other => panic!("expected an inner frame, got {:?}", other),
            }
        },
        other => panic!("expected a framed failure, got {:?}", other),
    }
}

#[test]
fn value_of_the_wrong_shape_is_a_mismatch() {
    let decl = struct_decl("Foo", FieldGroup::NamedFields(vec![named("a", i32_ty())]));
    let fv = case(decl, "Foo", vec![]);
    assert!(matches!(convert(&fv), Err(ConversionError::ShapeMismatch { .. })));
    let decl2 = struct_decl("Foo", FieldGroup::NamedFields(vec![named("a", i32_ty())]));
    let short = record(decl2, vec![]);
    assert!(matches!(convert(&short), Err(ConversionError::ShapeMismatch { .. })));
}

#[test]
fn enum_value_needs_a_case_shape() {
    let fv = FactValue { decl: color_decl(), body: ValueBody::RecordValue(vec![]) };
    assert!(matches!(convert(&fv), Err(ConversionError::ShapeMismatch { .. })));
}

#[test]
fn generics_are_propagated_verbatim() {
    let decl = TypeDeclaration {
        name: s("Holder"),
        generics: GenericsDecl {
            params: vec![s("T"), s("U")],
            constraints: vec![s("T: Fact"), s("U: Fact")],
        },
        body: TypeBody::StructBody(FieldGroup::NamedFields(vec![named(
            "it",
            DeclaredType::CompositeType(s("T")),
        )])),
    };
    let conv: Conversion = generate(&decl).expect("a generic holder generates");
    assert_eq!(conv.decl_name, "Holder");
    assert_eq!(conv.params, vec![s("T"), s("U")]);
    assert_eq!(conv.constraints, vec![s("T: Fact"), s("U: Fact")]);
}
