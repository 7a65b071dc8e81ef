use purescript_waterslide::translate::translate_scalar;
use purescript_waterslide::{
    translate_definition, translate_usage, NativeType, PursConstructor, PursModule, PursType,
    Scalar, TranslateError, TypeDefinition, TypeShape,
};

fn scalar(k: Scalar) -> NativeType {
    NativeType::Scalar(k)
}

fn named(name: &str) -> NativeType {
    NativeType::Named(name.to_string(), vec![])
}

fn boxed(t: NativeType) -> Box<NativeType> {
    Box::new(t)
}

fn ctor(module: Option<&str>, name: &str, parameters: Vec<PursConstructor>) -> PursConstructor {
    PursConstructor {
        module: module.map(|m| m.to_string()),
        name: name.to_string(),
        parameters,
    }
}

fn definition(name: &str, generics: &[&str], shape: TypeShape) -> TypeDefinition {
    TypeDefinition {
        name: name.to_string(),
        generics: generics.iter().map(|g| g.to_string()).collect(),
        shape,
    }
}

#[test]
fn every_scalar_has_its_table_entry() {
    let ints = [
        Scalar::I8,
        Scalar::I16,
        Scalar::I32,
        Scalar::I64,
        Scalar::I128,
        Scalar::Isize,
        Scalar::U8,
        Scalar::U16,
        Scalar::U32,
        Scalar::U64,
        Scalar::U128,
        Scalar::Usize,
    ];
    for k in ints {
        assert_eq!(translate_scalar(k), ctor(Some("PRIM"), "Int", vec![]));
    }
    for k in [Scalar::Float32, Scalar::Float64] {
        assert_eq!(translate_scalar(k), ctor(Some("PRIM"), "Number", vec![]));
    }
    assert_eq!(translate_scalar(Scalar::Bool), ctor(Some("PRIM"), "Boolean", vec![]));
    for k in [Scalar::Text, Scalar::Str] {
        assert_eq!(translate_scalar(k), ctor(Some("PRIM"), "String", vec![]));
    }
    for k in [
        Scalar::Uuid,
        Scalar::DateTime,
        Scalar::Date,
        Scalar::NaiveDate,
        Scalar::NaiveTime,
        Scalar::NaiveDateTime,
    ] {
        assert_eq!(translate_scalar(k), ctor(None, "String", vec![]));
    }
}

#[test]
fn scalar_translation_ignores_scope_and_history() {
    let first = translate_usage(&scalar(Scalar::U16), &vec![]).unwrap();
    let _ = translate_usage(&named("T"), &vec!["T".to_string()]).unwrap();
    let second = translate_usage(&scalar(Scalar::U16), &vec!["U16".to_string()]).unwrap();
    assert_eq!(first, second);
    assert_eq!(first, ctor(Some("PRIM"), "Int", vec![]));
}

#[test]
fn containers_follow_the_table() {
    let t = NativeType::Pair(
        boxed(NativeType::Unit),
        boxed(NativeType::Optional(boxed(NativeType::Sequence(boxed(scalar(Scalar::Bool)))))),
    );
    assert_eq!(
        translate_usage(&t, &vec![]).unwrap(),
        ctor(
            Some("Data.Tuple"),
            "Tuple",
            vec![
                ctor(Some("Prelude"), "Unit", vec![]),
                ctor(
                    Some("Data.Maybe"),
                    "Maybe",
                    vec![ctor(None, "Array", vec![ctor(Some("PRIM"), "Boolean", vec![])])]
                ),
            ]
        )
    );
}

#[test]
fn indirection_is_transparent() {
    let direct = translate_usage(&scalar(Scalar::I64), &vec![]).unwrap();
    let boxed_twice = NativeType::Indirect(boxed(NativeType::Indirect(boxed(scalar(Scalar::I64)))));
    assert_eq!(translate_usage(&boxed_twice, &vec![]).unwrap(), direct);
}

#[test]
fn user_types_keep_their_arguments() {
    let t = NativeType::Named("Page".to_string(), vec![named("T"), scalar(Scalar::Text)]);
    assert_eq!(
        translate_usage(&t, &vec!["T".to_string()]).unwrap().render(),
        "Page t String"
    );
}

#[test]
fn generic_parameters_are_lowercased() {
    let def = definition(
        "Wrapper",
        &["Inner", "KEY"],
        TypeShape::Positional(vec![named("KEY"), named("Inner")]),
    );
    let decl = translate_definition(&def).unwrap();
    assert_eq!(decl.render(), "data Wrapper inner key = Wrapper key inner");
    assert_eq!(
        decl.head(),
        &ctor(None, "Wrapper", vec![ctor(None, "inner", vec![]), ctor(None, "key", vec![])])
    );
}

#[test]
fn rendering_is_deterministic() {
    let def = definition(
        "Pair",
        &["A"],
        TypeShape::Record(vec![
            ("left".to_string(), named("A")),
            ("right".to_string(), NativeType::Optional(boxed(named("A")))),
        ]),
    );
    let decl = translate_definition(&def).unwrap();
    let once = decl.render();
    let twice = decl.render();
    assert_eq!(once, twice);
    assert_eq!(once, "data Pair a = Pair { left :: a, right :: Maybe a }");
    assert_eq!(translate_definition(&def).unwrap().render(), once);
}

#[test]
fn modules_built_alike_render_alike() {
    let make = || {
        let def = definition(
            "Stock",
            &[],
            TypeShape::Record(vec![
                ("label".to_string(), NativeType::Optional(boxed(scalar(Scalar::Text)))),
                ("pair".to_string(), NativeType::Pair(boxed(scalar(Scalar::U8)), boxed(NativeType::Unit))),
            ]),
        );
        PursModule::new("Shop".to_string(), vec![translate_definition(&def).unwrap()])
    };
    let a = make().render();
    let b = make().render();
    assert_eq!(a, b);
    assert_eq!(
        a,
        "module Shop where

import Data.Generic (
class Generic
)
import Data.Maybe (
Maybe
)
import Data.Tuple (
Tuple
)
import Prelude (
Unit
)

data Stock = Stock { label :: Maybe String, pair :: Tuple Int Unit }

derive instance genericStock :: Generic Stock

"
    );
}

#[test]
fn imports_dedup_and_keep_first_seen_order() {
    let mut imports: Vec<(String, Vec<String>)> = Vec::new();
    let tree = ctor(
        Some("Data.Tuple"),
        "Tuple",
        vec![
            ctor(Some("Data.Maybe"), "Maybe", vec![ctor(Some("Z.Mod"), "Second", vec![])]),
            ctor(Some("Z.Mod"), "First", vec![]),
            ctor(Some("Data.Maybe"), "Maybe", vec![ctor(Some("Z.Mod"), "First", vec![])]),
        ],
    );
    PursModule::accumulate_imports(&mut imports, &tree);
    PursModule::accumulate_imports(&mut imports, &tree);
    assert_eq!(
        imports,
        vec![
            ("Data.Maybe".to_string(), vec!["Maybe".to_string()]),
            ("Data.Tuple".to_string(), vec!["Tuple".to_string()]),
            ("Z.Mod".to_string(), vec!["Second".to_string(), "First".to_string()]),
        ]
    );
}

#[test]
fn imports_skip_constructors_without_module() {
    let mut imports: Vec<(String, Vec<String>)> = Vec::new();
    PursModule::accumulate_imports(&mut imports, &ctor(None, "Array", vec![ctor(None, "t", vec![])]));
    assert!(imports.is_empty());
}

#[test]
fn nested_parameters_are_parenthesized_exactly_when_applied() {
    let int = || ctor(Some("PRIM"), "Int", vec![]);
    let maybe_int = ctor(Some("Data.Maybe"), "Maybe", vec![int()]);
    let t = ctor(Some("Data.Tuple"), "Tuple", vec![int(), maybe_int]);
    assert_eq!(t.render(), "Tuple Int (Maybe Int)");
    let bare = ctor(None, "Either", vec![ctor(None, "a", vec![]), ctor(None, "b", vec![])]);
    assert_eq!(bare.render(), "Either a b");
    let deep = ctor(None, "Array", vec![ctor(None, "Array", vec![ctor(None, "Array", vec![int()])])]);
    assert_eq!(deep.render(), "Array (Array (Array Int))");
}

#[test]
fn record_fields_are_not_parenthesized() {
    let decl = PursType::Struct(
        ctor(None, "Box", vec![]),
        vec![(
            "items".to_string(),
            ctor(None, "Array", vec![ctor(Some("Data.Maybe"), "Maybe", vec![ctor(None, "Item", vec![])])]),
        )],
    );
    assert_eq!(decl.render(), "data Box = Box { items :: Array (Maybe Item) }");
}

#[test]
fn empty_shapes_render() {
    let empty_record = definition("Empty", &[], TypeShape::Record(vec![]));
    assert_eq!(translate_definition(&empty_record).unwrap().render(), "data Empty = Empty { }");
    let no_fields = definition("Nothing", &[], TypeShape::Positional(vec![]));
    let unit = definition("Nothing", &[], TypeShape::Unit);
    assert_eq!(
        translate_definition(&no_fields).unwrap(),
        translate_definition(&unit).unwrap()
    );
    let no_variants = definition("Never", &[], TypeShape::Union(vec![]));
    assert_eq!(translate_definition(&no_variants).unwrap().render(), "data Never = ");
}

#[test]
fn unsupported_type_is_reported() {
    let def = definition(
        "Letter",
        &[],
        TypeShape::Record(vec![
            ("code".to_string(), scalar(Scalar::U32)),
            ("glyph".to_string(), NativeType::Unsupported("char".to_string())),
            ("other".to_string(), NativeType::Unsupported("fn()".to_string())),
        ]),
    );
    assert_eq!(
        translate_definition(&def),
        Err(TranslateError::UnsupportedScalar("char".to_string()))
    );
    let nested = NativeType::Optional(boxed(NativeType::Pair(
        boxed(scalar(Scalar::U8)),
        boxed(NativeType::Unsupported("*const u8".to_string())),
    )));
    assert_eq!(
        translate_usage(&nested, &vec![]),
        Err(TranslateError::UnsupportedScalar("*const u8".to_string()))
    );
}

#[test]
fn unsupported_payload_fails_the_union() {
    let def = definition(
        "Shape",
        &[],
        TypeShape::Union(vec![
            ("Dot".to_string(), vec![]),
            ("Line".to_string(), vec![scalar(Scalar::U8), NativeType::Unsupported("dyn Draw".to_string())]),
        ]),
    );
    assert_eq!(
        translate_definition(&def),
        Err(TranslateError::UnsupportedScalar("dyn Draw".to_string()))
    );
}

#[test]
fn unclassified_shape_is_reported() {
    let def = definition("Raw", &[], TypeShape::Unclassified("union Raw".to_string()));
    assert_eq!(
        translate_definition(&def),
        Err(TranslateError::UnsupportedShape("union Raw".to_string()))
    );
}

#[test]
fn module_lists_shared_imports_once() {
    let first = definition(
        "First",
        &[],
        TypeShape::Positional(vec![
            NativeType::Optional(boxed(scalar(Scalar::U8))),
            NativeType::Optional(boxed(NativeType::Unit)),
        ]),
    );
    let second = definition(
        "Second",
        &[],
        TypeShape::Union(vec![
            ("Some".to_string(), vec![NativeType::Optional(boxed(named("First")))]),
            ("Pair".to_string(), vec![NativeType::Pair(boxed(NativeType::Unit), boxed(NativeType::Unit))]),
        ]),
    );
    let module = PursModule::new(
        "Shared".to_string(),
        vec![
            translate_definition(&first).unwrap(),
            translate_definition(&second).unwrap(),
        ],
    );
    assert_eq!(
        module.render(),
        "module Shared where

import Data.Generic (
class Generic
)
import Data.Maybe (
Maybe
)
import Data.Tuple (
Tuple
)
import Prelude (
Unit
)

data First = First (Maybe Int) (Maybe Unit)

derive instance genericFirst :: Generic First

data Second = Some (Maybe First) | Pair (Tuple Unit Unit)

derive instance genericSecond :: Generic Second

"
    );
}
