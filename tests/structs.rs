use purescript_waterslide::{
    translate_definition, NativeType, PursConstructor, PursType, Scalar, TypeDefinition, TypeShape,
};

fn scalar(k: Scalar) -> NativeType {
    NativeType::Scalar(k)
}

fn named(name: &str) -> NativeType {
    NativeType::Named(name.to_string(), vec![])
}

fn record(name: &str, generics: &[&str], fields: Vec<(&str, NativeType)>) -> TypeDefinition {
    TypeDefinition {
        name: name.to_string(),
        generics: generics.iter().map(|g| g.to_string()).collect(),
        shape: TypeShape::Record(fields.into_iter().map(|(n, t)| (n.to_string(), t)).collect()),
    }
}

fn positional(name: &str, generics: &[&str], fields: Vec<NativeType>) -> TypeDefinition {
    TypeDefinition {
        name: name.to_string(),
        generics: generics.iter().map(|g| g.to_string()).collect(),
        shape: TypeShape::Positional(fields),
    }
}

fn rendered(def: TypeDefinition) -> String {
    translate_definition(&def).unwrap().render()
}

#[test]
fn structs_plain_old_struct() {
    let plain = record(
        "Plain",
        &[],
        vec![("age", scalar(Scalar::I32)), ("name", scalar(Scalar::Text))],
    );

    assert_eq!(
        translate_definition(&plain).unwrap(),
        PursType::Struct(
            PursConstructor {
                module: None,
                name: "Plain".to_string(),
                parameters: vec![],
            },
            vec![
                (
                    "age".to_string(),
                    PursConstructor {
                        name: "Int".to_string(),
                        module: Some("PRIM".to_string()),
                        parameters: vec![],
                    },
                ),
                (
                    "name".to_string(),
                    PursConstructor {
                        name: "String".to_string(),
                        module: Some("PRIM".to_string()),
                        parameters: vec![],
                    },
                ),
            ]
        )
    );

    assert_eq!(
        &rendered(plain),
        "data Plain = Plain { age :: Int, name :: String }"
    );
}

#[test]
fn struct_with_option() {
    let anonymous = record(
        "Anonymous",
        &[],
        vec![
            ("age", scalar(Scalar::I32)),
            ("name", NativeType::Optional(Box::new(scalar(Scalar::Text)))),
        ],
    );

    assert_eq!(
        &rendered(anonymous),
        "data Anonymous = Anonymous { age :: Int, name :: Maybe String }"
    );
}

#[test]
fn struct_with_enum() {
    let anonymous = record(
        "Anonymous",
        &[],
        vec![("age", scalar(Scalar::I32)), ("name", named("Color"))],
    );

    assert_eq!(
        &rendered(anonymous),
        "data Anonymous = Anonymous { age :: Int, name :: Color }"
    );
}

#[test]
fn newtype_struct() {
    let email = positional("Email", &[], vec![scalar(Scalar::Text)]);

    assert_eq!(&rendered(email), "data Email = Email String");
}

#[test]
fn tuple_struct() {
    let person_name = positional(
        "PersonName",
        &[],
        vec![scalar(Scalar::Text), scalar(Scalar::Text)],
    );

    assert_eq!(&rendered(person_name), "data PersonName = PersonName String String");
}

#[test]
fn tuple_struct_with_modifiers() {
    let schema = positional(
        "Schema",
        &[],
        vec![NativeType::Indirect(Box::new(NativeType::Sequence(Box::new(named("Node")))))],
    );

    assert_eq!(&rendered(schema), "data Schema = Schema (Array Node)");
}

#[test]
fn struct_with_tuple_fields() {
    let cow = record(
        "Cow",
        &[],
        vec![
            (
                "sides",
                NativeType::Pair(Box::new(scalar(Scalar::U8)), Box::new(scalar(Scalar::U8))),
            ),
            ("milk", scalar(Scalar::Bool)),
        ],
    );

    assert_eq!(
        &rendered(cow),
        "data Cow = Cow { sides :: Tuple Int Int, milk :: Boolean }"
    );
}

#[test]
fn unit_struct() {
    let all_right = TypeDefinition {
        name: "AllRight".to_string(),
        generics: vec![],
        shape: TypeShape::Unit,
    };

    assert_eq!(&rendered(all_right), "data AllRight = AllRight");
}

#[test]
fn simple_generic_struct() {
    let paginated = record(
        "Paginated",
        &["T"],
        vec![("page", scalar(Scalar::U32)), ("data", named("T"))],
    );

    assert_eq!(
        &rendered(paginated),
        "data Paginated t = Paginated { page :: Int, data :: t }"
    );
}

#[test]
fn simple_generic_tuple_struct() {
    let validated = positional("Validated", &["T"], vec![named("T")]);

    assert_eq!(&rendered(validated), "data Validated t = Validated t");
}
