use purescript_waterslide::{
    translate_definition, NativeType, PursConstructor, PursType, Scalar, TypeDefinition, TypeShape,
};

fn scalar(k: Scalar) -> NativeType {
    NativeType::Scalar(k)
}

fn named(name: &str) -> NativeType {
    NativeType::Named(name.to_string(), vec![])
}

fn union(name: &str, generics: &[&str], variants: Vec<(&str, Vec<NativeType>)>) -> TypeDefinition {
    TypeDefinition {
        name: name.to_string(),
        generics: generics.iter().map(|g| g.to_string()).collect(),
        shape: TypeShape::Union(variants.into_iter().map(|(n, p)| (n.to_string(), p)).collect()),
    }
}

fn rendered(def: TypeDefinition) -> String {
    translate_definition(&def).unwrap().render()
}

fn leaf(name: &str) -> PursConstructor {
    PursConstructor {
        module: None,
        name: name.to_string(),
        parameters: vec![],
    }
}

#[test]
fn enums_plain_old_enum() {
    let good_boy = union(
        "GoodBoy",
        &[],
        vec![("Doggo", vec![]), ("Pupper", vec![]), ("Shibe", vec![])],
    );

    assert_eq!(
        translate_definition(&good_boy).unwrap(),
        // data GoodBoy = Doggo | Pupper | Shibe
        PursType::Enum(
            leaf("GoodBoy"),
            vec![leaf("Doggo"), leaf("Pupper"), leaf("Shibe")]
        )
    );

    assert_eq!(&rendered(good_boy), "data GoodBoy = Doggo | Pupper | Shibe")
}

#[test]
fn enum_with_struct_and_option() {
    let dessert = union(
        "Dessert",
        &[],
        vec![
            ("Pie", vec![named("Topping")]),
            ("IceCream", vec![NativeType::Optional(Box::new(named("Topping")))]),
        ],
    );

    assert_eq!(
        &rendered(dessert),
        "data Dessert = Pie Topping | IceCream (Maybe Topping)"
    )
}

#[test]
fn enum_with_tuples() {
    let dessert = union(
        "Dessert",
        &[],
        vec![
            (
                "Pie",
                vec![NativeType::Pair(Box::new(scalar(Scalar::U8)), Box::new(scalar(Scalar::U8)))],
            ),
            (
                "Yoghurt",
                vec![NativeType::Pair(Box::new(scalar(Scalar::Text)), Box::new(scalar(Scalar::U8)))],
            ),
        ],
    );

    assert_eq!(
        &rendered(dessert),
        "data Dessert = Pie (Tuple Int Int) | Yoghurt (Tuple String Int)"
    )
}

#[test]
fn recursive_enum() {
    let node = union(
        "Node",
        &[],
        vec![
            ("Branch", vec![NativeType::Indirect(Box::new(named("Node")))]),
            ("Leaf", vec![scalar(Scalar::I32)]),
        ],
    );

    assert_eq!(&rendered(node), "data Node = Branch Node | Leaf Int");
}

#[test]
fn mutually_recursive_types() {
    let numbered_node = TypeDefinition {
        name: "NumberedNode".to_string(),
        generics: vec![],
        shape: TypeShape::Record(vec![
            ("number".to_string(), scalar(Scalar::Float32)),
            ("node".to_string(), NativeType::Indirect(Box::new(named("Node")))),
        ]),
    };
    let node = union(
        "Node",
        &[],
        vec![("Branch", vec![named("NumberedNode")]), ("Leaf", vec![scalar(Scalar::I32)])],
    );

    assert!(translate_definition(&numbered_node).is_ok());
    assert_eq!(&rendered(node), "data Node = Branch NumberedNode | Leaf Int");
}

#[test]
fn simple_generic_enum() {
    let choice = union(
        "Choice",
        &["L", "R"],
        vec![("Left", vec![named("L")]), ("Right", vec![named("R")])],
    );

    assert_eq!(&rendered(choice), "data Choice l r = Left l | Right r");
}
