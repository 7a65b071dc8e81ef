use purescript_waterslide::{translate_usage, NativeType, Scalar};

fn rendered(t: NativeType) -> String {
    translate_usage(&t, &vec![]).unwrap().render()
}

#[test]
fn to_purs_type_impls_str_derives_as_expected() {
    assert_eq!(&rendered(NativeType::Indirect(Box::new(NativeType::Scalar(Scalar::Str)))), "String");
}

#[test]
fn to_purs_type_impls_slices_derive_as_expected() {
    let slice = NativeType::Indirect(Box::new(NativeType::Sequence(Box::new(NativeType::Scalar(
        Scalar::U8,
    )))));
    assert_eq!(&rendered(slice), "Array Int");
}

#[test]
fn to_purs_type_impls_vecs_derive_as_expected() {
    let vec = NativeType::Sequence(Box::new(NativeType::Scalar(Scalar::U8)));
    assert_eq!(&rendered(vec), "Array Int");
}
