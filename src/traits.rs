use vstd::prelude::*;

use crate::constructor::{
    array_model, maybe_model, prim_model, tuple_model, unit_model, CtorModel, PursConstructor,
};
use crate::declaration::PursType;

verus! {

/// A native type that has a foreign constructor of its own.
pub trait ToPursConstructor {
    /// The model of the constructor that stands for this type.
    spec fn purs_constructor_model() -> CtorModel;

    /// The constructor that stands for this type.
    fn to_purs_constructor() -> (r: PursConstructor)
        ensures
            r@ == Self::purs_constructor_model(),
    ;
}

/// A native type that has a foreign declaration: a record, positional
/// struct or union. Declarations are what modules are made of; constructors
/// are what declarations use.
pub trait ToPursType: ToPursConstructor {
    /// The declaration of this type.
    fn to_purs_type() -> PursType;
}

impl ToPursConstructor for i8 {
    open spec fn purs_constructor_model() -> CtorModel {
        prim_model("Int"@)
    }

    fn to_purs_constructor() -> (r: PursConstructor) {
        PursConstructor::primitive("Int")
    }
}

impl ToPursConstructor for i16 {
    open spec fn purs_constructor_model() -> CtorModel {
        prim_model("Int"@)
    }

    fn to_purs_constructor() -> (r: PursConstructor) {
        PursConstructor::primitive("Int")
    }
}

impl ToPursConstructor for i32 {
    open spec fn purs_constructor_model() -> CtorModel {
        prim_model("Int"@)
    }

    fn to_purs_constructor() -> (r: PursConstructor) {
        PursConstructor::primitive("Int")
    }
}

impl ToPursConstructor for i64 {
    open spec fn purs_constructor_model() -> CtorModel {
        prim_model("Int"@)
    }

    fn to_purs_constructor() -> (r: PursConstructor) {
        PursConstructor::primitive("Int")
    }
}

impl ToPursConstructor for i128 {
    open spec fn purs_constructor_model() -> CtorModel {
        prim_model("Int"@)
    }

    fn to_purs_constructor() -> (r: PursConstructor) {
        PursConstructor::primitive("Int")
    }
}

impl ToPursConstructor for isize {
    open spec fn purs_constructor_model() -> CtorModel {
        prim_model("Int"@)
    }

    fn to_purs_constructor() -> (r: PursConstructor) {
        PursConstructor::primitive("Int")
    }
}

impl ToPursConstructor for u8 {
    open spec fn purs_constructor_model() -> CtorModel {
        prim_model("Int"@)
    }

    fn to_purs_constructor() -> (r: PursConstructor) {
        PursConstructor::primitive("Int")
    }
}

impl ToPursConstructor for u16 {
    open spec fn purs_constructor_model() -> CtorModel {
        prim_model("Int"@)
    }

    fn to_purs_constructor() -> (r: PursConstructor) {
        PursConstructor::primitive("Int")
    }
}

impl ToPursConstructor for u32 {
    open spec fn purs_constructor_model() -> CtorModel {
        prim_model("Int"@)
    }

    fn to_purs_constructor() -> (r: PursConstructor) {
        PursConstructor::primitive("Int")
    }
}

impl ToPursConstructor for u64 {
    open spec fn purs_constructor_model() -> CtorModel {
        prim_model("Int"@)
    }

    fn to_purs_constructor() -> (r: PursConstructor) {
        PursConstructor::primitive("Int")
    }
}

impl ToPursConstructor for u128 {
    open spec fn purs_constructor_model() -> CtorModel {
        prim_model("Int"@)
    }

    fn to_purs_constructor() -> (r: PursConstructor) {
        PursConstructor::primitive("Int")
    }
}

impl ToPursConstructor for usize {
    open spec fn purs_constructor_model() -> CtorModel {
        prim_model("Int"@)
    }

    fn to_purs_constructor() -> (r: PursConstructor) {
        PursConstructor::primitive("Int")
    }
}

impl ToPursConstructor for bool {
    open spec fn purs_constructor_model() -> CtorModel {
        prim_model("Boolean"@)
    }

    fn to_purs_constructor() -> (r: PursConstructor) {
        PursConstructor::primitive("Boolean")
    }
}

impl ToPursConstructor for String {
    open spec fn purs_constructor_model() -> CtorModel {
        prim_model("String"@)
    }

    fn to_purs_constructor() -> (r: PursConstructor) {
        PursConstructor::primitive("String")
    }
}

impl<'a> ToPursConstructor for &'a str {
    open spec fn purs_constructor_model() -> CtorModel {
        prim_model("String"@)
    }

    fn to_purs_constructor() -> (r: PursConstructor) {
        PursConstructor::primitive("String")
    }
}

impl<T: ToPursConstructor> ToPursConstructor for Vec<T> {
    open spec fn purs_constructor_model() -> CtorModel {
        array_model(T::purs_constructor_model())
    }

    fn to_purs_constructor() -> (r: PursConstructor) {
        PursConstructor::array(T::to_purs_constructor())
    }
}

impl<'a, T: ToPursConstructor> ToPursConstructor for &'a [T] {
    open spec fn purs_constructor_model() -> CtorModel {
        array_model(T::purs_constructor_model())
    }

    fn to_purs_constructor() -> (r: PursConstructor) {
        PursConstructor::array(T::to_purs_constructor())
    }
}

impl<T: ToPursConstructor> ToPursConstructor for Option<T> {
    open spec fn purs_constructor_model() -> CtorModel {
        maybe_model(T::purs_constructor_model())
    }

    fn to_purs_constructor() -> (r: PursConstructor) {
        PursConstructor::maybe(T::to_purs_constructor())
    }
}

impl<T: ToPursConstructor, U: ToPursConstructor> ToPursConstructor for (T, U) {
    open spec fn purs_constructor_model() -> CtorModel {
        tuple_model(T::purs_constructor_model(), U::purs_constructor_model())
    }

    fn to_purs_constructor() -> (r: PursConstructor) {
        PursConstructor::tuple(T::to_purs_constructor(), U::to_purs_constructor())
    }
}

impl ToPursConstructor for () {
    open spec fn purs_constructor_model() -> CtorModel {
        unit_model()
    }

    fn to_purs_constructor() -> (r: PursConstructor) {
        PursConstructor::unit()
    }
}

impl<T: ToPursConstructor> ToPursConstructor for Box<T> {
    open spec fn purs_constructor_model() -> CtorModel {
        T::purs_constructor_model()
    }

    fn to_purs_constructor() -> (r: PursConstructor) {
        T::to_purs_constructor()
    }
}

impl<'a, T: ToPursConstructor> ToPursConstructor for &'a T {
    open spec fn purs_constructor_model() -> CtorModel {
        T::purs_constructor_model()
    }

    fn to_purs_constructor() -> (r: PursConstructor) {
        T::to_purs_constructor()
    }
}

} // verus!
