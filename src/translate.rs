use vstd::prelude::*;

use crate::declaration::{fields_model, DeclModel, PursType};
use crate::constructor::{
    array_model, ctors_model, lemma_view_params, leaf_model, maybe_model, prim_model, tuple_model,
    unit_model, CtorModel, PursConstructor,
};

verus! {

/// The native scalar types, and the library types that travel as text.
#[derive(Clone, Copy, Debug, PartialEq, Eq, Structural)]
pub enum Scalar {
    I8,
    I16,
    I32,
    I64,
    I128,
    Isize,
    U8,
    U16,
    U32,
    U64,
    U128,
    Usize,
    Float32,
    Float64,
    Bool,
    /// An owned `String`.
    Text,
    /// A borrowed `str`.
    Str,
    Uuid,
    DateTime,
    Date,
    NaiveDate,
    NaiveTime,
    NaiveDateTime,
}

/// A native type as it is used in a field or a variant payload.
#[derive(Debug, PartialEq, Eq)]
pub enum NativeType {
    Scalar(Scalar),
    /// `Vec<T>`, a slice or an array of `T`.
    Sequence(Box<NativeType>),
    /// `Option<T>`.
    Optional(Box<NativeType>),
    /// `(T, U)`.
    Pair(Box<NativeType>, Box<NativeType>),
    /// `()`.
    Unit,
    /// `Box<T>` or a reference to `T`: no foreign counterpart of its own.
    Indirect(Box<NativeType>),
    /// A type by name, applied to type arguments; a generic parameter of the
    /// enclosing declaration when it names one and has no arguments.
    Named(String, Vec<NativeType>),
    /// A type with no foreign counterpart, described.
    Unsupported(String),
}

/// Why a translation failed.
#[derive(Debug, PartialEq, Eq)]
pub enum TranslateError {
    /// The definition's shape is none of record, positional, unit or union.
    UnsupportedShape(String),
    /// A field or payload has a type with no foreign counterpart.
    UnsupportedScalar(String),
}

/// The mathematical value of a translation error.
pub enum ErrorModel {
    UnsupportedShape(Seq<char>),
    UnsupportedScalar(Seq<char>),
}

impl View for TranslateError {
    type V = ErrorModel;

    open spec fn view(&self) -> ErrorModel {
        match self {
            TranslateError::UnsupportedShape(d) => ErrorModel::UnsupportedShape(d@),
            TranslateError::UnsupportedScalar(d) => ErrorModel::UnsupportedScalar(d@),
        }
    }
}

/// The model of a translated constructor, or of the error.
pub open spec fn ctor_result(r: Result<PursConstructor, TranslateError>) -> Result<
    CtorModel,
    ErrorModel,
> {
    match r {
        Ok(c) => Ok(c@),
        Err(e) => Err(e@),
    }
}

/// The models of translated constructors, or of the error.
pub open spec fn ctors_result(r: Result<Vec<PursConstructor>, TranslateError>) -> Result<
    Seq<CtorModel>,
    ErrorModel,
> {
    match r {
        Ok(cs) => Ok(ctors_model(cs@)),
        Err(e) => Err(e@),
    }
}

/// The foreign constructor of each scalar type.
pub open spec fn scalar_model(k: Scalar) -> CtorModel {
    match k {
        Scalar::Float32 | Scalar::Float64 => prim_model("Number"@),
        Scalar::Bool => prim_model("Boolean"@),
        Scalar::Text | Scalar::Str => prim_model("String"@),
        Scalar::Uuid | Scalar::DateTime | Scalar::Date | Scalar::NaiveDate | Scalar::NaiveTime
        | Scalar::NaiveDateTime => leaf_model(None, "String"@),
        _ => prim_model("Int"@),
    }
}

/// The constructor of a type variable.
pub open spec fn var_model(name: Seq<char>) -> CtorModel {
    leaf_model(None, name)
}

/// A scalar type translates to its fixed constructor from the primitive
/// table, whatever type variables are in scope.
pub proof fn lemma_scalar_translation_fixed(
    k: Scalar,
    vars: Seq<(Seq<char>, Seq<char>)>,
    other: Seq<(Seq<char>, Seq<char>)>,
)
    ensures
        usage_model(NativeType::Scalar(k), vars) == Ok::<CtorModel, ErrorModel>(scalar_model(k)),
        usage_model(NativeType::Scalar(k), vars) == usage_model(NativeType::Scalar(k), other),
{
}

/// The first index at or after `i` whose declared name is `x`, or the
/// length when there is none.
pub open spec fn position_from(vars: Seq<(Seq<char>, Seq<char>)>, x: Seq<char>, i: int) -> int
    decreases vars.len() - i,
{
    if i < 0 || i >= vars.len() {
        vars.len() as int
    } else if vars[i].0 == x {
        i
    } else {
        position_from(vars, x, i + 1)
    }
}

/// The index of the first type variable declared as `x`, or the number of
/// variables when none is.
pub open spec fn position(vars: Seq<(Seq<char>, Seq<char>)>, x: Seq<char>) -> int {
    position_from(vars, x, 0)
}

/// The foreign constructor of a type usage, given the type variables in
/// scope as (declared name, variable name) pairs; the first unsupported type
/// in declared order is the error.
pub open spec fn usage_model(t: NativeType, vars: Seq<(Seq<char>, Seq<char>)>) -> Result<
    CtorModel,
    ErrorModel,
>
    decreases t, 0nat,
{
    match t {
        NativeType::Scalar(k) => Ok(scalar_model(k)),
        NativeType::Sequence(inner) => match usage_model(*inner, vars) {
            Ok(c) => Ok(array_model(c)),
            Err(e) => Err(e),
        },
        NativeType::Optional(inner) => match usage_model(*inner, vars) {
            Ok(c) => Ok(maybe_model(c)),
            Err(e) => Err(e),
        },
        NativeType::Pair(a, b) => match usage_model(*a, vars) {
            Ok(ca) => match usage_model(*b, vars) {
                Ok(cb) => Ok(tuple_model(ca, cb)),
                Err(e) => Err(e),
            },
            Err(e) => Err(e),
        },
        NativeType::Unit => Ok(unit_model()),
        NativeType::Indirect(inner) => usage_model(*inner, vars),
        NativeType::Named(n, args) => {
            let p = position(vars, n@);
            if args@.len() == 0 && p < vars.len() {
                Ok(var_model(vars[p].1))
            } else {
                match args_model(args@, vars) {
                    Ok(ps) => Ok(CtorModel { module: None, name: n@, params: ps }),
                    Err(e) => Err(e),
                }
            }
        },
        NativeType::Unsupported(d) => Err(ErrorModel::UnsupportedScalar(d@)),
    }
}

/// The constructors of a sequence of type usages, in order.
pub open spec fn args_model(ts: Seq<NativeType>, vars: Seq<(Seq<char>, Seq<char>)>) -> Result<
    Seq<CtorModel>,
    ErrorModel,
>
    decreases ts, 1nat,
{
    if ts.len() == 0 {
        Ok(Seq::empty())
    } else {
        match args_model(ts.drop_last(), vars) {
            Ok(ps) => match usage_model(ts.last(), vars) {
                Ok(c) => Ok(ps.push(c)),
                Err(e) => Err(e),
            },
            Err(e) => Err(e),
        }
    }
}

/// The lowercase form of a string, as `str::to_lowercase` gives it.
pub uninterp spec fn lower_of(s: Seq<char>) -> Seq<char>;

/// Relies on `str::to_lowercase`: the result depends on the characters of
/// `s` alone.
#[verifier::external_body]
fn lowercase(s: &str) -> (r: String)
    ensures
        r@ == lower_of(s@),
{
    s.to_lowercase()
}

/// The type variables of declared generic parameters: each name with its
/// lowercase form, which the foreign syntax needs for a variable.
pub open spec fn vars_of(generics: Seq<Seq<char>>) -> Seq<(Seq<char>, Seq<char>)> {
    Seq::new(generics.len(), |i: int| (generics[i], lower_of(generics[i])))
}

/// Pairs each declared generic parameter with its type variable name.
pub fn type_variables(generics: &Vec<String>) -> (r: Vec<(String, String)>)
    ensures
        r.deep_view() == vars_of(generics.deep_view()),
{
    let mut r: Vec<(String, String)> = Vec::new();
    let n = generics.len();
    let mut i: usize = 0;
    while i < n
        invariant
            n == generics@.len(),
            0 <= i <= n,
            r.deep_view() =~= vars_of(generics.deep_view()).take(i as int),
        decreases n - i,
    {
        let g = &generics[i];
        let v = lowercase(g.as_str());
        let ghost before = r.deep_view();
        r.push((g.clone(), v));
        assert(r.deep_view() =~= before.push((g@, lower_of(g@))));
        assert(vars_of(generics.deep_view()).take(i + 1) =~= vars_of(generics.deep_view()).take(
            i as int,
        ).push((g@, lower_of(g@))));
        i = i + 1;
    }
    r
}

/// The foreign constructor of a scalar type.
pub fn translate_scalar(k: Scalar) -> (r: PursConstructor)
    ensures
        r@ == scalar_model(k),
{
    match k {
        Scalar::Float32 | Scalar::Float64 => PursConstructor::primitive("Number"),
        Scalar::Bool => PursConstructor::primitive("Boolean"),
        Scalar::Text | Scalar::Str => PursConstructor::primitive("String"),
        Scalar::Uuid | Scalar::DateTime | Scalar::Date | Scalar::NaiveDate | Scalar::NaiveTime
        | Scalar::NaiveDateTime => PursConstructor::leaf(None, String::from_str("String")),
        _ => PursConstructor::primitive("Int"),
    }
}

/// The index of the first type variable declared as `x`, or the number of
/// variables when none is.
fn find_var(vars: &Vec<(String, String)>, x: &String) -> (r: usize)
    ensures
        r as int == position(vars.deep_view(), x@),
{
    let n = vars.len();
    let mut i: usize = 0;
    while i < n
        invariant
            n == vars@.len(),
            0 <= i <= n,
            position(vars.deep_view(), x@) == position_from(vars.deep_view(), x@, i as int),
        decreases n - i,
    {
        if vars[i].0.eq(x) {
            return i;
        }
        i = i + 1;
    }
    n
}

/// Translates a type usage with the type variables `vars` in scope, given as
/// (declared name, variable name) pairs.
pub fn translate_usage_in(t: &NativeType, vars: &Vec<(String, String)>) -> (r: Result<
    PursConstructor,
    TranslateError,
>)
    ensures
        ctor_result(r) == usage_model(*t, vars.deep_view()),
    decreases t, 0nat,
{
    match t {
        NativeType::Scalar(k) => Ok(translate_scalar(*k)),
        NativeType::Sequence(inner) => match translate_usage_in(inner, vars) {
            Ok(c) => Ok(PursConstructor::array(c)),
            Err(e) => Err(e),
        },
        NativeType::Optional(inner) => match translate_usage_in(inner, vars) {
            Ok(c) => Ok(PursConstructor::maybe(c)),
            Err(e) => Err(e),
        },
        NativeType::Pair(a, b) => match translate_usage_in(a, vars) {
            Ok(ca) => match translate_usage_in(b, vars) {
                Ok(cb) => Ok(PursConstructor::tuple(ca, cb)),
                Err(e) => Err(e),
            },
            Err(e) => Err(e),
        },
        NativeType::Unit => Ok(PursConstructor::unit()),
        NativeType::Indirect(inner) => translate_usage_in(inner, vars),
        NativeType::Named(n, args) => {
            let p = find_var(vars, n);
            if args.len() == 0 && p < vars.len() {
                Ok(PursConstructor::leaf(None, vars[p].1.clone()))
            } else {
                match translate_args(args, vars) {
                    Ok(ps) => {
                        let r = PursConstructor { module: None, name: n.clone(), parameters: ps };
                        proof {
                            lemma_view_params(&r);
                        }
                        Ok(r)
                    },
                    Err(e) => Err(e),
                }
            }
        },
        NativeType::Unsupported(d) => Err(TranslateError::UnsupportedScalar(d.clone())),
    }
}

/// Translates a sequence of type usages, in order.
pub fn translate_args(ts: &Vec<NativeType>, vars: &Vec<(String, String)>) -> (r: Result<
    Vec<PursConstructor>,
    TranslateError,
>)
    ensures
        ctors_result(r) == args_model(ts@, vars.deep_view()),
    decreases ts, 1nat,
{
    let mut out: Vec<PursConstructor> = Vec::new();
    let n = ts.len();
    let mut i: usize = 0;
    assert(ts@.take(0) =~= Seq::<NativeType>::empty());
    assert(ctors_model(out@) =~= Seq::<CtorModel>::empty());
    while i < n
        invariant
            n == ts@.len(),
            0 <= i <= n,
            args_model(ts@.take(i as int), vars.deep_view()) == Ok::<Seq<CtorModel>, ErrorModel>(
                ctors_model(out@),
            ),
        decreases n - i,
    {
        proof {
            let done = ts@.take(i + 1);
            assert(done.drop_last() =~= ts@.take(i as int));
            assert(done.last() == ts@[i as int]);
        }
        match translate_usage_in(&ts[i], vars) {
            Ok(c) => {
                let ghost before = out@;
                out.push(c);
                assert(ctors_model(out@) =~= ctors_model(before).push(c@));
            },
            Err(e) => {
                proof {
                    lemma_args_model_error_stays(ts@, vars.deep_view(), i + 1);
                }
                return Err(e);
            },
        }
        i = i + 1;
    }
    assert(ts@.take(n as int) =~= ts@);
    Ok(out)
}

/// Once a prefix of the arguments fails, the whole list fails with the same
/// error.
proof fn lemma_args_model_error_stays(
    ts: Seq<NativeType>,
    vars: Seq<(Seq<char>, Seq<char>)>,
    k: int,
)
    requires
        0 <= k <= ts.len(),
        args_model(ts.take(k), vars) is Err,
    ensures
        args_model(ts, vars) == args_model(ts.take(k), vars),
    decreases ts.len() - k,
{
    if k < ts.len() {
        let next = ts.take(k + 1);
        assert(next.drop_last() =~= ts.take(k));
        lemma_args_model_error_stays(ts, vars, k + 1);
    } else {
        assert(ts.take(k) =~= ts);
    }
}

/// The shape of a native type definition.
#[derive(Debug, PartialEq, Eq)]
pub enum TypeShape {
    /// Named fields, in declared order.
    Record(Vec<(String, NativeType)>),
    /// Positional fields, in declared order.
    Positional(Vec<NativeType>),
    /// No fields at all.
    Unit,
    /// Variants, each with its name and positional payload types.
    Union(Vec<(String, Vec<NativeType>)>),
    /// A shape none of the above describes.
    Unclassified(String),
}

/// A native type definition: its name, its generic parameters in declared
/// order, and its shape.
#[derive(Debug, PartialEq, Eq)]
pub struct TypeDefinition {
    pub name: String,
    pub generics: Vec<String>,
    pub shape: TypeShape,
}

/// The model of a translated declaration, or of the error.
pub open spec fn decl_result(r: Result<PursType, TranslateError>) -> Result<DeclModel, ErrorModel> {
    match r {
        Ok(d) => Ok(d@),
        Err(e) => Err(e@),
    }
}

/// The head of a declaration: its name applied to its type variables.
pub open spec fn head_model(name: Seq<char>, vars: Seq<(Seq<char>, Seq<char>)>) -> CtorModel {
    CtorModel {
        module: None,
        name,
        params: Seq::new(vars.len(), |i: int| var_model(vars[i].1)),
    }
}

/// The translated record fields, in order.
pub open spec fn fields_usage(
    fs: Seq<(String, NativeType)>,
    vars: Seq<(Seq<char>, Seq<char>)>,
) -> Result<Seq<(Seq<char>, CtorModel)>, ErrorModel>
    decreases fs.len(),
{
    if fs.len() == 0 {
        Ok(Seq::empty())
    } else {
        match fields_usage(fs.drop_last(), vars) {
            Ok(done) => match usage_model(fs.last().1, vars) {
                Ok(c) => Ok(done.push((fs.last().0@, c))),
                Err(e) => Err(e),
            },
            Err(e) => Err(e),
        }
    }
}

/// A variant: its name applied to its translated payload types.
pub open spec fn variant_model(v: (String, Vec<NativeType>), vars: Seq<(Seq<char>, Seq<char>)>) -> Result<
    CtorModel,
    ErrorModel,
> {
    match args_model(v.1@, vars) {
        Ok(ps) => Ok(CtorModel { module: None, name: v.0@, params: ps }),
        Err(e) => Err(e),
    }
}

/// The translated variants, in order.
pub open spec fn variants_usage(
    vs: Seq<(String, Vec<NativeType>)>,
    vars: Seq<(Seq<char>, Seq<char>)>,
) -> Result<Seq<CtorModel>, ErrorModel>
    decreases vs.len(),
{
    if vs.len() == 0 {
        Ok(Seq::empty())
    } else {
        match variants_usage(vs.drop_last(), vars) {
            Ok(done) => match variant_model(vs.last(), vars) {
                Ok(c) => Ok(done.push(c)),
                Err(e) => Err(e),
            },
            Err(e) => Err(e),
        }
    }
}

/// The declaration of a definition named `name` of shape `shape`, with the
/// type variables `vars`.
pub open spec fn definition_model(
    name: Seq<char>,
    shape: TypeShape,
    vars: Seq<(Seq<char>, Seq<char>)>,
) -> Result<DeclModel, ErrorModel> {
    let head = head_model(name, vars);
    match shape {
        TypeShape::Record(fs) => match fields_usage(fs@, vars) {
            Ok(ts) => Ok(DeclModel::Struct(head, ts)),
            Err(e) => Err(e),
        },
        TypeShape::Positional(ts) => match args_model(ts@, vars) {
            Ok(cs) => Ok(DeclModel::TupleStruct(head, cs)),
            Err(e) => Err(e),
        },
        TypeShape::Unit => Ok(DeclModel::TupleStruct(head, Seq::empty())),
        TypeShape::Union(vs) => match variants_usage(vs@, vars) {
            Ok(cs) => Ok(DeclModel::Enum(head, cs)),
            Err(e) => Err(e),
        },
        TypeShape::Unclassified(d) => Err(ErrorModel::UnsupportedShape(d@)),
    }
}

/// The head constructor of a declaration named `name`.
fn translate_head(name: &String, vars: &Vec<(String, String)>) -> (r: PursConstructor)
    ensures
        r@ == head_model(name@, vars.deep_view()),
{
    let mut params: Vec<PursConstructor> = Vec::new();
    let n = vars.len();
    let mut i: usize = 0;
    while i < n
        invariant
            n == vars@.len(),
            0 <= i <= n,
            ctors_model(params@) =~= head_model(name@, vars.deep_view()).params.take(i as int),
        decreases n - i,
    {
        let ghost before = params@;
        params.push(PursConstructor::leaf(None, vars[i].1.clone()));
        assert(ctors_model(params@) =~= ctors_model(before).push(var_model(vars.deep_view()[i as int].1)));
        i = i + 1;
    }
    let r = PursConstructor { module: None, name: name.clone(), parameters: params };
    proof {
        lemma_view_params(&r);
        assert(head_model(name@, vars.deep_view()).params.take(n as int) =~= head_model(
            name@,
            vars.deep_view(),
        ).params);
    }
    r
}

proof fn lemma_fields_usage_error_stays(
    fs: Seq<(String, NativeType)>,
    vars: Seq<(Seq<char>, Seq<char>)>,
    k: int,
)
    requires
        0 <= k <= fs.len(),
        fields_usage(fs.take(k), vars) is Err,
    ensures
        fields_usage(fs, vars) == fields_usage(fs.take(k), vars),
    decreases fs.len() - k,
{
    if k < fs.len() {
        assert(fs.take(k + 1).drop_last() =~= fs.take(k));
        lemma_fields_usage_error_stays(fs, vars, k + 1);
    } else {
        assert(fs.take(k) =~= fs);
    }
}

proof fn lemma_variants_usage_error_stays(
    vs: Seq<(String, Vec<NativeType>)>,
    vars: Seq<(Seq<char>, Seq<char>)>,
    k: int,
)
    requires
        0 <= k <= vs.len(),
        variants_usage(vs.take(k), vars) is Err,
    ensures
        variants_usage(vs, vars) == variants_usage(vs.take(k), vars),
    decreases vs.len() - k,
{
    if k < vs.len() {
        assert(vs.take(k + 1).drop_last() =~= vs.take(k));
        lemma_variants_usage_error_stays(vs, vars, k + 1);
    } else {
        assert(vs.take(k) =~= vs);
    }
}

/// Translates record fields, in order.
fn translate_fields(fs: &Vec<(String, NativeType)>, vars: &Vec<(String, String)>) -> (r: Result<
    Vec<(String, PursConstructor)>,
    TranslateError,
>)
    ensures
        match r {
            Ok(v) => fields_usage(fs@, vars.deep_view()) == Ok::<
                Seq<(Seq<char>, CtorModel)>,
                ErrorModel,
            >(fields_model(v@)),
            Err(e) => fields_usage(fs@, vars.deep_view()) == Err::<
                Seq<(Seq<char>, CtorModel)>,
                ErrorModel,
            >(e@),
        },
{
    let mut out: Vec<(String, PursConstructor)> = Vec::new();
    let n = fs.len();
    let mut i: usize = 0;
    assert(fs@.take(0) =~= Seq::<(String, NativeType)>::empty());
    assert(fields_model(out@) =~= Seq::<(Seq<char>, CtorModel)>::empty());
    while i < n
        invariant
            n == fs@.len(),
            0 <= i <= n,
            fields_usage(fs@.take(i as int), vars.deep_view()) == Ok::<
                Seq<(Seq<char>, CtorModel)>,
                ErrorModel,
            >(fields_model(out@)),
        decreases n - i,
    {
        proof {
            let done = fs@.take(i + 1);
            assert(done.drop_last() =~= fs@.take(i as int));
            assert(done.last() == fs@[i as int]);
        }
        match translate_usage_in(&fs[i].1, vars) {
            Ok(c) => {
                let ghost before = out@;
                out.push((fs[i].0.clone(), c));
                assert(fields_model(out@) =~= fields_model(before).push((fs@[i as int].0@, c@)));
            },
            Err(e) => {
                proof {
                    lemma_fields_usage_error_stays(fs@, vars.deep_view(), i + 1);
                }
                return Err(e);
            },
        }
        i = i + 1;
    }
    assert(fs@.take(n as int) =~= fs@);
    Ok(out)
}

/// Translates the variants of a union, in order.
fn translate_variants(vs: &Vec<(String, Vec<NativeType>)>, vars: &Vec<(String, String)>) -> (r:
    Result<Vec<PursConstructor>, TranslateError>)
    ensures
        ctors_result(r) == variants_usage(vs@, vars.deep_view()),
{
    let mut out: Vec<PursConstructor> = Vec::new();
    let n = vs.len();
    let mut i: usize = 0;
    assert(vs@.take(0) =~= Seq::<(String, Vec<NativeType>)>::empty());
    assert(ctors_model(out@) =~= Seq::<CtorModel>::empty());
    while i < n
        invariant
            n == vs@.len(),
            0 <= i <= n,
            variants_usage(vs@.take(i as int), vars.deep_view()) == Ok::<Seq<CtorModel>, ErrorModel>(
                ctors_model(out@),
            ),
        decreases n - i,
    {
        proof {
            let done = vs@.take(i + 1);
            assert(done.drop_last() =~= vs@.take(i as int));
            assert(done.last() == vs@[i as int]);
        }
        match translate_args(&vs[i].1, vars) {
            Ok(ps) => {
                let ghost before = out@;
                let c = PursConstructor { module: None, name: vs[i].0.clone(), parameters: ps };
                proof {
                    lemma_view_params(&c);
                }
                out.push(c);
                assert(ctors_model(out@) =~= ctors_model(before).push(c@));
            },
            Err(e) => {
                proof {
                    lemma_variants_usage_error_stays(vs@, vars.deep_view(), i + 1);
                }
                return Err(e);
            },
        }
        i = i + 1;
    }
    assert(vs@.take(n as int) =~= vs@);
    Ok(out)
}

/// Translates a definition with the type variables `vars`, given as
/// (declared name, variable name) pairs; the definition's own list of
/// generic parameters is not read.
pub fn translate_definition_in(def: &TypeDefinition, vars: &Vec<(String, String)>) -> (r: Result<
    PursType,
    TranslateError,
>)
    ensures
        decl_result(r) == definition_model(def.name@, def.shape, vars.deep_view()),
{
    let head = translate_head(&def.name, vars);
    match &def.shape {
        TypeShape::Record(fs) => match translate_fields(fs, vars) {
            Ok(ts) => Ok(PursType::Struct(head, ts)),
            Err(e) => Err(e),
        },
        TypeShape::Positional(ts) => match translate_args(ts, vars) {
            Ok(cs) => Ok(PursType::TupleStruct(head, cs)),
            Err(e) => Err(e),
        },
        TypeShape::Unit => {
            let fields: Vec<PursConstructor> = Vec::new();
            assert(ctors_model(fields@) =~= Seq::<CtorModel>::empty());
            Ok(PursType::TupleStruct(head, fields))
        },
        TypeShape::Union(vs) => match translate_variants(vs, vars) {
            Ok(cs) => Ok(PursType::Enum(head, cs)),
            Err(e) => Err(e),
        },
        TypeShape::Unclassified(d) => Err(TranslateError::UnsupportedShape(d.clone())),
    }
}

/// Translates a definition: its generic parameters become lowercase type
/// variables, both on the head and wherever a field or payload names them.
pub fn translate_definition(def: &TypeDefinition) -> (r: Result<PursType, TranslateError>)
    ensures
        decl_result(r) == definition_model(
            def.name@,
            def.shape,
            vars_of(def.generics.deep_view()),
        ),
{
    let vars = type_variables(&def.generics);
    translate_definition_in(def, &vars)
}

/// Translates a type usage inside a definition with the generic parameters
/// `generics`.
pub fn translate_usage(t: &NativeType, generics: &Vec<String>) -> (r: Result<
    PursConstructor,
    TranslateError,
>)
    ensures
        ctor_result(r) == usage_model(*t, vars_of(generics.deep_view())),
{
    let vars = type_variables(generics);
    translate_usage_in(t, &vars)
}

} // verus!
