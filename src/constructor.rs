use vstd::prelude::*;

verus! {

/// The mathematical value of a type constructor: a name, the module that
/// exports it (if any), and its parameters.
pub struct CtorModel {
    pub module: Option<Seq<char>>,
    pub name: Seq<char>,
    pub params: Seq<CtorModel>,
}

/// A Purescript type name applied to its parameters, with the module it
/// comes from.
#[derive(Debug, PartialEq, Eq)]
pub struct PursConstructor {
    /// The Purescript module this type comes from, e.g. `Data.Maybe` for `Maybe`.
    pub module: Option<String>,
    /// The Purescript name of the type.
    pub name: String,
    /// The parameters the type is applied to.
    pub parameters: Vec<PursConstructor>,
}

pub open spec fn module_view(m: Option<String>) -> Option<Seq<char>> {
    match m {
        Some(s) => Some(s@),
        None => None,
    }
}

/// The model of a constructor tree.
pub open spec fn model_of(c: PursConstructor) -> CtorModel
    decreases c,
{
    CtorModel {
        module: module_view(c.module),
        name: c.name@,
        params: Seq::new(
            c.parameters@.len(),
            |i: int|
                if 0 <= i < c.parameters@.len() {
                    model_of(c.parameters@[i])
                } else {
                    arbitrary()
                },
        ),
    }
}

impl View for PursConstructor {
    type V = CtorModel;

    open spec fn view(&self) -> CtorModel {
        model_of(*self)
    }
}

/// The placeholder module of the primitive types; it is never imported.
pub open spec fn builtin_module() -> Seq<char> {
    "PRIM"@
}

/// A constructor without parameters.
pub open spec fn leaf_model(module: Option<Seq<char>>, name: Seq<char>) -> CtorModel {
    CtorModel { module, name, params: Seq::empty() }
}

/// A primitive type, from the placeholder module.
pub open spec fn prim_model(name: Seq<char>) -> CtorModel {
    leaf_model(Some(builtin_module()), name)
}

pub open spec fn array_model(elem: CtorModel) -> CtorModel {
    CtorModel { module: None, name: "Array"@, params: seq![elem] }
}

pub open spec fn maybe_model(elem: CtorModel) -> CtorModel {
    CtorModel { module: Some("Data.Maybe"@), name: "Maybe"@, params: seq![elem] }
}

pub open spec fn tuple_model(first: CtorModel, second: CtorModel) -> CtorModel {
    CtorModel { module: Some("Data.Tuple"@), name: "Tuple"@, params: seq![first, second] }
}

pub open spec fn unit_model() -> CtorModel {
    leaf_model(Some("Prelude"@), "Unit"@)
}

/// Text of a constructor: its name followed by each parameter.
pub open spec fn ctor_text(c: CtorModel) -> Seq<char>
    decreases c, 0nat,
{
    c.name + params_text(c.params)
}

/// Text of a constructor standing as a parameter of another one: in
/// parentheses exactly when it has parameters itself.
pub open spec fn nested_text(c: CtorModel) -> Seq<char>
    decreases c, 1nat,
{
    if c.params.len() == 0 {
        ctor_text(c)
    } else {
        "("@ + ctor_text(c) + ")"@
    }
}

/// Text of a parameter list: each parameter preceded by a space.
pub open spec fn params_text(ps: Seq<CtorModel>) -> Seq<char>
    decreases ps, 2nat,
{
    if ps.len() == 0 {
        Seq::empty()
    } else {
        params_text(ps.drop_last()) + " "@ + nested_text(ps.last())
    }
}

/// The text of a concatenated parameter list is the concatenation of their
/// texts.
pub proof fn lemma_params_text_append(a: Seq<CtorModel>, b: Seq<CtorModel>)
    ensures
        params_text(a + b) == params_text(a) + params_text(b),
    decreases b.len(),
{
    if b.len() == 0 {
        assert(a + b =~= a);
        assert(params_text(a) + params_text(b) =~= params_text(a));
    } else {
        assert((a + b).drop_last() =~= a + b.drop_last());
        lemma_params_text_append(a, b.drop_last());
        assert(params_text(a + b) =~= params_text(a) + params_text(b));
    }
}

/// In the text of a constructor each parameter stands after a space, bare
/// when it has no parameters of its own and in parentheses when it has some.
pub proof fn lemma_nested_parameter_parenthesized(c: CtorModel, i: int)
    requires
        0 <= i < c.params.len(),
    ensures
        ctor_text(c) == c.name + params_text(c.params.take(i)) + " "@ + nested_text(c.params[i])
            + params_text(c.params.skip(i + 1)),
        c.params[i].params.len() == 0 ==> nested_text(c.params[i]) == ctor_text(c.params[i]),
        c.params[i].params.len() > 0 ==> nested_text(c.params[i]) == "("@ + ctor_text(c.params[i])
            + ")"@,
{
    let ps = c.params;
    let front = ps.take(i + 1);
    assert(ps =~= front + ps.skip(i + 1));
    lemma_params_text_append(front, ps.skip(i + 1));
    assert(front.drop_last() =~= ps.take(i));
    assert(ctor_text(c) =~= c.name + params_text(c.params.take(i)) + " "@ + nested_text(
        c.params[i],
    ) + params_text(c.params.skip(i + 1)));
}

/// The models of a sequence of constructors, in order.
pub open spec fn ctors_model(v: Seq<PursConstructor>) -> Seq<CtorModel> {
    Seq::new(v.len(), |i: int| v[i]@)
}

/// The view of a constructor lists the views of its parameters, in order.
pub proof fn lemma_view_params(c: &PursConstructor)
    ensures
        c@.name == c.name@,
        c@.module == module_view(c.module),
        c@.params == ctors_model(c.parameters@),
{
    assert forall|j: int| 0 <= j < c.parameters@.len() implies #[trigger] c@.params[j]
        == c.parameters@[j]@ by {
        reveal_with_fuel(model_of, 2);
    }
    assert(c@.params =~= ctors_model(c.parameters@));
}

/// Appends the text of a parameter list to `out`: each parameter after a
/// space, in parentheses when it has parameters itself.
pub fn write_params(ps: &Vec<PursConstructor>, out: &mut String)
    ensures
        final(out)@ == old(out)@ + params_text(ctors_model(ps@)),
    decreases ps, 1nat,
{
    let n = ps.len();
    let mut i: usize = 0;
    while i < n
        invariant
            n == ps@.len(),
            0 <= i <= n,
            out@ == old(out)@ + params_text(ctors_model(ps@).take(i as int)),
        decreases n - i,
    {
        let p = &ps[i];
        proof {
            lemma_view_params(p);
        }
        let ghost before = out@;
        out.append(" ");
        if p.parameters.len() == 0 {
            p.write_to(out);
        } else {
            out.append("(");
            p.write_to(out);
            out.append(")");
        }
        let ghost done = ctors_model(ps@).take(i + 1);
        assert(done.drop_last() =~= ctors_model(ps@).take(i as int));
        assert(done.last() == p@);
        assert(out@ =~= before + " "@ + nested_text(p@));
        assert(out@ =~= old(out)@ + params_text(done));
        i = i + 1;
    }
    assert(ctors_model(ps@).take(n as int) =~= ctors_model(ps@));
}

impl PursConstructor {
    /// A constructor without parameters.
    pub fn leaf(module: Option<String>, name: String) -> (r: PursConstructor)
        ensures
            r@ == leaf_model(module_view(module), name@),
    {
        let r = PursConstructor { module, name, parameters: Vec::new() };
        proof {
            lemma_view_params(&r);
            assert(r@.params =~= Seq::<CtorModel>::empty());
        }
        r
    }

    /// A primitive type, from the placeholder module.
    pub fn primitive(name: &str) -> (r: PursConstructor)
        ensures
            r@ == prim_model(name@),
    {
        PursConstructor::leaf(Some(String::from_str("PRIM")), String::from_str(name))
    }

    /// `Array elem`.
    pub fn array(elem: PursConstructor) -> (r: PursConstructor)
        ensures
            r@ == array_model(elem@),
    {
        let mut parameters = Vec::new();
        parameters.push(elem);
        let r = PursConstructor { module: None, name: String::from_str("Array"), parameters };
        proof {
            lemma_view_params(&r);
            assert(r@.params =~= seq![elem@]);
        }
        r
    }

    /// `Maybe elem`, from `Data.Maybe`.
    pub fn maybe(elem: PursConstructor) -> (r: PursConstructor)
        ensures
            r@ == maybe_model(elem@),
    {
        let mut parameters = Vec::new();
        parameters.push(elem);
        let r = PursConstructor {
            module: Some(String::from_str("Data.Maybe")),
            name: String::from_str("Maybe"),
            parameters,
        };
        proof {
            lemma_view_params(&r);
            assert(r@.params =~= seq![elem@]);
        }
        r
    }

    /// `Tuple first second`, from `Data.Tuple`.
    pub fn tuple(first: PursConstructor, second: PursConstructor) -> (r: PursConstructor)
        ensures
            r@ == tuple_model(first@, second@),
    {
        let mut parameters = Vec::new();
        parameters.push(first);
        parameters.push(second);
        let r = PursConstructor {
            module: Some(String::from_str("Data.Tuple")),
            name: String::from_str("Tuple"),
            parameters,
        };
        proof {
            lemma_view_params(&r);
            assert(r@.params =~= seq![first@, second@]);
        }
        r
    }

    /// `Unit`, from `Prelude`.
    pub fn unit() -> (r: PursConstructor)
        ensures
            r@ == unit_model(),
    {
        PursConstructor::leaf(Some(String::from_str("Prelude")), String::from_str("Unit"))
    }

    /// Appends the text of this constructor to `out`.
    pub fn write_to(&self, out: &mut String)
        ensures
            final(out)@ == old(out)@ + ctor_text(self@),
        decreases self, 0nat,
    {
        proof {
            lemma_view_params(self);
        }
        out.append(self.name.as_str());
        write_params(&self.parameters, out);
        assert(out@ =~= old(out)@ + ctor_text(self@));
    }

    /// The text of this constructor, e.g. `Maybe (Array Int)`.
    pub fn render(&self) -> (r: String)
        ensures
            r@ == ctor_text(self@),
    {
        let mut out = String::new();
        self.write_to(&mut out);
        out
    }
}

} // verus!
