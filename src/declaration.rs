use vstd::prelude::*;

use crate::constructor::{
    ctor_text, ctors_model, lemma_view_params, params_text, write_params, CtorModel,
    PursConstructor,
};

verus! {

/// A Purescript data type declaration. The head constructor names the type
/// and carries its type variables.
#[derive(Debug, PartialEq, Eq)]
pub enum PursType {
    /// A record: `data T = T { a :: A, b :: B }`.
    Struct(PursConstructor, Vec<(String, PursConstructor)>),
    /// Positional fields: `data T = T A B`.
    TupleStruct(PursConstructor, Vec<PursConstructor>),
    /// A tagged union; each variant's parameters are its payload types.
    Enum(PursConstructor, Vec<PursConstructor>),
}

/// The mathematical value of a declaration.
pub enum DeclModel {
    Struct(CtorModel, Seq<(Seq<char>, CtorModel)>),
    TupleStruct(CtorModel, Seq<CtorModel>),
    Enum(CtorModel, Seq<CtorModel>),
}

/// The models of a sequence of record fields, in order.
pub open spec fn fields_model(v: Seq<(String, PursConstructor)>) -> Seq<(Seq<char>, CtorModel)> {
    Seq::new(v.len(), |i: int| (v[i].0@, v[i].1@))
}

impl View for PursType {
    type V = DeclModel;

    open spec fn view(&self) -> DeclModel {
        match self {
            PursType::Struct(h, fs) => DeclModel::Struct(h@, fields_model(fs@)),
            PursType::TupleStruct(h, fs) => DeclModel::TupleStruct(h@, ctors_model(fs@)),
            PursType::Enum(h, vs) => DeclModel::Enum(h@, ctors_model(vs@)),
        }
    }
}

impl DeclModel {
    /// The head constructor of the declaration.
    pub open spec fn head(self) -> CtorModel {
        match self {
            DeclModel::Struct(h, _) => h,
            DeclModel::TupleStruct(h, _) => h,
            DeclModel::Enum(h, _) => h,
        }
    }
}

/// The items joined with `sep` between each two of them.
pub open spec fn join_with(items: Seq<Seq<char>>, sep: Seq<char>) -> Seq<char>
    decreases items.len(),
{
    if items.len() == 0 {
        Seq::empty()
    } else if items.len() == 1 {
        items[0]
    } else {
        join_with(items.drop_last(), sep) + sep + items.last()
    }
}

/// The names of the type variables, each followed by a space.
pub open spec fn type_vars_text(ps: Seq<CtorModel>) -> Seq<char>
    decreases ps.len(),
{
    if ps.len() == 0 {
        Seq::empty()
    } else {
        type_vars_text(ps.drop_last()) + ps.last().name + " "@
    }
}

/// `data <Name> <vars> `, the start of every declaration.
pub open spec fn head_text(h: CtorModel) -> Seq<char> {
    "data "@ + h.name + " "@ + type_vars_text(h.params)
}

/// `<field> :: <type>`.
pub open spec fn field_text(f: (Seq<char>, CtorModel)) -> Seq<char> {
    f.0 + " :: "@ + ctor_text(f.1)
}

/// The text of each record field, in order.
pub open spec fn field_texts(fs: Seq<(Seq<char>, CtorModel)>) -> Seq<Seq<char>> {
    Seq::new(fs.len(), |i: int| field_text(fs[i]))
}

/// The text of each constructor, in order.
pub open spec fn ctor_texts(cs: Seq<CtorModel>) -> Seq<Seq<char>> {
    Seq::new(cs.len(), |i: int| ctor_text(cs[i]))
}

/// The body of a record between its braces.
pub open spec fn record_body_text(fs: Seq<(Seq<char>, CtorModel)>) -> Seq<char> {
    if fs.len() == 0 {
        Seq::empty()
    } else {
        join_with(field_texts(fs), ", "@) + " "@
    }
}

/// The text of a declaration.
pub open spec fn decl_text(d: DeclModel) -> Seq<char> {
    match d {
        DeclModel::Struct(h, fs) => head_text(h) + "= "@ + h.name + " { "@ + record_body_text(fs)
            + "}"@,
        DeclModel::TupleStruct(h, fs) => head_text(h) + "= "@ + h.name + params_text(fs),
        DeclModel::Enum(h, vs) => head_text(h) + "= "@ + join_with(ctor_texts(vs), " | "@),
    }
}

/// Appends `data <Name> <vars> ` to `out`.
fn write_head(h: &PursConstructor, out: &mut String)
    ensures
        final(out)@ == old(out)@ + head_text(h@),
{
    proof {
        lemma_view_params(h);
    }
    out.append("data ");
    out.append(h.name.as_str());
    out.append(" ");
    let ghost start = out@;
    let n = h.parameters.len();
    let mut i: usize = 0;
    while i < n
        invariant
            n == h.parameters@.len(),
            h@.params == ctors_model(h.parameters@),
            0 <= i <= n,
            out@ == start + type_vars_text(h@.params.take(i as int)),
        decreases n - i,
    {
        let ghost before = out@;
        out.append(h.parameters[i].name.as_str());
        out.append(" ");
        proof {
            lemma_view_params(&h.parameters@[i as int]);
            let done = h@.params.take(i + 1);
            assert(done.drop_last() =~= h@.params.take(i as int));
        }
        assert(out@ =~= start + type_vars_text(h@.params.take(i + 1)));
        i = i + 1;
    }
    assert(h@.params.take(n as int) =~= h@.params);
    assert(out@ =~= old(out)@ + head_text(h@));
}

/// Appends the record fields, separated by commas, to `out`.
fn write_fields(fs: &Vec<(String, PursConstructor)>, out: &mut String)
    ensures
        final(out)@ == old(out)@ + join_with(field_texts(fields_model(fs@)), ", "@),
{
    let ghost texts = field_texts(fields_model(fs@));
    let n = fs.len();
    let mut i: usize = 0;
    while i < n
        invariant
            n == fs@.len(),
            texts == field_texts(fields_model(fs@)),
            0 <= i <= n,
            out@ == old(out)@ + join_with(texts.take(i as int), ", "@),
        decreases n - i,
    {
        let ghost before = out@;
        if i > 0 {
            out.append(", ");
        }
        out.append(fs[i].0.as_str());
        out.append(" :: ");
        fs[i].1.write_to(out);
        proof {
            let done = texts.take(i + 1);
            assert(done.drop_last() =~= texts.take(i as int));
            assert(done.last() == field_text(fields_model(fs@)[i as int]));
        }
        assert(out@ =~= old(out)@ + join_with(texts.take(i + 1), ", "@));
        i = i + 1;
    }
    assert(texts.take(n as int) =~= texts);
}

/// Appends the variants, separated by ` | `, to `out`.
fn write_variants(vs: &Vec<PursConstructor>, out: &mut String)
    ensures
        final(out)@ == old(out)@ + join_with(ctor_texts(ctors_model(vs@)), " | "@),
{
    let ghost texts = ctor_texts(ctors_model(vs@));
    let n = vs.len();
    let mut i: usize = 0;
    while i < n
        invariant
            n == vs@.len(),
            texts == ctor_texts(ctors_model(vs@)),
            0 <= i <= n,
            out@ == old(out)@ + join_with(texts.take(i as int), " | "@),
        decreases n - i,
    {
        let ghost before = out@;
        if i > 0 {
            out.append(" | ");
        }
        vs[i].write_to(out);
        proof {
            let done = texts.take(i + 1);
            assert(done.drop_last() =~= texts.take(i as int));
            assert(done.last() == ctor_text(ctors_model(vs@)[i as int]));
        }
        assert(out@ =~= old(out)@ + join_with(texts.take(i + 1), " | "@));
        i = i + 1;
    }
    assert(texts.take(n as int) =~= texts);
}

impl PursType {
    /// The head constructor: the declared type's name and type variables.
    pub fn head(&self) -> (r: &PursConstructor)
        ensures
            r@ == self@.head(),
    {
        match self {
            PursType::Struct(h, _) => h,
            PursType::TupleStruct(h, _) => h,
            PursType::Enum(h, _) => h,
        }
    }

    /// Appends the declaration's text to `out`.
    pub fn write_to(&self, out: &mut String)
        ensures
            final(out)@ == old(out)@ + decl_text(self@),
    {
        match self {
            PursType::Struct(h, fs) => {
                write_head(h, out);
                out.append("= ");
                out.append(h.name.as_str());
                out.append(" { ");
                let ghost mid = out@;
                if fs.len() > 0 {
                    write_fields(fs, out);
                    out.append(" ");
                }
                out.append("}");
                proof {
                    lemma_view_params(h);
                }
                assert(out@ =~= old(out)@ + decl_text(self@));
            },
            PursType::TupleStruct(h, fs) => {
                write_head(h, out);
                out.append("= ");
                out.append(h.name.as_str());
                write_params(fs, out);
                proof {
                    lemma_view_params(h);
                }
                assert(out@ =~= old(out)@ + decl_text(self@));
            },
            PursType::Enum(h, vs) => {
                write_head(h, out);
                out.append("= ");
                write_variants(vs, out);
                assert(out@ =~= old(out)@ + decl_text(self@));
            },
        }
    }

    /// The declaration's text, e.g. `data Email = Email String`.
    pub fn render(&self) -> (r: String)
        ensures
            r@ == decl_text(self@),
    {
        let mut out = String::new();
        self.write_to(&mut out);
        out
    }
}

} // verus!
