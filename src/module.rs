use vstd::prelude::*;

use crate::constructor::{builtin_module, ctors_model, lemma_view_params, CtorModel, PursConstructor};
use crate::declaration::{decl_text, DeclModel, PursType};
use crate::imports::{
    collect, collect_all, entries_map, extends, lemma_collect_all_ordered_distinct,
    lemma_sorted_entries_unique, lists_distinct, mentions_any, register, sorted_keys,
};

verus! {

/// The mathematical value of a module.
pub struct ModuleModel {
    pub name: Seq<char>,
    pub imports: Seq<(Seq<char>, Seq<Seq<char>>)>,
    pub types: Seq<DeclModel>,
}

/// A Purescript module: a name, the imports its declarations need, ordered
/// by module name, and the declarations.
#[derive(Debug)]
pub struct PursModule {
    name: String,
    imports: Vec<(String, Vec<String>)>,
    types: Vec<PursType>,
}

impl View for PursModule {
    type V = ModuleModel;

    closed spec fn view(&self) -> ModuleModel {
        ModuleModel {
            name: self.name@,
            imports: self.imports.deep_view(),
            types: decls_model(self.types@),
        }
    }
}

/// The models of a sequence of declarations, in order.
pub open spec fn decls_model(v: Seq<PursType>) -> Seq<DeclModel> {
    Seq::new(v.len(), |i: int| v[i]@)
}

/// The import every module starts with: the class that the derived
/// instances need.
pub open spec fn bootstrap_imports() -> Map<Seq<char>, Seq<Seq<char>>> {
    map!["Data.Generic"@ => seq!["class Generic"@]]
}

/// The constructors of a declaration whose modules it imports: the head,
/// then each field type or variant in order.
pub open spec fn decl_ctors(d: DeclModel) -> Seq<CtorModel> {
    match d {
        DeclModel::Struct(h, fs) => seq![h] + Seq::new(fs.len(), |i: int| fs[i].1),
        DeclModel::TupleStruct(h, fs) => seq![h] + fs,
        DeclModel::Enum(h, vs) => seq![h] + vs,
    }
}

/// Registers the imports of each declaration in turn.
pub open spec fn collect_decls(m: Map<Seq<char>, Seq<Seq<char>>>, ds: Seq<DeclModel>) -> Map<
    Seq<char>,
    Seq<Seq<char>>,
>
    decreases ds.len(),
{
    if ds.len() == 0 {
        m
    } else {
        collect_all(collect_decls(m, ds.drop_last()), decl_ctors(ds.last()))
    }
}

/// The imports of a module made of `ds`.
pub open spec fn module_imports(ds: Seq<DeclModel>) -> Map<Seq<char>, Seq<Seq<char>>> {
    collect_decls(bootstrap_imports(), ds)
}

/// Each name on a line of its own.
pub open spec fn names_text(ns: Seq<Seq<char>>) -> Seq<char>
    decreases ns.len(),
{
    if ns.len() == 0 {
        Seq::empty()
    } else {
        names_text(ns.drop_last()) + "\n"@ + ns.last()
    }
}

/// `import <Module> (` the names `)`; nothing for the primitive placeholder.
pub open spec fn import_text(e: (Seq<char>, Seq<Seq<char>>)) -> Seq<char> {
    if e.0 == builtin_module() {
        Seq::empty()
    } else {
        "import "@ + e.0 + " ("@ + names_text(e.1) + "\n)\n"@
    }
}

/// The import lines of the entries, in order.
pub open spec fn imports_text(s: Seq<(Seq<char>, Seq<Seq<char>>)>) -> Seq<char>
    decreases s.len(),
{
    if s.len() == 0 {
        Seq::empty()
    } else {
        imports_text(s.drop_last()) + import_text(s.last())
    }
}

/// `derive instance generic<Name> :: Generic <Name>`.
pub open spec fn instance_text(h: CtorModel) -> Seq<char> {
    "derive instance generic"@ + h.name + " :: Generic "@ + h.name
}

/// A declaration followed by its derived instance, each closed by a blank line.
pub open spec fn decl_block_text(d: DeclModel) -> Seq<char> {
    decl_text(d) + "\n\n"@ + instance_text(d.head()) + "\n\n"@
}

/// The blocks of the declarations, in order.
pub open spec fn decls_text(ds: Seq<DeclModel>) -> Seq<char>
    decreases ds.len(),
{
    if ds.len() == 0 {
        Seq::empty()
    } else {
        decls_text(ds.drop_last()) + decl_block_text(ds.last())
    }
}

/// The text of a module.
pub open spec fn module_text(m: ModuleModel) -> Seq<char> {
    "module "@ + m.name + " where\n\n"@ + imports_text(m.imports) + "\n"@ + decls_text(m.types)
}

/// `m` is the module that `PursModule::new` builds from `name` and `ds`.
pub open spec fn built_from(m: ModuleModel, name: Seq<char>, ds: Seq<DeclModel>) -> bool {
    &&& m.name == name
    &&& m.types == ds
    &&& sorted_keys(m.imports)
    &&& entries_map(m.imports) == module_imports(ds)
}

/// A module is a function of its name and declarations, and so is its text:
/// two modules built from the same ones are equal and render the same.
pub proof fn lemma_module_determined(a: ModuleModel, b: ModuleModel, name: Seq<char>, ds: Seq<DeclModel>)
    requires
        built_from(a, name, ds),
        built_from(b, name, ds),
    ensures
        a == b,
        module_text(a) == module_text(b),
{
    lemma_sorted_entries_unique(a.imports, b.imports);
}

/// Some declaration of `ds` mentions `name` from `module`.
pub open spec fn decls_mention(ds: Seq<DeclModel>, module: Seq<char>, name: Seq<char>) -> bool {
    exists|i: int| 0 <= i < ds.len() && #[trigger] mentions_any(decl_ctors(ds[i]), module, name)
}

/// The imports of a module list no name twice under one module, keep the
/// bootstrap `class Generic` first under `Data.Generic`, and list every
/// module-qualified name that a declaration mentions.
pub proof fn lemma_module_imports(ds: Seq<DeclModel>)
    ensures
        lists_distinct(module_imports(ds)),
        extends(bootstrap_imports(), module_imports(ds)),
        forall|k: Seq<char>, n: Seq<char>| #[trigger]
            decls_mention(ds, k, n) ==> module_imports(ds).contains_key(k) && module_imports(
                ds,
            )[k].contains(n),
    decreases ds.len(),
{
    let b = bootstrap_imports();
    assert forall|k: Seq<char>| #[trigger] b.contains_key(k) implies b[k].no_duplicates() by {}
    if ds.len() > 0 {
        let front = ds.drop_last();
        lemma_module_imports(front);
        let m = collect_decls(b, front);
        lemma_collect_all_ordered_distinct(m, decl_ctors(ds.last()));
        assert forall|k: Seq<char>, n: Seq<char>| #[trigger]
            decls_mention(ds, k, n) implies module_imports(ds).contains_key(k) && module_imports(
                ds,
            )[k].contains(n) by {
            let i = choose|i: int|
                0 <= i < ds.len() && #[trigger] mentions_any(decl_ctors(ds[i]), k, n);
            if i < ds.len() - 1 {
                assert(front[i] == ds[i]);
                assert(decls_mention(front, k, n));
                let j = choose|j: int| 0 <= j < m[k].len() && m[k][j] == n;
                assert(module_imports(ds)[k][j] == n);
            }
        }
    }
}

/// Registering the trees of `a + b` registers those of `a`, then those of `b`.
pub proof fn lemma_collect_all_append(
    m: Map<Seq<char>, Seq<Seq<char>>>,
    a: Seq<CtorModel>,
    b: Seq<CtorModel>,
)
    ensures
        collect_all(m, a + b) == collect_all(collect_all(m, a), b),
    decreases b.len(),
{
    if b.len() == 0 {
        assert(a + b =~= a);
    } else {
        assert((a + b).drop_last() =~= a + b.drop_last());
        lemma_collect_all_append(m, a, b.drop_last());
    }
}

/// Registers the imports of each constructor of `cs`, in order.
fn accumulate_all(imports: &mut Vec<(String, Vec<String>)>, cs: &Vec<PursConstructor>)
    requires
        sorted_keys(old(imports).deep_view()),
    ensures
        sorted_keys(final(imports).deep_view()),
        entries_map(final(imports).deep_view()) == collect_all(
            entries_map(old(imports).deep_view()),
            ctors_model(cs@),
        ),
    decreases cs, 1nat,
{
    let ghost m0 = entries_map(imports.deep_view());
    let n = cs.len();
    let mut i: usize = 0;
    while i < n
        invariant
            n == cs@.len(),
            0 <= i <= n,
            sorted_keys(imports.deep_view()),
            entries_map(imports.deep_view()) == collect_all(m0, ctors_model(cs@).take(i as int)),
        decreases n - i,
    {
        PursModule::accumulate_imports(imports, &cs[i]);
        proof {
            let done = ctors_model(cs@).take(i + 1);
            assert(done.drop_last() =~= ctors_model(cs@).take(i as int));
        }
        i = i + 1;
    }
    assert(ctors_model(cs@).take(n as int) =~= ctors_model(cs@));
}

/// Registers the imports of a declaration: its head, then its field types or
/// variants.
fn accumulate_decl(imports: &mut Vec<(String, Vec<String>)>, d: &PursType)
    requires
        sorted_keys(old(imports).deep_view()),
    ensures
        sorted_keys(final(imports).deep_view()),
        entries_map(final(imports).deep_view()) == collect_all(
            entries_map(old(imports).deep_view()),
            decl_ctors(d@),
        ),
{
    let ghost m0 = entries_map(imports.deep_view());
    match d {
        PursType::Struct(h, fs) => {
            let ghost all = decl_ctors(d@);
            PursModule::accumulate_imports(imports, h);
            assert(all.take(1).drop_last() =~= Seq::<CtorModel>::empty());
            assert(all.take(1).last() == h@);
            assert(all.len() == fs@.len() + 1);
            assert(collect_all(m0, Seq::<CtorModel>::empty()) == m0);
            assert(collect_all(m0, all.take(1)) == collect(m0, h@));
            let n = fs.len();
            let mut i: usize = 0;
            while i < n
                invariant
                    n == fs@.len(),
                    all == decl_ctors(d@),
                    all.len() == n + 1,
                    forall|j: int| 0 <= j < n ==> #[trigger] all[j + 1] == fs@[j].1@,
                    0 <= i <= n,
                    sorted_keys(imports.deep_view()),
                    entries_map(imports.deep_view()) == collect_all(m0, all.take(i + 1)),
                decreases n - i,
            {
                PursModule::accumulate_imports(imports, &fs[i].1);
                proof {
                    let done = all.take(i + 2);
                    assert(done.drop_last() =~= all.take(i + 1));
                    assert(done.last() == fs@[i as int].1@);
                }
                i = i + 1;
            }
            assert(all.take(n + 1) =~= all);
        },
        PursType::TupleStruct(h, fs) => {
            PursModule::accumulate_imports(imports, h);
            accumulate_all(imports, fs);
            proof {
                assert(seq![h@].drop_last() =~= Seq::<CtorModel>::empty());
                assert(collect_all(m0, Seq::<CtorModel>::empty()) == m0);
                assert(collect_all(m0, seq![h@]) == collect(m0, h@));
                lemma_collect_all_append(m0, seq![h@], ctors_model(fs@));
            }
        },
        PursType::Enum(h, vs) => {
            PursModule::accumulate_imports(imports, h);
            accumulate_all(imports, vs);
            proof {
                assert(seq![h@].drop_last() =~= Seq::<CtorModel>::empty());
                assert(collect_all(m0, Seq::<CtorModel>::empty()) == m0);
                assert(collect_all(m0, seq![h@]) == collect(m0, h@));
                lemma_collect_all_append(m0, seq![h@], ctors_model(vs@));
            }
        },
    }
}

/// Appends the import line of one entry to `out`, or nothing for the
/// primitive placeholder.
fn write_import(entry: &(String, Vec<String>), prim: &String, out: &mut String)
    requires
        prim@ == builtin_module(),
    ensures
        final(out)@ == old(out)@ + import_text(entry.deep_view()),
{
    if !entry.0.eq(prim) {
        out.append("import ");
        out.append(entry.0.as_str());
        out.append(" (");
        let ghost open_at = out@;
        let ghost ns = entry.1.deep_view();
        let m = entry.1.len();
        let mut j: usize = 0;
        while j < m
            invariant
                m == entry.1@.len(),
                ns == entry.1.deep_view(),
                0 <= j <= m,
                out@ == open_at + names_text(ns.take(j as int)),
            decreases m - j,
        {
            out.append("\n");
            out.append(entry.1[j].as_str());
            proof {
                let done = ns.take(j + 1);
                assert(done.drop_last() =~= ns.take(j as int));
            }
            assert(out@ =~= open_at + names_text(ns.take(j + 1)));
            j = j + 1;
        }
        assert(ns.take(m as int) =~= ns);
        out.append("\n)\n");
    }
    assert(out@ =~= old(out)@ + import_text(entry.deep_view()));
}

/// Appends a declaration and its derived instance to `out`.
fn write_decl_block(d: &PursType, out: &mut String)
    ensures
        final(out)@ == old(out)@ + decl_block_text(d@),
{
    d.write_to(out);
    out.append("\n\n");
    let h = d.head();
    proof {
        lemma_view_params(h);
    }
    out.append("derive instance generic");
    out.append(h.name.as_str());
    out.append(" :: Generic ");
    out.append(h.name.as_str());
    out.append("\n\n");
    assert(out@ =~= old(out)@ + decl_block_text(d@));
}

impl PursModule {
    /// Registers the module of `type_` and of every constructor inside it,
    /// depth first, in a key-sorted import list; a name already listed under
    /// its module is not added again.
    pub fn accumulate_imports(imports: &mut Vec<(String, Vec<String>)>, type_: &PursConstructor)
        requires
            sorted_keys(old(imports).deep_view()),
        ensures
            sorted_keys(final(imports).deep_view()),
            entries_map(final(imports).deep_view()) == collect(
                entries_map(old(imports).deep_view()),
                type_@,
            ),
        decreases type_, 0nat,
    {
        proof {
            lemma_view_params(type_);
        }
        if let Some(module) = &type_.module {
            register(imports, module, &type_.name);
        }
        accumulate_all(imports, &type_.parameters);
    }

    /// A module named `name` holding `types`, with the imports they need on
    /// top of the bootstrap import of `Data.Generic`.
    pub fn new(name: String, types: Vec<PursType>) -> (r: Self)
        ensures
            built_from(r@, name@, decls_model(types@)),
    {
        let mut names: Vec<String> = Vec::new();
        names.push(String::from_str("class Generic"));
        let mut imports: Vec<(String, Vec<String>)> = Vec::new();
        imports.push((String::from_str("Data.Generic"), names));
        proof {
            let s = imports.deep_view();
            assert(s[0].1 =~= seq!["class Generic"@]);
            assert forall|k: Seq<char>| #[trigger]
                entries_map(s).contains_key(k) == bootstrap_imports().contains_key(k) by {
                if entries_map(s).contains_key(k) {
                    let j = choose|j: int| 0 <= j < s.len() && s[j].0 == k;
                    assert(j == 0);
                }
                if k == "Data.Generic"@ {
                    assert(s[0].0 == k);
                }
            }
            assert(entries_map(s) =~= bootstrap_imports());
        }
        let ghost ds = decls_model(types@);
        let n = types.len();
        let mut i: usize = 0;
        while i < n
            invariant
                n == types@.len(),
                ds == decls_model(types@),
                0 <= i <= n,
                sorted_keys(imports.deep_view()),
                entries_map(imports.deep_view()) == collect_decls(
                    bootstrap_imports(),
                    ds.take(i as int),
                ),
            decreases n - i,
        {
            accumulate_decl(&mut imports, &types[i]);
            proof {
                let done = ds.take(i + 1);
                assert(done.drop_last() =~= ds.take(i as int));
            }
            i = i + 1;
        }
        assert(ds.take(n as int) =~= ds);
        PursModule { name, imports, types }
    }

    /// The module's text: its header, its imports but the primitive
    /// placeholder, then each declaration with its derived instance.
    pub fn render(&self) -> (r: String)
        ensures
            r@ == module_text(self@),
    {
        let mut out = String::new();
        out.append("module ");
        out.append(self.name.as_str());
        out.append(" where\n\n");
        let ghost header = out@;
        let prim = String::from_str("PRIM");
        let ghost es = self.imports.deep_view();
        let n = self.imports.len();
        let mut i: usize = 0;
        while i < n
            invariant
                n == self.imports@.len(),
                es == self.imports.deep_view(),
                prim@ == builtin_module(),
                0 <= i <= n,
                out@ == header + imports_text(es.take(i as int)),
            decreases n - i,
        {
            write_import(&self.imports[i], &prim, &mut out);
            proof {
                let done = es.take(i + 1);
                assert(done.drop_last() =~= es.take(i as int));
            }
            i = i + 1;
        }
        assert(es.take(n as int) =~= es);
        out.append("\n");
        let ghost middle = out@;
        let ghost ds = decls_model(self.types@);
        let k = self.types.len();
        let mut t: usize = 0;
        while t < k
            invariant
                k == self.types@.len(),
                ds == decls_model(self.types@),
                0 <= t <= k,
                out@ == middle + decls_text(ds.take(t as int)),
            decreases k - t,
        {
            write_decl_block(&self.types[t], &mut out);
            proof {
                let done = ds.take(t + 1);
                assert(done.drop_last() =~= ds.take(t as int));
            }
            assert(out@ =~= middle + decls_text(ds.take(t + 1)));
            t = t + 1;
        }
        assert(ds.take(k as int) =~= ds);
        assert(out@ =~= module_text(self@));
        out
    }
}

} // verus!
