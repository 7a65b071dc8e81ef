use vstd::prelude::*;

use crate::constructor::{lemma_view_params, CtorModel, PursConstructor};

verus! {

/// `a` sorts strictly before `b`, comparing characters from index `i` on
/// by code point, a proper prefix first.
pub open spec fn precedes_from(a: Seq<char>, b: Seq<char>, i: int) -> bool
    decreases a.len() - i,
{
    if i < 0 || i >= a.len() {
        0 <= i < b.len()
    } else if i >= b.len() {
        false
    } else if a[i] != b[i] {
        (a[i] as int) < (b[i] as int)
    } else {
        precedes_from(a, b, i + 1)
    }
}

/// The order of module names: by code point, which is also the byte order
/// of their UTF-8 encodings.
pub open spec fn precedes(a: Seq<char>, b: Seq<char>) -> bool {
    precedes_from(a, b, 0)
}

proof fn lemma_precedes_from_irreflexive(a: Seq<char>, i: int)
    requires
        0 <= i,
    ensures
        !precedes_from(a, a, i),
    decreases a.len() - i,
{
    if i < a.len() {
        lemma_precedes_from_irreflexive(a, i + 1);
    }
}

proof fn lemma_precedes_from_transitive(a: Seq<char>, b: Seq<char>, c: Seq<char>, i: int)
    requires
        0 <= i,
        precedes_from(a, b, i),
        precedes_from(b, c, i),
    ensures
        precedes_from(a, c, i),
    decreases a.len() - i,
{
    if i < a.len() && i < b.len() && i < c.len() && a[i] == b[i] && b[i] == c[i] {
        lemma_precedes_from_transitive(a, b, c, i + 1);
    }
}

proof fn lemma_precedes_from_total(a: Seq<char>, b: Seq<char>, i: int)
    requires
        0 <= i <= a.len(),
        i <= b.len(),
        a.take(i) == b.take(i),
        a != b,
    ensures
        precedes_from(a, b, i) || precedes_from(b, a, i),
    decreases a.len() - i,
{
    if i == a.len() && i == b.len() {
        assert(a =~= a.take(i));
        assert(b =~= b.take(i));
    } else if i < a.len() && i < b.len() && a[i] == b[i] {
        assert(a.take(i + 1) =~= a.take(i).push(a[i]));
        assert(b.take(i + 1) =~= b.take(i).push(b[i]));
        lemma_precedes_from_total(a, b, i + 1);
    } else if i < a.len() && i < b.len() {
        assert((a[i] as int) != (b[i] as int));
    }
}

/// The order of module names is a strict total order.
pub proof fn lemma_precedes_strict_total(a: Seq<char>, b: Seq<char>, c: Seq<char>)
    ensures
        !precedes(a, a),
        precedes(a, b) && precedes(b, c) ==> precedes(a, c),
        a != b ==> precedes(a, b) || precedes(b, a),
{
    lemma_precedes_from_irreflexive(a, 0);
    if precedes(a, b) && precedes(b, c) {
        lemma_precedes_from_transitive(a, b, c, 0);
    }
    if a != b {
        assert(a.take(0) =~= b.take(0));
        lemma_precedes_from_total(a, b, 0);
    }
}

/// Whether `a` sorts strictly before `b`.
pub fn str_precedes(a: &str, b: &str) -> (r: bool)
    ensures
        r == precedes(a@, b@),
{
    let la = a.unicode_len();
    let lb = b.unicode_len();
    let mut i: usize = 0;
    while i < la && i < lb
        invariant
            la == a@.len(),
            lb == b@.len(),
            0 <= i <= la,
            i <= lb,
            precedes(a@, b@) == precedes_from(a@, b@, i as int),
        decreases la - i,
    {
        let ca = a.get_char(i);
        let cb = b.get_char(i);
        if ca != cb {
            return (ca as u32) < (cb as u32);
        }
        i = i + 1;
    }
    i < lb && i == la
}

/// The (module, exported names) entries are in strictly increasing order of
/// module name, so no module appears twice.
pub open spec fn sorted_keys(s: Seq<(Seq<char>, Seq<Seq<char>>)>) -> bool {
    forall|i: int, j: int| 0 <= i < j < s.len() ==> precedes(s[i].0, s[j].0)
}

/// Some entry is for module `k`.
pub open spec fn has_key(s: Seq<(Seq<char>, Seq<Seq<char>>)>, k: Seq<char>) -> bool {
    exists|i: int| 0 <= i < s.len() && s[i].0 == k
}

/// The mapping from module to exported names that a list of entries holds.
pub open spec fn entries_map(s: Seq<(Seq<char>, Seq<Seq<char>>)>) -> Map<Seq<char>, Seq<Seq<char>>> {
    Map::new(
        |k: Seq<char>| has_key(s, k),
        |k: Seq<char>| s[choose|i: int| 0 <= i < s.len() && s[i].0 == k].1,
    )
}

/// Registers `name` under `module`, unless it is already there: a new name
/// goes to the end of the module's list.
pub open spec fn add_name(m: Map<Seq<char>, Seq<Seq<char>>>, module: Seq<char>, name: Seq<char>) -> Map<
    Seq<char>,
    Seq<Seq<char>>,
> {
    if m.contains_key(module) {
        if m[module].contains(name) {
            m
        } else {
            m.insert(module, m[module].push(name))
        }
    } else {
        m.insert(module, seq![name])
    }
}

/// Registers every module-qualified constructor of the tree, depth first:
/// the constructor itself, then its parameters in order.
pub open spec fn collect(m: Map<Seq<char>, Seq<Seq<char>>>, c: CtorModel) -> Map<
    Seq<char>,
    Seq<Seq<char>>,
>
    decreases c, 0nat,
{
    let m1 = match c.module {
        Some(k) => add_name(m, k, c.name),
        None => m,
    };
    collect_all(m1, c.params)
}

/// Registers the constructors of `cs`, one tree after the other.
pub open spec fn collect_all(m: Map<Seq<char>, Seq<Seq<char>>>, cs: Seq<CtorModel>) -> Map<
    Seq<char>,
    Seq<Seq<char>>,
>
    decreases cs, 1nat,
{
    if cs.len() == 0 {
        m
    } else {
        collect(collect_all(m, cs.drop_last()), cs.last())
    }
}

/// `c` or a constructor inside it is `name` from `module`.
pub open spec fn mentions(c: CtorModel, module: Seq<char>, name: Seq<char>) -> bool
    decreases c, 0nat,
{
    (c.module == Some(module) && c.name == name) || mentions_any(c.params, module, name)
}

/// A tree of `cs` mentions `name` from `module`.
pub open spec fn mentions_any(cs: Seq<CtorModel>, module: Seq<char>, name: Seq<char>) -> bool
    decreases cs, 1nat,
{
    cs.len() > 0 && (mentions_any(cs.drop_last(), module, name) || mentions(
        cs.last(),
        module,
        name,
    ))
}

/// `a` is a prefix of `b`.
pub open spec fn is_prefix(a: Seq<Seq<char>>, b: Seq<Seq<char>>) -> bool {
    a.len() <= b.len() && forall|i: int| 0 <= i < a.len() ==> a[i] == b[i]
}

/// No module lists a name twice.
pub open spec fn lists_distinct(m: Map<Seq<char>, Seq<Seq<char>>>) -> bool {
    forall|k: Seq<char>| #[trigger] m.contains_key(k) ==> m[k].no_duplicates()
}

/// `after` keeps every module of `before`, with its names first and in the
/// same order.
pub open spec fn extends(before: Map<Seq<char>, Seq<Seq<char>>>, after: Map<Seq<char>, Seq<Seq<char>>>) -> bool {
    forall|k: Seq<char>| #[trigger]
        before.contains_key(k) ==> after.contains_key(k) && is_prefix(before[k], after[k])
}

proof fn lemma_add_name_ordered_distinct(
    m: Map<Seq<char>, Seq<Seq<char>>>,
    module: Seq<char>,
    name: Seq<char>,
)
    requires
        lists_distinct(m),
    ensures
        lists_distinct(add_name(m, module, name)),
        extends(m, add_name(m, module, name)),
        add_name(m, module, name).contains_key(module),
        add_name(m, module, name)[module].contains(name),
{
    let r = add_name(m, module, name);
    if m.contains_key(module) && !m[module].contains(name) {
        let l = m[module].push(name);
        assert(l[l.len() - 1] == name);
        assert forall|k: Seq<char>| #[trigger] r.contains_key(k) implies r[k].no_duplicates() by {
            if k == module {
                assert forall|a: int, b: int| 0 <= a < l.len() && 0 <= b < l.len() && a != b implies l[a]
                    != l[b] by {
                    if a == l.len() - 1 {
                        assert(m[module][b] == l[b]);
                    } else if b == l.len() - 1 {
                        assert(m[module][a] == l[a]);
                    }
                }
            }
        }
    } else if !m.contains_key(module) {
        assert(seq![name][0] == name);
    }
}

/// Registering the trees `c` of: earlier names stay first and in order, every
/// module-qualified name in the tree ends up listed under its module, and no
/// name is listed twice under one module.
pub proof fn lemma_collect_ordered_distinct(m: Map<Seq<char>, Seq<Seq<char>>>, c: CtorModel)
    requires
        lists_distinct(m),
    ensures
        lists_distinct(collect(m, c)),
        extends(m, collect(m, c)),
        forall|k: Seq<char>, n: Seq<char>|
            #[trigger] mentions(c, k, n) ==> collect(m, c).contains_key(k) && collect(
                m,
                c,
            )[k].contains(n),
    decreases c, 0nat,
{
    let m1 = match c.module {
        Some(k) => add_name(m, k, c.name),
        None => m,
    };
    if let Some(k) = c.module {
        lemma_add_name_ordered_distinct(m, k, c.name);
    }
    lemma_collect_all_ordered_distinct(m1, c.params);
    let r = collect(m, c);
    assert forall|k: Seq<char>, n: Seq<char>| #[trigger] mentions(c, k, n) implies r.contains_key(k)
        && r[k].contains(n) by {
        if c.module == Some(k) && c.name == n {
            assert(m1.contains_key(k) && m1[k].contains(n));
            let j = choose|j: int| 0 <= j < m1[k].len() && m1[k][j] == n;
            assert(r[k][j] == n);
        } else {
            assert(mentions_any(c.params, k, n));
            assert(r == collect_all(m1, c.params));
        }
    }
}

/// `lemma_collect_ordered_distinct` for the trees of `cs`, one after the other.
pub proof fn lemma_collect_all_ordered_distinct(m: Map<Seq<char>, Seq<Seq<char>>>, cs: Seq<CtorModel>)
    requires
        lists_distinct(m),
    ensures
        lists_distinct(collect_all(m, cs)),
        extends(m, collect_all(m, cs)),
        forall|k: Seq<char>, n: Seq<char>|
            #[trigger] mentions_any(cs, k, n) ==> collect_all(m, cs).contains_key(k) && collect_all(
                m,
                cs,
            )[k].contains(n),
    decreases cs, 1nat,
{
    if cs.len() > 0 {
        let m1 = collect_all(m, cs.drop_last());
        lemma_collect_all_ordered_distinct(m, cs.drop_last());
        lemma_collect_ordered_distinct(m1, cs.last());
        let r = collect_all(m, cs);
        assert forall|k: Seq<char>, n: Seq<char>| #[trigger] mentions_any(cs, k, n) implies r.contains_key(
            k,
        ) && r[k].contains(n) by {
            if mentions_any(cs.drop_last(), k, n) {
                let j = choose|j: int| 0 <= j < m1[k].len() && m1[k][j] == n;
                assert(r[k][j] == n);
            } else {
                assert(mentions(cs.last(), k, n));
                assert(r == collect(m1, cs.last()));
            }
        }
    }
}

/// In a sorted list each entry is the one its key maps to.
pub proof fn lemma_entries_map_at(s: Seq<(Seq<char>, Seq<Seq<char>>)>, i: int)
    requires
        sorted_keys(s),
        0 <= i < s.len(),
    ensures
        entries_map(s).contains_key(s[i].0),
        entries_map(s)[s[i].0] == s[i].1,
{
    assert(has_key(s, s[i].0));
    let j = choose|j: int| 0 <= j < s.len() && s[j].0 == s[i].0;
    if j != i {
        lemma_precedes_strict_total(s[i].0, s[i].0, s[i].0);
    }
}

proof fn lemma_entries_map_drop_first(s: Seq<(Seq<char>, Seq<Seq<char>>)>)
    requires
        sorted_keys(s),
        s.len() > 0,
    ensures
        sorted_keys(s.drop_first()),
        entries_map(s.drop_first()) == entries_map(s).remove(s[0].0),
{
    let t = s.drop_first();
    assert forall|k: Seq<char>| has_key(t, k) == (has_key(s, k) && k != s[0].0) by {
        if has_key(t, k) {
            let j = choose|j: int| 0 <= j < t.len() && t[j].0 == k;
            assert(s[j + 1].0 == k);
            lemma_precedes_strict_total(k, k, k);
        }
        if has_key(s, k) && k != s[0].0 {
            let j = choose|j: int| 0 <= j < s.len() && s[j].0 == k;
            assert(t[j - 1].0 == k);
        }
    }
    assert forall|k: Seq<char>| #[trigger] entries_map(t).contains_key(k) implies entries_map(t)[k]
        == entries_map(s).remove(s[0].0)[k] by {
        let j = choose|j: int| 0 <= j < t.len() && t[j].0 == k;
        lemma_entries_map_at(t, j);
        lemma_entries_map_at(s, j + 1);
    }
    assert(entries_map(t) =~= entries_map(s).remove(s[0].0));
}

/// A key-sorted list is determined by the mapping it holds.
pub proof fn lemma_sorted_entries_unique(
    s1: Seq<(Seq<char>, Seq<Seq<char>>)>,
    s2: Seq<(Seq<char>, Seq<Seq<char>>)>,
)
    requires
        sorted_keys(s1),
        sorted_keys(s2),
        entries_map(s1) == entries_map(s2),
    ensures
        s1 == s2,
    decreases s1.len(),
{
    if s1.len() == 0 {
        if s2.len() > 0 {
            assert(entries_map(s2).contains_key(s2[0].0));
        }
        assert(s1 =~= s2);
    } else {
        assert(entries_map(s1).contains_key(s1[0].0));
        let j = choose|j: int| 0 <= j < s2.len() && s2[j].0 == s1[0].0;
        assert(entries_map(s2).contains_key(s2[0].0));
        let i = choose|i: int| 0 <= i < s1.len() && s1[i].0 == s2[0].0;
        if j != 0 {
            lemma_precedes_strict_total(s1[0].0, s2[0].0, s1[0].0);
            lemma_precedes_strict_total(s2[0].0, s1[0].0, s2[0].0);
        }
        lemma_entries_map_at(s1, 0);
        lemma_entries_map_at(s2, 0);
        lemma_entries_map_drop_first(s1);
        lemma_entries_map_drop_first(s2);
        lemma_sorted_entries_unique(s1.drop_first(), s2.drop_first());
        assert(s1 =~= seq![s1[0]] + s1.drop_first());
        assert(s2 =~= seq![s2[0]] + s2.drop_first());
    }
}

proof fn lemma_sorted_insert(s: Seq<(Seq<char>, Seq<Seq<char>>)>, i: int, e: (
    Seq<char>,
    Seq<Seq<char>>,
))
    requires
        sorted_keys(s),
        0 <= i <= s.len(),
        forall|j: int| 0 <= j < i ==> precedes(#[trigger] s[j].0, e.0),
        i < s.len() ==> precedes(e.0, s[i].0),
    ensures
        sorted_keys(s.insert(i, e)),
        forall|j: int| 0 <= j < s.len() ==> #[trigger] s[j].0 != e.0,
{
    let t = s.insert(i, e);
    assert forall|j: int| i <= j < s.len() implies precedes(e.0, #[trigger] s[j].0) by {
        if j > i {
            lemma_precedes_strict_total(e.0, s[i].0, s[j].0);
        }
    }
    assert forall|a: int, b: int| 0 <= a < b < t.len() implies precedes(t[a].0, t[b].0) by {
        if b < i {
        } else if b == i {
        } else if a < i {
            lemma_precedes_strict_total(t[a].0, e.0, t[b].0);
        } else if a == i {
        } else {
        }
    }
    assert forall|j: int| 0 <= j < s.len() implies #[trigger] s[j].0 != e.0 by {
        lemma_precedes_strict_total(e.0, e.0, e.0);
    }
}

/// Whether `names` holds `name`.
fn contains_name(names: &Vec<String>, name: &String) -> (r: bool)
    ensures
        r == names.deep_view().contains(name@),
{
    let n = names.len();
    let mut i: usize = 0;
    while i < n
        invariant
            n == names@.len(),
            0 <= i <= n,
            forall|j: int| 0 <= j < i ==> names.deep_view()[j] != name@,
        decreases n - i,
    {
        if names[i].eq(name) {
            assert(names.deep_view()[i as int] == name@);
            return true;
        }
        i = i + 1;
    }
    false
}

/// Registers `name` under `module` in a key-sorted import list.
pub fn register(imports: &mut Vec<(String, Vec<String>)>, module: &String, name: &String)
    requires
        sorted_keys(old(imports).deep_view()),
    ensures
        sorted_keys(final(imports).deep_view()),
        entries_map(final(imports).deep_view()) == add_name(
            entries_map(old(imports).deep_view()),
            module@,
            name@,
        ),
{
    let ghost s = imports.deep_view();
    let ghost m = entries_map(s);
    let n = imports.len();
    let mut i: usize = 0;
    let mut searching = true;
    while searching && i < n
        invariant
            n == imports@.len(),
            imports.deep_view() == s,
            0 <= i <= n,
            forall|j: int| 0 <= j < i ==> precedes(#[trigger] s[j].0, module@),
            !searching ==> i < n && !precedes(s[i as int].0, module@),
        decreases (n - i) as int + (if searching { 1int } else { 0int }),
    {
        if str_precedes(imports[i].0.as_str(), module.as_str()) {
            i = i + 1;
        } else {
            searching = false;
        }
    }
    if i < n && imports[i].0.eq(module) {
        proof {
            lemma_entries_map_at(s, i as int);
        }
        if !contains_name(&imports[i].1, name) {
            let (key, mut names) = imports.remove(i);
            names.push(name.clone());
            imports.insert(i, (key, names));
            proof {
                let t = imports.deep_view();
                let e = (module@, s[i as int].1.push(name@));
                assert(names.deep_view() =~= e.1);
                assert(t =~= s.update(i as int, e));
                assert forall|a: int, b: int| 0 <= a < b < t.len() implies precedes(
                    t[a].0,
                    t[b].0,
                ) by {}
                assert forall|k: Seq<char>| has_key(t, k) == has_key(s, k) by {
                    if has_key(s, k) {
                        let j = choose|j: int| 0 <= j < s.len() && s[j].0 == k;
                        assert(t[j].0 == k);
                    }
                    if has_key(t, k) {
                        let j = choose|j: int| 0 <= j < t.len() && t[j].0 == k;
                        assert(s[j].0 == k);
                    }
                }
                assert forall|k: Seq<char>| #[trigger]
                    entries_map(t).contains_key(k) implies entries_map(t)[k] == m.insert(
                    module@,
                    e.1,
                )[k] by {
                    let j = choose|j: int| 0 <= j < t.len() && t[j].0 == k;
                    lemma_entries_map_at(t, j);
                    lemma_entries_map_at(s, j);
                }
                assert(entries_map(t) =~= m.insert(module@, e.1));
            }
        }
    } else {
        proof {
            if i < n {
                lemma_precedes_strict_total(s[i as int].0, module@, module@);
            }
        }
        let mut names: Vec<String> = Vec::new();
        names.push(name.clone());
        imports.insert(i, (module.clone(), names));
        proof {
            let t = imports.deep_view();
            let e = (module@, seq![name@]);
            assert(names.deep_view() =~= e.1);
            assert(t =~= s.insert(i as int, e));
            lemma_sorted_insert(s, i as int, e);
            assert(!m.contains_key(module@));
            assert forall|k: Seq<char>| has_key(t, k) == (has_key(s, k) || k == module@) by {
                if has_key(s, k) {
                    let j = choose|j: int| 0 <= j < s.len() && s[j].0 == k;
                    if j < i {
                        assert(t[j].0 == k);
                    } else {
                        assert(t[j + 1].0 == k);
                    }
                }
                if k == module@ {
                    assert(t[i as int].0 == k);
                }
                if has_key(t, k) {
                    let j = choose|j: int| 0 <= j < t.len() && t[j].0 == k;
                    if j < i {
                        assert(s[j].0 == k);
                    } else if j > i {
                        assert(s[j - 1].0 == k);
                    }
                }
            }
            assert forall|k: Seq<char>| #[trigger]
                entries_map(t).contains_key(k) implies entries_map(t)[k] == m.insert(
                module@,
                e.1,
            )[k] by {
                let j = choose|j: int| 0 <= j < t.len() && t[j].0 == k;
                lemma_entries_map_at(t, j);
                if j < i {
                    lemma_entries_map_at(s, j);
                } else if j > i {
                    lemma_entries_map_at(s, j - 1);
                }
            }
            assert(entries_map(t) =~= m.insert(module@, e.1));
        }
    }
}

} // verus!
