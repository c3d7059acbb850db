//! Laws of the module transform, stated over the mathematical tree and the
//! spec functions of `transform`, and proved once and for all.

use vstd::prelude::*;
use crate::ast::{SpecExpr, SpecItem, SpecSpecifier};
use crate::paths::worker_path_spec;
use crate::transform::{
    canonical_worker, insert_defaults, keep_item_spec, prune_items, rewrite_expr_spec,
    rewrite_exprs_spec, rewrite_item_spec, rewrite_items_spec, table_after, transform_module_spec,
};

verus! {

/// An import declaration whose source path names a worker module.
pub open spec fn is_worker_import(item: SpecItem) -> bool {
    match item {
        SpecItem::Import { src, specifiers } => worker_path_spec(src),
        _ => false,
    }
}

/// Some specifier of the list is a default import of local name `name`.
pub open spec fn spec_binds(specs: Seq<SpecSpecifier>, name: Seq<char>) -> bool {
    exists|k: int|
        0 <= k < specs.len() && specs[k] == (SpecSpecifier::DefaultImport { local: name })
}

/// `item` is a worker import that default-binds local name `name`.
pub open spec fn item_binds(item: SpecItem, name: Seq<char>) -> bool {
    match item {
        SpecItem::Import { src, specifiers } => worker_path_spec(src) && spec_binds(
            specifiers,
            name,
        ),
        _ => false,
    }
}

proof fn lemma_insert_defaults_keeps(
    t: Map<Seq<char>, Seq<char>>,
    src: Seq<char>,
    specs: Seq<SpecSpecifier>,
    name: Seq<char>,
)
    requires
        t.contains_key(name),
    ensures
        insert_defaults(t, src, specs).contains_key(name),
    decreases specs.len(),
{
    if specs.len() > 0 {
        let t1 = (match specs[0] {
            SpecSpecifier::DefaultImport { local } => t.insert(local, src),
            SpecSpecifier::Other => t,
        });
        lemma_insert_defaults_keeps(t1, src, specs.skip(1), name);
    }
}

proof fn lemma_insert_defaults_same_src(
    t: Map<Seq<char>, Seq<char>>,
    src: Seq<char>,
    specs: Seq<SpecSpecifier>,
    name: Seq<char>,
)
    requires
        t.contains_key(name),
        t[name] == src,
    ensures
        insert_defaults(t, src, specs).contains_key(name),
        insert_defaults(t, src, specs)[name] == src,
    decreases specs.len(),
{
    if specs.len() > 0 {
        let t1 = (match specs[0] {
            SpecSpecifier::DefaultImport { local } => t.insert(local, src),
            SpecSpecifier::Other => t,
        });
        lemma_insert_defaults_same_src(t1, src, specs.skip(1), name);
    }
}

proof fn lemma_insert_defaults_binds(
    t: Map<Seq<char>, Seq<char>>,
    src: Seq<char>,
    specs: Seq<SpecSpecifier>,
    name: Seq<char>,
)
    requires
        spec_binds(specs, name),
    ensures
        insert_defaults(t, src, specs).contains_key(name),
        insert_defaults(t, src, specs)[name] == src,
    decreases specs.len(),
{
    let k = choose|k: int|
        0 <= k < specs.len() && specs[k] == (SpecSpecifier::DefaultImport { local: name });
    let t1 = (match specs[0] {
        SpecSpecifier::DefaultImport { local } => t.insert(local, src),
        SpecSpecifier::Other => t,
    });
    if k == 0 {
        if spec_binds(specs.skip(1), name) {
            lemma_insert_defaults_binds(t1, src, specs.skip(1), name);
        } else {
            lemma_insert_defaults_same_src(t1, src, specs.skip(1), name);
        }
    } else {
        assert(specs.skip(1)[k - 1] == (SpecSpecifier::DefaultImport { local: name }));
        lemma_insert_defaults_binds(t1, src, specs.skip(1), name);
    }
}

proof fn lemma_insert_defaults_origin(
    t: Map<Seq<char>, Seq<char>>,
    src: Seq<char>,
    specs: Seq<SpecSpecifier>,
    name: Seq<char>,
)
    requires
        insert_defaults(t, src, specs).contains_key(name),
    ensures
        t.contains_key(name) || spec_binds(specs, name),
    decreases specs.len(),
{
    if specs.len() > 0 {
        let t1 = (match specs[0] {
            SpecSpecifier::DefaultImport { local } => t.insert(local, src),
            SpecSpecifier::Other => t,
        });
        lemma_insert_defaults_origin(t1, src, specs.skip(1), name);
        if spec_binds(specs.skip(1), name) {
            let k = choose|k: int|
                0 <= k < specs.skip(1).len() && specs.skip(1)[k] == (SpecSpecifier::DefaultImport {
                    local: name,
                });
            assert(specs[k + 1] == (SpecSpecifier::DefaultImport { local: name }));
        } else if t1.contains_key(name) && !t.contains_key(name) {
            assert(specs[0] == (SpecSpecifier::DefaultImport { local: name }));
        }
    }
}

proof fn lemma_table_monotonic(items: Seq<SpecItem>, n: int, m: int, name: Seq<char>)
    requires
        0 <= n <= m,
        table_after(items, n).contains_key(name),
    ensures
        table_after(items, m).contains_key(name),
    decreases m - n,
{
    if n < m {
        lemma_table_monotonic(items, n, m - 1, name);
        match items[m - 1] {
            SpecItem::Import { src, specifiers } => {
                if worker_path_spec(src) {
                    lemma_insert_defaults_keeps(table_after(items, m - 1), src, specifiers, name);
                }
            },
            _ => {},
        }
    }
}

proof fn lemma_table_key_origin(items: Seq<SpecItem>, n: int, name: Seq<char>)
    requires
        table_after(items, n).contains_key(name),
    ensures
        exists|k: int| 0 <= k < n && #[trigger] item_binds(items[k], name),
    decreases n,
{
    if n <= 0 {
        assert(false);
    } else {
        match items[n - 1] {
            SpecItem::Import { src, specifiers } => {
                if worker_path_spec(src) {
                    lemma_insert_defaults_origin(table_after(items, n - 1), src, specifiers, name);
                    if spec_binds(specifiers, name) {
                        assert(item_binds(items[n - 1], name));
                    } else {
                        lemma_table_key_origin(items, n - 1, name);
                    }
                } else {
                    lemma_table_key_origin(items, n - 1, name);
                }
            },
            _ => {
                lemma_table_key_origin(items, n - 1, name);
            },
        }
    }
}

/// Binding before use: a worker import that default-binds `name` at
/// position `i` makes every later construction `new name(...)` — here at
/// position `m` inside item `j`, with `i < j` — rewrite to the canonical
/// worker construction of the path then bound to `name`.
pub proof fn lemma_binding_before_use(items: Seq<SpecItem>, i: int, j: int, m: int, name: Seq<char>)
    requires
        0 <= i < j < items.len(),
        item_binds(items[i], name),
        items[j] is Other,
        0 <= m < items[j]->Other_exprs.len(),
        items[j]->Other_exprs[m] is New,
        *items[j]->Other_exprs[m]->New_callee == (SpecExpr::Ident { name }),
    ensures
        table_after(items, j).contains_key(name),
        rewrite_items_spec(items)[j] is Other,
        rewrite_items_spec(items)[j]->Other_exprs[m] == canonical_worker(
            table_after(items, j)[name],
        ),
{
    match items[i] {
        SpecItem::Import { src, specifiers } => {
            lemma_insert_defaults_binds(table_after(items, i), src, specifiers, name);
        },
        _ => {
            assert(false);
        },
    }
    lemma_table_monotonic(items, i + 1, j, name);
    let t = table_after(items, j);
    assert(rewrite_items_spec(items)[j] == rewrite_item_spec(t, items[j]));
    assert(rewrite_item_spec(t, items[j])->Other_exprs[m] == rewrite_expr_spec(
        t,
        items[j]->Other_exprs[m],
    ));
}

/// No backward binding: while no item before position `j` default-binds
/// `name` from a worker import, `name` is absent from the table, so a
/// construction `new name(...)` inside item `j` keeps its callee and only
/// has its arguments rewritten.
pub proof fn lemma_no_backward_binding(items: Seq<SpecItem>, j: int, name: Seq<char>)
    requires
        0 <= j,
        forall|k: int| 0 <= k < j ==> !#[trigger] item_binds(items[k], name),
    ensures
        !table_after(items, j).contains_key(name),
{
    if table_after(items, j).contains_key(name) {
        lemma_table_key_origin(items, j, name);
        assert(false);
    }
}

/// A construction whose callee is a bound bare identifier is replaced by
/// the canonical worker construction; its original arguments (and any
/// nested constructions inside them) are discarded entirely.
pub proof fn lemma_arguments_replaced(
    t: Map<Seq<char>, Seq<char>>,
    name: Seq<char>,
    args: Seq<SpecExpr>,
)
    requires
        t.contains_key(name),
    ensures
        rewrite_expr_spec(
            t,
            SpecExpr::New { callee: Box::new(SpecExpr::Ident { name }), args },
        ) == canonical_worker(t[name]),
{
}

/// A construction whose callee is a bare identifier not present in the
/// table keeps its callee; only its arguments are rewritten.
pub proof fn lemma_unbound_construction_kept(
    t: Map<Seq<char>, Seq<char>>,
    name: Seq<char>,
    args: Seq<SpecExpr>,
)
    requires
        !t.contains_key(name),
    ensures
        rewrite_expr_spec(
            t,
            SpecExpr::New { callee: Box::new(SpecExpr::Ident { name }), args },
        ) == (SpecExpr::New {
            callee: Box::new(SpecExpr::Ident { name }),
            args: rewrite_exprs_spec(t, args),
        }),
{
    reveal_with_fuel(rewrite_expr_spec, 2);
}

/// A construction whose callee is a member expression is never replaced,
/// whatever names the table holds: the node stays a construction with a
/// member-expression callee, and only its subtrees are rewritten.
pub proof fn lemma_member_callee_never_rewritten(
    t: Map<Seq<char>, Seq<char>>,
    obj: SpecExpr,
    prop: Seq<char>,
    args: Seq<SpecExpr>,
)
    ensures
        rewrite_expr_spec(
            t,
            SpecExpr::New { callee: Box::new(SpecExpr::Member { obj: Box::new(obj), prop }), args },
        ) == (SpecExpr::New {
            callee: Box::new(
                SpecExpr::Member { obj: Box::new(rewrite_expr_spec(t, obj)), prop },
            ),
            args: rewrite_exprs_spec(t, args),
        }),
{
    reveal_with_fuel(rewrite_expr_spec, 3);
}

proof fn lemma_prune_all_kept(s: Seq<SpecItem>)
    ensures
        forall|k: int|
            0 <= k < prune_items(s).len() ==> keep_item_spec(#[trigger] prune_items(s)[k]),
    decreases s.len(),
{
    if s.len() > 0 {
        lemma_prune_all_kept(s.drop_last());
        let rest = prune_items(s.drop_last());
        assert forall|k: int| 0 <= k < prune_items(s).len() implies keep_item_spec(
            #[trigger] prune_items(s)[k],
        ) by {
            if keep_item_spec(s.last()) {
                assert(prune_items(s) == rest.push(s.last()));
                if k < rest.len() {
                    assert(prune_items(s)[k] == rest[k]);
                } else {
                    assert(prune_items(s)[k] == s.last());
                }
            } else {
                assert(prune_items(s)[k] == rest[k]);
            }
        }
    }
}

proof fn lemma_prune_contains(s: Seq<SpecItem>, i: int)
    requires
        0 <= i < s.len(),
        keep_item_spec(s[i]),
    ensures
        prune_items(s).contains(s[i]),
    decreases s.len(),
{
    if i == s.len() - 1 {
        let r = prune_items(s);
        assert(r.last() == s[i]);
        assert(r.contains(s[i]));
    } else {
        assert(s.drop_last()[i] == s[i]);
        lemma_prune_contains(s.drop_last(), i);
        let rest = prune_items(s.drop_last());
        let w = choose|w: int| 0 <= w < rest.len() && rest[w] == s[i];
        if keep_item_spec(s.last()) {
            assert(rest.push(s.last())[w] == s[i]);
        }
    }
}

/// Every surviving item satisfies the retention predicate: the transformed
/// module holds no worker-path import — whether or not any construction
/// used it — and no empty statement.
pub proof fn lemma_worker_imports_pruned(items: Seq<SpecItem>)
    ensures
        forall|k: int|
            0 <= k < transform_module_spec(items).len() ==> keep_item_spec(
                #[trigger] transform_module_spec(items)[k],
            ),
        forall|k: int|
            0 <= k < transform_module_spec(items).len() ==> !is_worker_import(
                #[trigger] transform_module_spec(items)[k],
            ),
{
    lemma_prune_all_kept(rewrite_items_spec(items));
}

/// A non-worker import passes through the transform untouched and
/// survives pruning.
pub proof fn lemma_non_worker_import_survives(items: Seq<SpecItem>, i: int)
    requires
        0 <= i < items.len(),
        items[i] is Import,
        !is_worker_import(items[i]),
    ensures
        transform_module_spec(items).contains(items[i]),
{
    assert(rewrite_items_spec(items)[i] == items[i]);
    lemma_prune_contains(rewrite_items_spec(items), i);
}

proof fn lemma_rewrite_expr_empty(t: Map<Seq<char>, Seq<char>>, e: SpecExpr)
    requires
        t == Map::<Seq<char>, Seq<char>>::empty(),
    ensures
        rewrite_expr_spec(t, e) == e,
    decreases e,
{
    match e {
        SpecExpr::New { callee, args } => {
            assert(!t.contains_key(match *callee {
                SpecExpr::Ident { name } => name,
                _ => arbitrary(),
            }));
            lemma_rewrite_expr_empty(t, *callee);
            lemma_rewrite_exprs_empty(t, args);
            assert(rewrite_expr_spec(t, e) =~~= e);
        },
        SpecExpr::Member { obj, prop } => {
            lemma_rewrite_expr_empty(t, *obj);
            assert(rewrite_expr_spec(t, e) =~~= e);
        },
        SpecExpr::Other { children } => {
            lemma_rewrite_exprs_empty(t, children);
            assert(rewrite_expr_spec(t, e) =~~= e);
        },
        _ => {},
    }
}

proof fn lemma_rewrite_exprs_empty(t: Map<Seq<char>, Seq<char>>, es: Seq<SpecExpr>)
    requires
        t == Map::<Seq<char>, Seq<char>>::empty(),
    ensures
        rewrite_exprs_spec(t, es) == es,
    decreases es,
{
    assert forall|i: int| 0 <= i < es.len() implies rewrite_exprs_spec(t, es)[i] == es[i] by {
        lemma_rewrite_expr_empty(t, es[i]);
    }
    assert(rewrite_exprs_spec(t, es) =~= es);
}

proof fn lemma_table_stays_empty(items: Seq<SpecItem>, n: int)
    requires
        n <= items.len(),
        forall|i: int| 0 <= i < items.len() ==> !is_worker_import(#[trigger] items[i]),
    ensures
        table_after(items, n) == Map::<Seq<char>, Seq<char>>::empty(),
    decreases n,
{
    if n > 0 {
        lemma_table_stays_empty(items, n - 1);
    }
}

proof fn lemma_prune_identity(s: Seq<SpecItem>)
    requires
        forall|k: int| 0 <= k < s.len() ==> keep_item_spec(#[trigger] s[k]),
    ensures
        prune_items(s) == s,
    decreases s.len(),
{
    if s.len() > 0 {
        lemma_prune_identity(s.drop_last());
        assert(prune_items(s) =~= s);
    }
}

/// Idempotence on non-matching input: a module with no worker-path import
/// and no empty statement comes out exactly as it went in — same items,
/// same order — and so does every further application of the transform.
pub proof fn lemma_identity_without_worker_imports(items: Seq<SpecItem>)
    requires
        forall|i: int| 0 <= i < items.len() ==> !is_worker_import(#[trigger] items[i]),
        forall|i: int| 0 <= i < items.len() ==> !(#[trigger] items[i] is EmptyStmt),
    ensures
        transform_module_spec(items) == items,
{
    assert forall|i: int| 0 <= i < items.len() implies rewrite_items_spec(items)[i] == items[i] by {
        lemma_table_stays_empty(items, i);
        match items[i] {
            SpecItem::Other { exprs } => {
                lemma_rewrite_exprs_empty(table_after(items, i), exprs);
                assert(rewrite_item_spec(table_after(items, i), items[i]) =~~= items[i]);
            },
            _ => {},
        }
    }
    assert(rewrite_items_spec(items) =~= items);
    lemma_prune_identity(items);
}

} // verus!
