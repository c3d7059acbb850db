//! The module rewrite: collect worker-import bindings, rewrite matching
//! construction expressions into the canonical worker construction, and
//! prune consumed imports and empty statements — one top-to-bottom,
//! depth-first pass per module.

use vstd::prelude::*;
use crate::ast::{
    Expr, ImportSpecifier, ModuleItem, SpecExpr, SpecItem, SpecSpecifier, view_expr, view_exprs,
    view_item, view_items, view_specifiers,
};
use crate::paths::{is_worker_path, worker_path_spec};
use crate::table::BindingTable;

verus! {

/// The `import.meta.url` expression: a two-level property access off the
/// contextual identifier `import`.
pub open spec fn import_meta_url_spec() -> SpecExpr {
    SpecExpr::Member {
        obj: Box::new(
            SpecExpr::Member {
                obj: Box::new(SpecExpr::Ident { name: "import"@ }),
                prop: "meta"@,
            },
        ),
        prop: "url"@,
    }
}

/// The canonical worker construction for a worker-module path:
/// `new Worker("<path>", import.meta.url)`.
pub open spec fn canonical_worker(path: Seq<char>) -> SpecExpr {
    SpecExpr::New {
        callee: Box::new(SpecExpr::Ident { name: "Worker"@ }),
        args: seq![SpecExpr::StrLit { value: path }, import_meta_url_spec()],
    }
}

/// The worker-module path a construction's callee is bound to, if the
/// callee is a bare identifier present in the binding table.
pub open spec fn callee_binding(t: Map<Seq<char>, Seq<char>>, callee: SpecExpr) -> Option<
    Seq<char>,
> {
    match callee {
        SpecExpr::Ident { name } => if t.contains_key(name) {
            Option::Some(t[name])
        } else {
            Option::None
        },
        _ => Option::None,
    }
}

/// Depth-first rewrite of one expression under binding table `t`: a
/// construction whose callee is a bound bare identifier becomes the
/// canonical worker construction (its original arguments and callee are
/// discarded); every other node keeps its shape and has its subtrees
/// rewritten.
pub open spec fn rewrite_expr_spec(t: Map<Seq<char>, Seq<char>>, e: SpecExpr) -> SpecExpr
    decreases e,
{
    match e {
        SpecExpr::New { callee, args } => match callee_binding(t, *callee) {
            Option::Some(path) => canonical_worker(path),
            Option::None => SpecExpr::New {
                callee: Box::new(rewrite_expr_spec(t, *callee)),
                args: rewrite_exprs_spec(t, args),
            },
        },
        SpecExpr::Member { obj, prop } => SpecExpr::Member {
            obj: Box::new(rewrite_expr_spec(t, *obj)),
            prop,
        },
        SpecExpr::Other { children } => SpecExpr::Other {
            children: rewrite_exprs_spec(t, children),
        },
        _ => e,
    }
}

/// Pointwise rewrite of a sequence of expressions.
pub open spec fn rewrite_exprs_spec(t: Map<Seq<char>, Seq<char>>, es: Seq<SpecExpr>) -> Seq<
    SpecExpr,
>
    decreases es,
{
    Seq::new(
        es.len(),
        |i: int|
            if 0 <= i < es.len() {
                rewrite_expr_spec(t, es[i])
            } else {
                es[i]
            },
    )
}

/// Folds the default specifiers of a worker import into the table, in
/// order; a later specifier with the same local name overwrites.
pub open spec fn insert_defaults(
    t: Map<Seq<char>, Seq<char>>,
    src: Seq<char>,
    specs: Seq<SpecSpecifier>,
) -> Map<Seq<char>, Seq<char>>
    decreases specs.len(),
{
    if specs.len() == 0 {
        t
    } else {
        let t1 = match specs[0] {
            SpecSpecifier::DefaultImport { local } => t.insert(local, src),
            SpecSpecifier::Other => t,
        };
        insert_defaults(t1, src, specs.skip(1))
    }
}

/// The table after observing one item: a worker-path import contributes
/// its default bindings; everything else leaves the table unchanged.
pub open spec fn collect_item(t: Map<Seq<char>, Seq<char>>, item: SpecItem) -> Map<
    Seq<char>,
    Seq<char>,
> {
    match item {
        SpecItem::Import { src, specifiers } => if worker_path_spec(src) {
            insert_defaults(t, src, specifiers)
        } else {
            t
        },
        _ => t,
    }
}

/// The binding table after the first `n` items of the module, starting
/// from the empty table.
pub open spec fn table_after(items: Seq<SpecItem>, n: int) -> Map<Seq<char>, Seq<char>>
    decreases n,
{
    if n <= 0 {
        Map::empty()
    } else {
        collect_item(table_after(items, n - 1), items[n - 1])
    }
}

/// Rewrite of one item: only the expression subtrees of an ordinary
/// statement change; imports and empty statements pass through.
pub open spec fn rewrite_item_spec(t: Map<Seq<char>, Seq<char>>, item: SpecItem) -> SpecItem {
    match item {
        SpecItem::Other { exprs } => SpecItem::Other { exprs: rewrite_exprs_spec(t, exprs) },
        _ => item,
    }
}

/// The rewritten item list: item `i` is rewritten under the bindings
/// collected from the items before it (source order, no backward
/// resolution).
pub open spec fn rewrite_items_spec(items: Seq<SpecItem>) -> Seq<SpecItem> {
    Seq::new(items.len(), |i: int| rewrite_item_spec(table_after(items, i), items[i]))
}

/// The retention predicate: a worker-path import is dropped, an empty
/// statement is dropped, everything else is kept.
pub open spec fn keep_item_spec(item: SpecItem) -> bool {
    match item {
        SpecItem::Import { src, specifiers } => !worker_path_spec(src),
        SpecItem::EmptyStmt => false,
        SpecItem::Other { exprs } => true,
    }
}

/// Stable filter of an item list by the retention predicate.
pub open spec fn prune_items(items: Seq<SpecItem>) -> Seq<SpecItem>
    decreases items.len(),
{
    if items.len() == 0 {
        Seq::empty()
    } else {
        let rest = prune_items(items.drop_last());
        if keep_item_spec(items.last()) {
            rest.push(items.last())
        } else {
            rest
        }
    }
}

/// The whole transform of a module's item list: rewrite every item under
/// the bindings of the items before it, then prune consumed imports and
/// empty statements.
pub open spec fn transform_module_spec(items: Seq<SpecItem>) -> Seq<SpecItem> {
    prune_items(rewrite_items_spec(items))
}

/// Builds the canonical worker construction
/// `new Worker("<path>", import.meta.url)`.
fn canonical_worker_expr(path: String) -> (r: Expr)
    ensures
        view_expr(r) == canonical_worker(path@),
{
    let url = Expr::Member {
        obj: Box::new(
            Expr::Member {
                obj: Box::new(Expr::Ident { name: String::from_str("import") }),
                prop: String::from_str("meta"),
            },
        ),
        prop: String::from_str("url"),
    };
    let ghost p = path@;
    let mut args: Vec<Expr> = Vec::new();
    args.push(Expr::StrLit { value: path });
    args.push(url);
    let r = Expr::New {
        callee: Box::new(Expr::Ident { name: String::from_str("Worker") }),
        args,
    };
    proof {
        reveal_with_fuel(view_expr, 5);
        assert(view_exprs(r->New_args@) =~= canonical_worker(p)->New_args);
        assert(view_expr(r) =~~= canonical_worker(p));
    }
    r
}

/// Rewrites one expression subtree, depth-first, under the bindings in `t`.
pub fn rewrite_expr(t: &BindingTable, e: &Expr) -> (r: Expr)
    ensures
        view_expr(r) == rewrite_expr_spec(t@, view_expr(*e)),
    decreases *e,
{
    proof {
        reveal_with_fuel(view_expr, 3);
    }
    match e {
        Expr::Ident { name } => Expr::Ident { name: name.clone() },
        Expr::StrLit { value } => Expr::StrLit { value: value.clone() },
        Expr::New { callee, args } => {
            let bound: Option<String> = match &**callee {
                Expr::Ident { name } => t.lookup(name),
                _ => Option::None,
            };
            match bound {
                Option::Some(path) => canonical_worker_expr(path),
                Option::None => Expr::New {
                    callee: Box::new(rewrite_expr(t, &**callee)),
                    args: rewrite_exprs(t, args),
                },
            }
        },
        Expr::Member { obj, prop } => Expr::Member {
            obj: Box::new(rewrite_expr(t, &**obj)),
            prop: prop.clone(),
        },
        Expr::Other { children } => Expr::Other { children: rewrite_exprs(t, children) },
    }
}

/// Rewrites each expression of a list, in order.
pub fn rewrite_exprs(t: &BindingTable, es: &Vec<Expr>) -> (r: Vec<Expr>)
    ensures
        view_exprs(r@) == rewrite_exprs_spec(t@, view_exprs(es@)),
    decreases *es,
{
    let mut out: Vec<Expr> = Vec::new();
    let mut i: usize = 0;
    while i < es.len()
        invariant
            i <= es@.len(),
            out@.len() == i,
            forall|j: int|
                0 <= j < i ==> view_expr(#[trigger] out@[j]) == rewrite_expr_spec(
                    t@,
                    view_expr(es@[j]),
                ),
        decreases es@.len() - i,
    {
        let r = rewrite_expr(t, &es[i]);
        out.push(r);
        i += 1;
    }
    proof {
        assert(view_exprs(out@) =~= rewrite_exprs_spec(t@, view_exprs(es@)));
    }
    out
}

/// Rewrites one module item: the expression subtrees of an ordinary
/// statement are rewritten; imports and empty statements are reproduced
/// unchanged.
pub fn rewrite_item(t: &BindingTable, item: &ModuleItem) -> (r: ModuleItem)
    ensures
        view_item(r) == rewrite_item_spec(t@, view_item(*item)),
{
    match item {
        ModuleItem::Import { src, specifiers } => {
            let mut ss: Vec<ImportSpecifier> = Vec::new();
            let mut k: usize = 0;
            while k < specifiers.len()
                invariant
                    k <= specifiers@.len(),
                    ss@.len() == k,
                    forall|j: int|
                        0 <= j < k ==> (#[trigger] ss@[j])@ == specifiers@[j]@,
                decreases specifiers@.len() - k,
            {
                let s = (match &specifiers[k] {
                    ImportSpecifier::DefaultImport { local } => ImportSpecifier::DefaultImport {
                        local: local.clone(),
                    },
                    ImportSpecifier::Other => ImportSpecifier::Other,
                });
                ss.push(s);
                k += 1;
            }
            proof {
                assert(view_specifiers(ss@) =~= view_specifiers(specifiers@));
            }
            ModuleItem::Import { src: src.clone(), specifiers: ss }
        },
        ModuleItem::EmptyStmt => ModuleItem::EmptyStmt,
        ModuleItem::Other { exprs } => ModuleItem::Other { exprs: rewrite_exprs(t, exprs) },
    }
}

/// Decides whether an item survives pruning.
pub fn keep_item(item: &ModuleItem) -> (b: bool)
    ensures
        b == keep_item_spec(view_item(*item)),
{
    match item {
        ModuleItem::Import { src, .. } => !is_worker_path(src.as_str()),
        ModuleItem::EmptyStmt => false,
        ModuleItem::Other { .. } => true,
    }
}

/// Folds one observed item into the binding table.
pub fn collect_bindings(t: &mut BindingTable, item: &ModuleItem)
    ensures
        final(t)@ == collect_item(old(t)@, view_item(*item)),
{
    match item {
        ModuleItem::Import { src, specifiers } => {
            if is_worker_path(src.as_str()) {
                let ghost t0 = t@;
                let ghost vs = view_specifiers(specifiers@);
                proof {
                    assert(vs.skip(0) =~= vs);
                }
                let mut k: usize = 0;
                while k < specifiers.len()
                    invariant
                        k <= specifiers@.len(),
                        vs == view_specifiers(specifiers@),
                        vs.len() == specifiers@.len(),
                        insert_defaults(t0, src@, vs) == insert_defaults(t@, src@, vs.skip(k as int)),
                    decreases specifiers@.len() - k,
                {
                    let ghost t_cur = t@;
                    match &specifiers[k] {
                        ImportSpecifier::DefaultImport { local } => {
                            t.insert(local.clone(), src.clone());
                        },
                        ImportSpecifier::Other => {},
                    }
                    proof {
                        assert(vs.skip(k as int)[0] == vs[k as int]);
                        assert(vs.skip(k as int).skip(1) =~= vs.skip(k as int + 1));
                        assert(insert_defaults(t_cur, src@, vs.skip(k as int)) == insert_defaults(
                            t@,
                            src@,
                            vs.skip(k as int + 1),
                        ));
                    }
                    k += 1;
                }
                proof {
                    assert(vs.skip(specifiers@.len() as int) =~= Seq::<SpecSpecifier>::empty());
                }
            }
        },
        _ => {},
    }
}

/// Transforms a module's item list in one pass: every construction of a
/// previously imported worker binding becomes the canonical worker
/// construction, consumed worker imports and empty statements are removed,
/// and everything else survives unchanged, in order.
pub fn transform_module(items: &Vec<ModuleItem>) -> (r: Vec<ModuleItem>)
    ensures
        view_items(r@) == transform_module_spec(view_items(items@)),
{
    let ghost orig = view_items(items@);
    let mut t = BindingTable::new();
    let mut out: Vec<ModuleItem> = Vec::new();
    let mut i: usize = 0;
    while i < items.len()
        invariant
            i <= items@.len(),
            orig == view_items(items@),
            orig.len() == items@.len(),
            t@ == table_after(orig, i as int),
            view_items(out@) == prune_items(rewrite_items_spec(orig).take(i as int)),
        decreases items@.len() - i,
    {
        let ghost out_before = view_items(out@);
        let item_r = rewrite_item(&t, &items[i]);
        proof {
            assert(view_item(item_r) == rewrite_items_spec(orig)[i as int]);
        }
        if keep_item(&item_r) {
            out.push(item_r);
            proof {
                assert(view_items(out@) =~= out_before.push(rewrite_items_spec(orig)[i as int]));
            }
        }
        proof {
            let pre = rewrite_items_spec(orig).take(i as int + 1);
            assert(pre.drop_last() =~= rewrite_items_spec(orig).take(i as int));
            assert(pre.last() == rewrite_items_spec(orig)[i as int]);
            assert(view_items(out@) == prune_items(pre));
        }
        collect_bindings(&mut t, &items[i]);
        proof {
            assert(view_item(items@[i as int]) == orig[i as int]);
        }
        i += 1;
    }
    proof {
        assert(rewrite_items_spec(orig).take(orig.len() as int) =~= rewrite_items_spec(orig));
    }
    out
}

} // verus!
