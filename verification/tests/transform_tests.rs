use worker_rewrite::ast::{Expr, ImportSpecifier, ModuleItem};
use worker_rewrite::paths::is_worker_path;
use worker_rewrite::table::BindingTable;
use worker_rewrite::transform::transform_module;

fn ident(name: &str) -> Expr {
    Expr::Ident { name: name.to_string() }
}

fn new_expr(callee: Expr, args: Vec<Expr>) -> Expr {
    Expr::New { callee: Box::new(callee), args }
}

fn member(obj: Expr, prop: &str) -> Expr {
    Expr::Member { obj: Box::new(obj), prop: prop.to_string() }
}

fn default_import(src: &str, local: &str) -> ModuleItem {
    ModuleItem::Import {
        src: src.to_string(),
        specifiers: vec![ImportSpecifier::DefaultImport { local: local.to_string() }],
    }
}

fn stmt(exprs: Vec<Expr>) -> ModuleItem {
    ModuleItem::Other { exprs }
}

/// The canonical worker construction `new Worker("<path>", import.meta.url)`.
fn canonical(path: &str) -> Expr {
    new_expr(
        ident("Worker"),
        vec![
            Expr::StrLit { value: path.to_string() },
            member(member(ident("import"), "meta"), "url"),
        ],
    )
}

#[test]
fn classifies_worker_suffix() {
    assert!(is_worker_path("./x.worker"));
    assert!(is_worker_path(".worker"));
    assert!(is_worker_path("a/b/c.worker"));
    assert!(is_worker_path("./simulation.worker"));
}

#[test]
fn rejects_non_worker_paths() {
    assert!(!is_worker_path(""));
    assert!(!is_worker_path("./x.worker.js"));
    assert!(!is_worker_path("worker"));
    assert!(!is_worker_path("x.workers"));
    assert!(!is_worker_path("react"));
    assert!(!is_worker_path("./x.work"));
}

#[test]
fn table_insert_then_lookup() {
    let mut t = BindingTable::new();
    t.insert("X".to_string(), "./x.worker".to_string());
    assert_eq!(t.lookup(&"X".to_string()), Some("./x.worker".to_string()));
    assert_eq!(t.lookup(&"Y".to_string()), None);
}

#[test]
fn table_last_insert_wins() {
    let mut t = BindingTable::new();
    t.insert("X".to_string(), "./a.worker".to_string());
    t.insert("X".to_string(), "./b.worker".to_string());
    assert_eq!(t.lookup(&"X".to_string()), Some("./b.worker".to_string()));
}

#[test]
fn end_to_end_example() {
    // import { useMemo } from "react";
    // import SimulationWorker from "./simulation.worker";
    // const worker = new SimulationWorker();
    let items = vec![
        ModuleItem::Import {
            src: "react".to_string(),
            specifiers: vec![ImportSpecifier::Other],
        },
        default_import("./simulation.worker", "SimulationWorker"),
        stmt(vec![new_expr(ident("SimulationWorker"), vec![])]),
    ];
    let out = transform_module(&items);
    assert_eq!(
        out,
        vec![
            ModuleItem::Import {
                src: "react".to_string(),
                specifiers: vec![ImportSpecifier::Other],
            },
            stmt(vec![canonical("./simulation.worker")]),
        ]
    );
}

#[test]
fn arguments_are_discarded() {
    // new X(1, 2, 3) -> new Worker("./a.worker", import.meta.url)
    let args = vec![
        Expr::Other { children: vec![] },
        Expr::Other { children: vec![] },
        Expr::Other { children: vec![] },
    ];
    let items = vec![
        default_import("./a.worker", "X"),
        stmt(vec![new_expr(ident("X"), args)]),
    ];
    let out = transform_module(&items);
    assert_eq!(out, vec![stmt(vec![canonical("./a.worker")])]);
}

#[test]
fn member_callee_is_not_rewritten() {
    // new obj.X() keeps its shape even though X is a worker binding name.
    let items = vec![
        default_import("./x.worker", "X"),
        stmt(vec![new_expr(member(ident("obj"), "X"), vec![])]),
    ];
    let out = transform_module(&items);
    assert_eq!(out, vec![stmt(vec![new_expr(member(ident("obj"), "X"), vec![])])]);
}

#[test]
fn construction_before_import_is_not_rewritten() {
    // new X() before the import of X: no backward binding resolution.
    let items = vec![
        stmt(vec![new_expr(ident("X"), vec![])]),
        default_import("./x.worker", "X"),
    ];
    let out = transform_module(&items);
    assert_eq!(out, vec![stmt(vec![new_expr(ident("X"), vec![])])]);
}

#[test]
fn unused_worker_import_is_removed() {
    let items = vec![
        default_import("./y.worker", "Y"),
        stmt(vec![ident("unrelated")]),
    ];
    let out = transform_module(&items);
    assert_eq!(out, vec![stmt(vec![ident("unrelated")])]);
}

#[test]
fn side_effect_worker_import_is_removed() {
    // import "./fx.worker"; — zero specifiers, still dropped.
    let items = vec![
        ModuleItem::Import { src: "./fx.worker".to_string(), specifiers: vec![] },
        stmt(vec![ident("rest")]),
    ];
    let out = transform_module(&items);
    assert_eq!(out, vec![stmt(vec![ident("rest")])]);
}

#[test]
fn named_specifier_produces_no_binding() {
    // import { X } from "./x.worker"; new X() — the import is removed but
    // the named specifier binds nothing, so the construction stays.
    let items = vec![
        ModuleItem::Import {
            src: "./x.worker".to_string(),
            specifiers: vec![ImportSpecifier::Other],
        },
        stmt(vec![new_expr(ident("X"), vec![])]),
    ];
    let out = transform_module(&items);
    assert_eq!(out, vec![stmt(vec![new_expr(ident("X"), vec![])])]);
}

#[test]
fn empty_source_import_is_kept() {
    let items = vec![ModuleItem::Import { src: "".to_string(), specifiers: vec![] }];
    let out = transform_module(&items);
    assert_eq!(out, vec![ModuleItem::Import { src: "".to_string(), specifiers: vec![] }]);
}

#[test]
fn empty_statement_is_dropped() {
    let items = vec![ModuleItem::EmptyStmt, stmt(vec![ident("a")]), ModuleItem::EmptyStmt];
    let out = transform_module(&items);
    assert_eq!(out, vec![stmt(vec![ident("a")])]);
}

#[test]
fn idempotent_on_non_matching_module() {
    let items = vec![
        ModuleItem::Import {
            src: "react".to_string(),
            specifiers: vec![ImportSpecifier::Other],
        },
        default_import("./plain", "P"),
        stmt(vec![new_expr(ident("P"), vec![]), ident("x")]),
    ];
    let out = transform_module(&items);
    assert_eq!(out, items);
    let again = transform_module(&out);
    assert_eq!(again, items);
}

#[test]
fn nested_construction_is_rewritten() {
    // new Outer(new X()) with only X bound: the inner construction is
    // rewritten in place, depth-first.
    let items = vec![
        default_import("./x.worker", "X"),
        stmt(vec![new_expr(ident("Outer"), vec![new_expr(ident("X"), vec![])])]),
    ];
    let out = transform_module(&items);
    assert_eq!(
        out,
        vec![stmt(vec![new_expr(ident("Outer"), vec![canonical("./x.worker")])])]
    );
}

#[test]
fn rebinding_uses_last_import() {
    // X re-imported from a second worker path: later constructions use the
    // later path.
    let items = vec![
        default_import("./a.worker", "X"),
        default_import("./b.worker", "X"),
        stmt(vec![new_expr(ident("X"), vec![])]),
    ];
    let out = transform_module(&items);
    assert_eq!(out, vec![stmt(vec![canonical("./b.worker")])]);
}

#[test]
fn uses_between_imports_take_the_earlier_binding() {
    let items = vec![
        default_import("./a.worker", "X"),
        stmt(vec![new_expr(ident("X"), vec![])]),
        default_import("./b.worker", "X"),
        stmt(vec![new_expr(ident("X"), vec![])]),
    ];
    let out = transform_module(&items);
    assert_eq!(
        out,
        vec![
            stmt(vec![canonical("./a.worker")]),
            stmt(vec![canonical("./b.worker")]),
        ]
    );
}

#[test]
fn expressions_inside_other_nodes_are_rewritten() {
    // A construction nested under an arbitrary expression node (e.g. a
    // callback body) is still found.
    let items = vec![
        default_import("./x.worker", "X"),
        stmt(vec![Expr::Other { children: vec![new_expr(ident("X"), vec![])] }]),
    ];
    let out = transform_module(&items);
    assert_eq!(
        out,
        vec![stmt(vec![Expr::Other { children: vec![canonical("./x.worker")] }])]
    );
}
