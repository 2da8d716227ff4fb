use std::collections::HashSet;

use code_indexer::extract::{get_ident_from_type, link_implementation, process_ast};
use code_indexer::graph::{file_record, Edge, EdgeKind, Node};
use code_indexer::syntax::{Expr, File, Item, Path, PathSegment, Stmt, Type};

fn path(names: &[&str]) -> Path {
    Path {
        leading_colon: false,
        segments: names
            .iter()
            .map(|n| PathSegment { ident: n.to_string(), has_arguments: false })
            .collect(),
    }
}

fn call_stmt(name: &str) -> Stmt {
    Stmt::Expr(Expr::Call {
        func: Box::new(Expr::Path { qualified_self: false, path: path(&[name]) }),
        args: vec![],
    })
}

fn s(x: &str) -> String {
    x.to_string()
}

fn func(name: &str) -> Node {
    Node::Function { name: s(name), project: s("proj") }
}

fn strukt(name: &str) -> Node {
    Node::Struct { name: s(name), project: s("proj") }
}

fn tr(name: &str) -> Node {
    Node::Trait { name: s(name), project: s("proj") }
}

fn edge(kind: EdgeKind, source: Node, target: Node) -> Edge {
    Edge { kind, source, target }
}

fn file_node(p: &str) -> Node {
    Node::File { path: s(p) }
}

fn sample_file() -> File {
    File {
        items: vec![
            Item::Fn {
                name: s("main"),
                body: vec![
                    call_stmt("helper"),
                    Stmt::Local { init: Some(Expr::Struct { qualified_self: false, path: path(&["Point"]), fields: vec![] }) },
                ],
            },
            Item::Struct { name: s("Point") },
            Item::Trait { name: s("Greet") },
            Item::Impl { trait_path: Some(path(&["Greet"])), self_ty: Type::Path { qualified_self: false, path: path(&["Point"]) } },
            Item::Impl { trait_path: None, self_ty: Type::Path { qualified_self: false, path: path(&["Point"]) } },
            Item::Other,
        ],
    }
}

#[test]
fn declarations_become_records_in_source_order() {
    let records = process_ast(&s("proj"), &s("src/main.rs"), &sample_file());
    assert_eq!(
        records,
        vec![
            edge(EdgeKind::Contains, file_node("src/main.rs"), func("main")),
            edge(EdgeKind::Calls, func("main"), func("helper")),
            edge(EdgeKind::Instantiates, func("main"), strukt("Point")),
            edge(EdgeKind::Contains, file_node("src/main.rs"), strukt("Point")),
            edge(EdgeKind::Contains, file_node("src/main.rs"), tr("Greet")),
            edge(EdgeKind::Implements, strukt("Point"), tr("Greet")),
        ]
    );
}

#[test]
fn empty_file_has_no_records() {
    assert_eq!(process_ast(&s("proj"), &s("a.rs"), &File { items: vec![] }), vec![]);
}

fn merged(records: &[Edge]) -> (HashSet<String>, HashSet<String>) {
    let mut nodes = HashSet::new();
    let mut edges = HashSet::new();
    for e in records {
        nodes.insert(format!("{:?}", e.source));
        nodes.insert(format!("{:?}", e.target));
        edges.insert(format!("{:?}", e));
    }
    (nodes, edges)
}

#[test]
fn extracting_twice_merges_to_the_same_graph() {
    let once = process_ast(&s("proj"), &s("src/main.rs"), &sample_file());
    let again = process_ast(&s("proj"), &s("src/main.rs"), &sample_file());
    assert_eq!(once, again);
    let mut both = once.clone();
    both.extend(again);
    assert_eq!(merged(&both), merged(&once));
}

#[test]
fn same_function_name_in_two_files_is_one_node() {
    let f1 = File { items: vec![Item::Fn { name: s("foo"), body: vec![] }] };
    let f2 = File { items: vec![Item::Fn { name: s("foo"), body: vec![call_stmt("bar")] }] };
    let mut records = process_ast(&s("proj"), &s("a.rs"), &f1);
    records.extend(process_ast(&s("proj"), &s("b.rs"), &f2));
    let foo_nodes: HashSet<String> = records
        .iter()
        .flat_map(|e| [e.source.clone(), e.target.clone()])
        .filter(|n| matches!(n, Node::Function { name, .. } if name == "foo"))
        .map(|n| format!("{:?}", n))
        .collect();
    assert_eq!(foo_nodes.len(), 1);
    let contains: Vec<&Edge> = records
        .iter()
        .filter(|e| e.kind == EdgeKind::Contains && e.target == func("foo"))
        .collect();
    assert_eq!(
        contains,
        vec![
            &edge(EdgeKind::Contains, file_node("a.rs"), func("foo")),
            &edge(EdgeKind::Contains, file_node("b.rs"), func("foo")),
        ]
    );
}

#[test]
fn trait_impl_links_struct_to_trait() {
    let ty = Type::Path { qualified_self: false, path: path(&["Person"]) };
    assert_eq!(
        link_implementation(&s("proj"), &Some(path(&["Greet"])), &ty),
        Some(edge(EdgeKind::Implements, strukt("Person"), tr("Greet")))
    );
}

#[test]
fn inherent_impl_links_nothing() {
    let ty = Type::Path { qualified_self: false, path: path(&["Person"]) };
    assert_eq!(link_implementation(&s("proj"), &None, &ty), None);
}

#[test]
fn qualified_trait_is_known_by_last_segment() {
    let ty = Type::Path { qualified_self: false, path: path(&["Person"]) };
    assert_eq!(
        link_implementation(&s("proj"), &Some(path(&["fmt", "Display"])), &ty),
        Some(edge(EdgeKind::Implements, strukt("Person"), tr("Display")))
    );
}

#[test]
fn non_bare_target_types_link_nothing() {
    let generic = Type::Path {
        qualified_self: false,
        path: Path {
            leading_colon: false,
            segments: vec![PathSegment { ident: s("Wrapper"), has_arguments: true }],
        },
    };
    let qualified = Type::Path { qualified_self: false, path: path(&["model", "Person"]) };
    let reference = Type::Other;
    for ty in [generic, qualified, reference] {
        assert_eq!(link_implementation(&s("proj"), &Some(path(&["Greet"])), &ty), None);
    }
}

#[test]
fn type_identifiers() {
    assert_eq!(get_ident_from_type(&Type::Path { qualified_self: false, path: path(&["T"]) }), Some(s("T")));
    assert_eq!(get_ident_from_type(&Type::Path { qualified_self: true, path: path(&["T"]) }), None);
    assert_eq!(get_ident_from_type(&Type::Other), None);
}

#[test]
fn project_contains_file_record() {
    assert_eq!(
        file_record(&s("proj"), &s("src/lib.rs")),
        edge(EdgeKind::ContainsFile, Node::Project { name: s("proj") }, file_node("src/lib.rs"))
    );
}
