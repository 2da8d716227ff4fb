//! Properties of the record streams that extraction yields, once merged into
//! a graph store.

use vstd::prelude::*;
use crate::extract::{contains_edge, impl_link, interaction_edge, item_edges, items_edges, type_ident};
use crate::graph::{graph_edges, graph_nodes, Edge, EdgeKind, Node};
use crate::interactions::{expr_interactions, stmt_interactions, stmts_interactions, Interaction};
use crate::syntax::{path_ident, path_last_ident, Expr, Item, Path, Stmt, Type};

verus! {

/// Whether `items` declares a function named `name` at top level.
pub open spec fn declares_fn(items: Seq<Item>, name: String) -> bool {
    exists|i: int| 0 <= i < items.len() && (#[trigger] items[i] is Fn) && items[i]->Fn_name == name
}

/// Whether a node that extraction emits for the file at `path` of `project`
/// is keyed consistently: a file node is that file, any other node carries
/// the project.
pub open spec fn node_of(n: Node, project: String, path: String) -> bool {
    match n {
        Node::File { path: p } => p == path,
        Node::Function { project: q, .. } => q == project,
        Node::Struct { project: q, .. } => q == project,
        Node::Trait { project: q, .. } => q == project,
        Node::Project { .. } => false,
    }
}

/// What holds of each record of one file: both ends are keyed by that file
/// or that project, and a `Contains` record starts at the file and, when it
/// ends at a function, names one the file declares.
pub open spec fn record_of(e: Edge, project: String, path: String, items: Seq<Item>) -> bool {
    &&& node_of(e.source, project, path)
    &&& node_of(e.target, project, path)
    &&& e.kind == EdgeKind::Contains ==> {
        &&& e.source == (Node::File { path })
        &&& e.target is Function ==> declares_fn(items, e.target->Function_name)
    }
}

proof fn lemma_records_of_file(project: String, path: String, items: Seq<Item>)
    ensures
        forall|k: int|
            0 <= k < items_edges(project, path, items).len() ==> record_of(
                #[trigger] items_edges(project, path, items)[k],
                project,
                path,
                items,
            ),
    decreases items.len(),
{
    if items.len() > 0 {
        let front = items.drop_last();
        let last = items.last();
        lemma_records_of_file(project, path, front);
        let a = items_edges(project, path, front);
        let b = item_edges(project, path, last);
        assert(items_edges(project, path, items) == a + b);
        assert forall|k: int| 0 <= k < a.len() implies record_of(a[k], project, path, items) by {
            assert(record_of(a[k], project, path, front));
            if a[k].kind == EdgeKind::Contains && a[k].target is Function {
                let m = a[k].target->Function_name;
                let j = choose|j: int| 0 <= j < front.len() && (#[trigger] front[j] is Fn) && front[j]->Fn_name == m;
                assert(items[j] == front[j]);
            }
        }
        assert forall|k: int| 0 <= k < b.len() implies record_of(b[k], project, path, items) by {
            if let Item::Fn { name, body } = last {
                if k > 0 {
                    let ints = stmts_interactions(body@);
                    assert(b[k] == interaction_edge(project, name, ints[k - 1]));
                } else {
                    assert(items[items.len() - 1] is Fn);
                }
            }
        }
        assert forall|k: int| 0 <= k < (a + b).len() implies record_of((a + b)[k], project, path, items) by {
            if k >= a.len() {
                assert((a + b)[k] == b[k - a.len()]);
            }
        }
    }
}

proof fn lemma_declared_fn_contained(project: String, path: String, items: Seq<Item>, name: String)
    requires
        declares_fn(items, name),
    ensures
        items_edges(project, path, items).contains(contains_edge(path, Node::Function { name, project })),
    decreases items.len(),
{
    let c = contains_edge(path, Node::Function { name, project });
    let i = choose|i: int| 0 <= i < items.len() && (#[trigger] items[i] is Fn) && items[i]->Fn_name == name;
    let front = items.drop_last();
    let a = items_edges(project, path, front);
    let b = item_edges(project, path, items.last());
    assert(items_edges(project, path, items) == a + b);
    if i == items.len() - 1 {
        assert(b[0] == c);
        assert((a + b)[a.len() as int] == c);
    } else {
        assert(front[i] == items[i]);
        lemma_declared_fn_contained(project, path, front, name);
        let k = choose|k: int| 0 <= k < a.len() && a[k] == c;
        assert((a + b)[k] == c);
    }
}

/// Extracting a file twice and merging both record streams into the store
/// gives the same nodes and edges as extracting it once.
pub proof fn lemma_extraction_idempotent(project: String, path: String, items: Seq<Item>)
    ensures
        graph_edges(items_edges(project, path, items) + items_edges(project, path, items))
            == graph_edges(items_edges(project, path, items)),
        graph_nodes(items_edges(project, path, items) + items_edges(project, path, items))
            == graph_nodes(items_edges(project, path, items)),
{
    let s = items_edges(project, path, items);
    let t = s + s;
    assert forall|e: Edge| t.contains(e) implies s.contains(e) by {
        let k = choose|k: int| 0 <= k < t.len() && t[k] == e;
        if k >= s.len() {
            assert(t[k] == s[k - s.len()]);
        }
    }
    assert forall|e: Edge| s.contains(e) implies t.contains(e) by {
        let k = choose|k: int| 0 <= k < s.len() && s[k] == e;
        assert(t[k] == e);
    }
    assert(graph_edges(t) =~= graph_edges(s));
    assert forall|n: Node| graph_nodes(t).contains(n) implies graph_nodes(s).contains(n) by {
        let k = choose|k: int| 0 <= k < t.len() && (#[trigger] t[k].source == n || t[k].target == n);
        if k >= s.len() {
            assert(t[k] == s[k - s.len()]);
            assert(s[k - s.len()].source == n || s[k - s.len()].target == n);
        } else {
            assert(t[k] == s[k]);
            assert(s[k].source == n || s[k].target == n);
        }
    }
    assert forall|n: Node| graph_nodes(s).contains(n) implies graph_nodes(t).contains(n) by {
        let k = choose|k: int| 0 <= k < s.len() && (#[trigger] s[k].source == n || s[k].target == n);
        assert(t[k] == s[k]);
        assert(t[k].source == n || t[k].target == n);
    }
    assert(graph_nodes(t) =~= graph_nodes(s));
}

/// Two files of one project that each declare a function `name` give one
/// `Function` node of that name, contained by exactly those two files.
pub proof fn lemma_function_names_collapse(
    project: String,
    path1: String,
    items1: Seq<Item>,
    path2: String,
    items2: Seq<Item>,
    name: String,
)
    requires
        path1 != path2,
        declares_fn(items1, name),
        declares_fn(items2, name),
    ensures
        ({
            let records = items_edges(project, path1, items1) + items_edges(project, path2, items2);
            let f = Node::Function { name, project };
            &&& graph_nodes(records).contains(f)
            &&& forall|n: Node|
                #![trigger graph_nodes(records).contains(n)]
                graph_nodes(records).contains(n) && n is Function && n->Function_name == name ==> n == f
            &&& graph_edges(records).filter(|e: Edge| e.kind == EdgeKind::Contains && e.target == f)
                == set![contains_edge(path1, f), contains_edge(path2, f)]
            &&& contains_edge(path1, f) != contains_edge(path2, f)
        }),
{
    let a = items_edges(project, path1, items1);
    let b = items_edges(project, path2, items2);
    let records = a + b;
    let f = Node::Function { name, project };
    let c1 = contains_edge(path1, f);
    let c2 = contains_edge(path2, f);
    lemma_records_of_file(project, path1, items1);
    lemma_records_of_file(project, path2, items2);
    lemma_declared_fn_contained(project, path1, items1, name);
    lemma_declared_fn_contained(project, path2, items2, name);
    let k1 = choose|k: int| 0 <= k < a.len() && a[k] == c1;
    let k2 = choose|k: int| 0 <= k < b.len() && b[k] == c2;
    assert(records[k1] == c1);
    assert(records[a.len() + k2] == c2);
    assert(records[k1].target == f);
    assert forall|n: Node|
        #![trigger graph_nodes(records).contains(n)]
        graph_nodes(records).contains(n) && n is Function && n->Function_name == name implies n == f by {
        let k = choose|k: int| 0 <= k < records.len() && (#[trigger] records[k].source == n || records[k].target == n);
        if k < a.len() {
            assert(records[k] == a[k]);
            assert(record_of(a[k], project, path1, items1));
        } else {
            assert(records[k] == b[k - a.len()]);
            assert(record_of(b[k - a.len()], project, path2, items2));
        }
    }
    let sel = graph_edges(records).filter(|e: Edge| e.kind == EdgeKind::Contains && e.target == f);
    assert forall|e: Edge| sel.contains(e) implies e == c1 || e == c2 by {
        let k = choose|k: int| 0 <= k < records.len() && records[k] == e;
        if k < a.len() {
            assert(records[k] == a[k]);
            assert(record_of(a[k], project, path1, items1));
        } else {
            assert(records[k] == b[k - a.len()]);
            assert(record_of(b[k - a.len()], project, path2, items2));
        }
    }
    assert(records.contains(c1));
    assert(records.contains(c2));
    assert(sel =~= set![c1, c2]);
}

proof fn lemma_stmts_interactions_append(a: Seq<Stmt>, b: Seq<Stmt>)
    ensures
        stmts_interactions(a + b) == stmts_interactions(a) + stmts_interactions(b),
    decreases b.len(),
{
    if b.len() == 0 {
        assert(a + b =~= a);
        assert(stmts_interactions(a) + stmts_interactions(b) =~= stmts_interactions(a));
    } else {
        assert((a + b).drop_last() =~= a + b.drop_last());
        assert((a + b).last() == b.last());
        lemma_stmts_interactions_append(a, b.drop_last());
        assert(stmts_interactions(a + b) =~= stmts_interactions(a) + stmts_interactions(b));
    }
}

/// A statement of a body contributes its interactions to those of the body,
/// between those of the statements before and after it.
pub proof fn lemma_stmt_in_body(body: Seq<Stmt>, i: int)
    requires
        0 <= i < body.len(),
    ensures
        stmts_interactions(body) == stmts_interactions(body.subrange(0, i)) + stmt_interactions(body[i])
            + stmts_interactions(body.subrange(i + 1, body.len() as int)),
{
    let front = body.subrange(0, i + 1);
    let back = body.subrange(i + 1, body.len() as int);
    assert(body =~= front + back);
    lemma_stmts_interactions_append(front, back);
    assert(front.drop_last() =~= body.subrange(0, i));
}

/// A body holding the statement `name(args..)` or `name(args..);`, with
/// `name` a bare identifier, yields `FunctionCall(name)`.
pub proof fn lemma_bare_call_detected(body: Seq<Stmt>, i: int, path: Path, args: Vec<Expr>, name: String)
    requires
        0 <= i < body.len(),
        path_ident(path) == Some(name),
        body[i] == Stmt::Expr(Expr::Call { func: Box::new(Expr::Path { qualified_self: false, path }), args }),
    ensures
        stmts_interactions(body).contains(Interaction::FunctionCall(name)),
{
    lemma_stmt_in_body(body, i);
    let pre = stmts_interactions(body.subrange(0, i));
    assert(stmts_interactions(body)[pre.len() as int] == Interaction::FunctionCall(name));
}

/// A method call `receiver.method(..)`, and a call through a path that is not
/// a bare identifier (`a::b::bar()`, `<T>::bar()`), yield no interaction.
pub proof fn lemma_qualified_calls_ignored(e: Expr)
    requires
        e is MethodCall || (e is Call && match *e->Call_func {
            Expr::Path { qualified_self, path } => qualified_self || path_ident(path) is None,
            _ => true,
        }),
    ensures
        expr_interactions(e) == Seq::<Interaction>::empty(),
{
}

/// A struct literal yields `StructInstantiation(name)` when its path is the
/// bare identifier `name`, and nothing when the path is qualified or generic.
pub proof fn lemma_struct_literal(path: Path, fields: Vec<Expr>)
    ensures
        expr_interactions(Expr::Struct { qualified_self: false, path, fields }) == match path_ident(path) {
            Some(name) => seq![Interaction::StructInstantiation(name)],
            None => Seq::<Interaction>::empty(),
        },
{
}

/// An `if` yields the interactions of its then branch, followed by those of
/// its else branch; its condition is not looked into.
pub proof fn lemma_if_branches_in_order(cond: Box<Expr>, then_branch: Vec<Stmt>, else_branch: Box<Expr>)
    ensures
        expr_interactions(Expr::If { cond, then_branch, else_branch: Some(else_branch) })
            == stmts_interactions(then_branch@) + expr_interactions(*else_branch),
{
}

/// Loops, `match`, closures and the other shapes are not looked into: what
/// their bodies hold yields nothing.
pub proof fn lemma_unreached_shapes(e: Expr)
    requires
        e is While || e is Loop || e is ForLoop || e is Match || e is Closure || e is Other,
    ensures
        expr_interactions(e) == Seq::<Interaction>::empty(),
{
}

/// `impl Trait for Type` yields `Type IMPLEMENTS Trait` when `Type` is a bare
/// type name, the trait being known by its last path segment; an inherent
/// `impl Type` yields nothing.
pub proof fn lemma_impl_linking(project: String, trait_path: Option<Path>, self_ty: Type)
    ensures
        trait_path is None ==> impl_link(project, trait_path, self_ty) is None,
        trait_path is Some ==> match (path_last_ident(trait_path->0), type_ident(self_ty)) {
            (Some(t), Some(s)) => impl_link(project, trait_path, self_ty) == Some(
                Edge {
                    kind: EdgeKind::Implements,
                    source: Node::Struct { name: s, project },
                    target: Node::Trait { name: t, project },
                },
            ),
            _ => impl_link(project, trait_path, self_ty) is None,
        },
{
}

} // verus!
