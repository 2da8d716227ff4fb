//! From the top-level declarations of one file to the edge records that
//! describe them.

use vstd::prelude::*;
use crate::graph::{Edge, EdgeKind, Node};
use crate::interactions::{find_interactions, stmts_interactions, Interaction};
use crate::syntax::{path_ident, path_last_ident, File, Item, Path, Stmt, Type};

verus! {

/// The name of a type, when it is a bare identifier: a path type with no
/// qualified self, no leading `::`, one segment and no generic arguments.
pub open spec fn type_ident(ty: Type) -> Option<String> {
    match ty {
        Type::Path { qualified_self, path } => if qualified_self {
            None
        } else {
            path_ident(path)
        },
        Type::Other => None,
    }
}

/// The record an implementation block yields, if any: the block names a
/// trait and its target type is a bare identifier.
pub open spec fn impl_link(project: String, trait_path: Option<Path>, self_ty: Type) -> Option<Edge> {
    match trait_path {
        Some(tp) => match (path_last_ident(tp), type_ident(self_ty)) {
            (Some(t), Some(s)) => Some(
                Edge {
                    kind: EdgeKind::Implements,
                    source: Node::Struct { name: s, project },
                    target: Node::Trait { name: t, project },
                },
            ),
            _ => None,
        },
        None => None,
    }
}

/// The record an interaction found in the body of `caller` yields.
pub open spec fn interaction_edge(project: String, caller: String, i: Interaction) -> Edge {
    match i {
        Interaction::FunctionCall(callee) => Edge {
            kind: EdgeKind::Calls,
            source: Node::Function { name: caller, project },
            target: Node::Function { name: callee, project },
        },
        Interaction::StructInstantiation(s) => Edge {
            kind: EdgeKind::Instantiates,
            source: Node::Function { name: caller, project },
            target: Node::Struct { name: s, project },
        },
    }
}

/// The containment record of a declaration of `node` in the file at `path`.
pub open spec fn contains_edge(path: String, node: Node) -> Edge {
    Edge { kind: EdgeKind::Contains, source: Node::File { path }, target: node }
}

/// The records of the interactions of a function body, in order.
pub open spec fn body_edges(project: String, caller: String, body: Seq<Stmt>) -> Seq<Edge> {
    stmts_interactions(body).map_values(|i: Interaction| interaction_edge(project, caller, i))
}

/// The records one top-level declaration yields.
pub open spec fn item_edges(project: String, path: String, item: Item) -> Seq<Edge> {
    match item {
        Item::Fn { name, body } => seq![contains_edge(path, Node::Function { name, project })]
            + body_edges(project, name, body@),
        Item::Struct { name } => seq![contains_edge(path, Node::Struct { name, project })],
        Item::Trait { name } => seq![contains_edge(path, Node::Trait { name, project })],
        Item::Impl { trait_path, self_ty } => match impl_link(project, trait_path, self_ty) {
            Some(e) => seq![e],
            None => Seq::empty(),
        },
        Item::Other => Seq::empty(),
    }
}

/// The records a sequence of top-level declarations yields, in source order.
pub open spec fn items_edges(project: String, path: String, items: Seq<Item>) -> Seq<Edge>
    decreases items.len(),
{
    if items.len() == 0 {
        Seq::empty()
    } else {
        items_edges(project, path, items.drop_last()) + item_edges(project, path, items.last())
    }
}

/// The name of a type, when it is a bare identifier.
pub fn get_ident_from_type(ty: &Type) -> (r: Option<String>)
    ensures
        r == type_ident(*ty),
{
    match ty {
        Type::Path { qualified_self, path } => if *qualified_self {
            None
        } else {
            path.get_ident()
        },
        Type::Other => None,
    }
}

/// The `Implements` record of an implementation block, if the block names a
/// trait and targets a bare type name; the trait is known by the last segment
/// of its path.
pub fn link_implementation(project: &String, trait_path: &Option<Path>, self_ty: &Type) -> (r: Option<Edge>)
    ensures
        r == impl_link(*project, *trait_path, *self_ty),
{
    match trait_path {
        Some(tp) => match (tp.last_ident(), get_ident_from_type(self_ty)) {
            (Some(t), Some(s)) => Some(
                Edge {
                    kind: EdgeKind::Implements,
                    source: Node::Struct { name: s, project: project.clone() },
                    target: Node::Trait { name: t, project: project.clone() },
                },
            ),
            _ => None,
        },
        None => None,
    }
}

/// The record of an interaction found in the body of `caller`.
fn interaction_record(project: &String, caller: &String, i: &Interaction) -> (r: Edge)
    ensures
        r == interaction_edge(*project, *caller, *i),
{
    match i {
        Interaction::FunctionCall(callee) => Edge {
            kind: EdgeKind::Calls,
            source: Node::Function { name: caller.clone(), project: project.clone() },
            target: Node::Function { name: callee.clone(), project: project.clone() },
        },
        Interaction::StructInstantiation(s) => Edge {
            kind: EdgeKind::Instantiates,
            source: Node::Function { name: caller.clone(), project: project.clone() },
            target: Node::Struct { name: s.clone(), project: project.clone() },
        },
    }
}

/// Appends the records of one top-level declaration.
fn process_item(project: &String, file_path: &String, item: &Item, records: &mut Vec<Edge>)
    ensures
        final(records)@ == old(records)@ + item_edges(*project, *file_path, *item),
{
    match item {
        Item::Fn { name, body } => {
            records.push(
                Edge {
                    kind: EdgeKind::Contains,
                    source: Node::File { path: file_path.clone() },
                    target: Node::Function { name: name.clone(), project: project.clone() },
                },
            );
            let ghost start = records@;
            let interactions = find_interactions(body);
            let ghost f = |i: Interaction| interaction_edge(*project, *name, i);
            let mut j: usize = 0;
            while j < interactions.len()
                invariant
                    j <= interactions.len(),
                    interactions@ == stmts_interactions(body@),
                    f == (|i: Interaction| interaction_edge(*project, *name, i)),
                    records@ == start + interactions@.subrange(0, j as int).map_values(f),
                decreases interactions.len() - j,
            {
                let e = interaction_record(project, name, &interactions[j]);
                records.push(e);
                assert(interactions@.subrange(0, j + 1).map_values(f) =~= interactions@.subrange(
                    0,
                    j as int,
                ).map_values(f).push(f(interactions@[j as int])));
                j = j + 1;
            }
            assert(interactions@.subrange(0, j as int) =~= interactions@);
            assert(records@ =~= old(records)@ + item_edges(*project, *file_path, *item));
        },
        Item::Struct { name } => {
            records.push(
                Edge {
                    kind: EdgeKind::Contains,
                    source: Node::File { path: file_path.clone() },
                    target: Node::Struct { name: name.clone(), project: project.clone() },
                },
            );
            assert(records@ =~= old(records)@ + item_edges(*project, *file_path, *item));
        },
        Item::Trait { name } => {
            records.push(
                Edge {
                    kind: EdgeKind::Contains,
                    source: Node::File { path: file_path.clone() },
                    target: Node::Trait { name: name.clone(), project: project.clone() },
                },
            );
            assert(records@ =~= old(records)@ + item_edges(*project, *file_path, *item));
        },
        Item::Impl { trait_path, self_ty } => {
            match link_implementation(project, trait_path, self_ty) {
                Some(e) => {
                    records.push(e);
                    assert(records@ =~= old(records)@ + item_edges(*project, *file_path, *item));
                },
                None => {
                    assert(records@ =~= old(records)@ + item_edges(*project, *file_path, *item));
                },
            }
        },
        Item::Other => {
            assert(records@ =~= old(records)@ + item_edges(*project, *file_path, *item));
        },
    }
}

/// The records of one parsed file, declaration by declaration in source
/// order: a `Contains` record for each function, struct and trait, the
/// `Calls` and `Instantiates` records of each function body, and the
/// `Implements` record of each trait implementation for a bare type name.
/// Other declarations yield nothing.
pub fn process_ast(project: &String, file_path: &String, ast: &File) -> (r: Vec<Edge>)
    ensures
        r@ == items_edges(*project, *file_path, ast.items@),
{
    let mut records: Vec<Edge> = Vec::new();
    let mut i: usize = 0;
    while i < ast.items.len()
        invariant
            i <= ast.items.len(),
            records@ == items_edges(*project, *file_path, ast.items@.subrange(0, i as int)),
        decreases ast.items.len() - i,
    {
        proof {
            assert(ast.items@.subrange(0, i + 1).drop_last() =~= ast.items@.subrange(0, i as int));
        }
        process_item(project, file_path, &ast.items[i], &mut records);
        i = i + 1;
    }
    assert(ast.items@.subrange(0, i as int) =~= ast.items@);
    records
}

} // verus!
