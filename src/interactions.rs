//! Detection of calls and struct instantiations inside a function body.

use vstd::prelude::*;
use crate::syntax::{path_ident, Expr, Path, Stmt};

verus! {

/// A call or instantiation found while walking a function body.
#[derive(Debug, Clone, PartialEq, Eq)]
pub enum Interaction {
    /// A call of a function by its bare name, e.g. `my_function()`.
    FunctionCall(String),
    /// A struct literal naming its type by a bare name, e.g. `User { .. }`.
    StructInstantiation(String),
}

/// The name a path in an expression refers to, when it is a bare identifier.
pub open spec fn expr_path_ident(qualified_self: bool, path: Path) -> Option<String> {
    if qualified_self {
        None
    } else {
        path_ident(path)
    }
}

/// The interactions an expression contributes, in pre-order.
pub open spec fn expr_interactions(e: Expr) -> Seq<Interaction>
    decreases e,
{
    match e {
        Expr::Call { func, .. } => match *func {
            Expr::Path { qualified_self, path } => match expr_path_ident(qualified_self, path) {
                Some(name) => seq![Interaction::FunctionCall(name)],
                None => Seq::empty(),
            },
            _ => Seq::empty(),
        },
        Expr::Struct { qualified_self, path, .. } => match expr_path_ident(qualified_self, path) {
            Some(name) => seq![Interaction::StructInstantiation(name)],
            None => Seq::empty(),
        },
        Expr::Block(stmts) => stmts_interactions(stmts@),
        Expr::If { then_branch, else_branch, .. } => stmts_interactions(then_branch@) + match else_branch {
            Some(b) => expr_interactions(*b),
            None => Seq::empty(),
        },
        _ => Seq::empty(),
    }
}

/// The interactions a statement contributes.
pub open spec fn stmt_interactions(s: Stmt) -> Seq<Interaction>
    decreases s,
{
    match s {
        Stmt::Local { init: Some(e) } => expr_interactions(e),
        Stmt::Expr(e) => expr_interactions(e),
        _ => Seq::empty(),
    }
}

/// The interactions of a statement sequence: those of each statement, in order.
pub open spec fn stmts_interactions(ss: Seq<Stmt>) -> Seq<Interaction>
    decreases ss,
{
    if ss.len() == 0 {
        Seq::empty()
    } else {
        stmts_interactions(ss.drop_last()) + stmt_interactions(ss.last())
    }
}

/// Appends the interactions of each statement of `stmts`, in order.
fn find_interactions_in_stmts(stmts: &Vec<Stmt>, interactions: &mut Vec<Interaction>)
    ensures
        final(interactions)@ == old(interactions)@ + stmts_interactions(stmts@),
    decreases stmts,
{
    let mut i: usize = 0;
    while i < stmts.len()
        invariant
            i <= stmts.len(),
            interactions@ == old(interactions)@ + stmts_interactions(stmts@.subrange(0, i as int)),
        decreases stmts.len() - i,
    {
        proof {
            assert(stmts@.subrange(0, i + 1).drop_last() =~= stmts@.subrange(0, i as int));
            assert(decreases_to!(stmts => stmts[i as int]));
        }
        find_interactions_in_stmt(&stmts[i], interactions);
        i = i + 1;
    }
    assert(stmts@.subrange(0, i as int) =~= stmts@);
}

/// Appends the interactions of a statement: a `let` with an initializer and
/// an expression statement contribute those of their expression; other
/// statements contribute none.
pub fn find_interactions_in_stmt(stmt: &Stmt, interactions: &mut Vec<Interaction>)
    ensures
        final(interactions)@ == old(interactions)@ + stmt_interactions(*stmt),
    decreases stmt,
{
    match stmt {
        Stmt::Local { init: Some(e) } => find_interactions_in_expr(e, interactions),
        Stmt::Expr(e) => find_interactions_in_expr(e, interactions),
        _ => {
            assert(interactions@ =~= interactions@ + Seq::<Interaction>::empty());
        },
    }
}

/// Appends the interactions of an expression: a call of a bare name, a
/// struct literal of a bare name, and what blocks and `if` branches hold.
/// Other shapes are not looked into.
pub fn find_interactions_in_expr(expr: &Expr, interactions: &mut Vec<Interaction>)
    ensures
        final(interactions)@ == old(interactions)@ + expr_interactions(*expr),
    decreases expr,
{
    match expr {
        Expr::Call { func, .. } => {
            if let Expr::Path { qualified_self, path } = &**func {
                if !*qualified_self {
                    if let Some(ident) = path.get_ident() {
                        interactions.push(Interaction::FunctionCall(ident));
                        return;
                    }
                }
            }
            assert(interactions@ =~= interactions@ + Seq::<Interaction>::empty());
        },
        Expr::Struct { qualified_self, path, .. } => {
            if !*qualified_self {
                if let Some(ident) = path.get_ident() {
                    interactions.push(Interaction::StructInstantiation(ident));
                    return;
                }
            }
            assert(interactions@ =~= interactions@ + Seq::<Interaction>::empty());
        },
        Expr::Block(stmts) => find_interactions_in_stmts(stmts, interactions),
        Expr::If { then_branch, else_branch, .. } => {
            find_interactions_in_stmts(then_branch, interactions);
            match else_branch {
                Some(b) => find_interactions_in_expr(b, interactions),
                None => {
                    assert(interactions@ =~= interactions@ + Seq::<Interaction>::empty());
                },
            }
        },
        _ => {
            assert(interactions@ =~= interactions@ + Seq::<Interaction>::empty());
        },
    }
}

/// The interactions of a function body, in pre-order.
pub fn find_interactions(body: &Vec<Stmt>) -> (r: Vec<Interaction>)
    ensures
        r@ == stmts_interactions(body@),
{
    let mut interactions: Vec<Interaction> = Vec::new();
    find_interactions_in_stmts(body, &mut interactions);
    interactions
}

} // verus!
