//! The shapes of a parsed source file that the extraction reads.

use vstd::prelude::*;

verus! {

/// One segment of a path, such as `b` in `a::b::<T>`.
#[derive(Debug, Clone, PartialEq, Eq)]
pub struct PathSegment {
    pub ident: String,
    /// Whether the segment carries generic arguments (`Vec<T>`, `f::<u8>`).
    pub has_arguments: bool,
}

/// A path such as `foo`, `a::b::c` or `::std::vec::Vec<T>`.
#[derive(Debug, Clone, PartialEq, Eq)]
pub struct Path {
    /// Whether the path starts with `::`.
    pub leading_colon: bool,
    pub segments: Vec<PathSegment>,
}

/// The identifier a path consists of, when it is a single bare identifier.
pub open spec fn path_ident(p: Path) -> Option<String> {
    if !p.leading_colon && p.segments@.len() == 1 && !p.segments@[0].has_arguments {
        Some(p.segments@[0].ident)
    } else {
        None
    }
}

/// The identifier of the last segment of a path, if it has any segment.
pub open spec fn path_last_ident(p: Path) -> Option<String> {
    if p.segments@.len() > 0 {
        Some(p.segments@.last().ident)
    } else {
        None
    }
}

impl Path {
    /// The identifier this path consists of, if it is a bare identifier:
    /// no leading `::`, exactly one segment, no generic arguments.
    pub fn get_ident(&self) -> (r: Option<String>)
        ensures
            r == path_ident(*self),
    {
        if !self.leading_colon && self.segments.len() == 1 && !self.segments[0].has_arguments {
            Some(self.segments[0].ident.clone())
        } else {
            None
        }
    }

    /// The identifier of the last segment, if there is one.
    pub fn last_ident(&self) -> (r: Option<String>)
        ensures
            r == path_last_ident(*self),
    {
        let n = self.segments.len();
        if n > 0 {
            Some(self.segments[n - 1].ident.clone())
        } else {
            None
        }
    }
}

/// A type, as far as implementation blocks need it.
#[derive(Debug, Clone, PartialEq, Eq)]
pub enum Type {
    /// A path type; `qualified_self` marks a `<T as Trait>::Name` form.
    Path { qualified_self: bool, path: Path },
    /// References, tuples, slices, function pointers and the like.
    Other,
}

/// An expression. Shapes the extraction does not look into keep their
/// sub-expressions all the same, so that a tree is never cut short.
#[derive(Debug, PartialEq, Eq)]
pub enum Expr {
    /// `func(args)`.
    Call { func: Box<Expr>, args: Vec<Expr> },
    /// `receiver.method(args)`.
    MethodCall { receiver: Box<Expr>, method: String, args: Vec<Expr> },
    /// A path used as a value; `qualified_self` marks a `<T>::name` form.
    Path { qualified_self: bool, path: Path },
    /// A struct literal `path { field: value, .. }`, with its field values;
    /// `qualified_self` marks a `<T as Trait>::Name { .. }` form.
    Struct { qualified_self: bool, path: Path, fields: Vec<Expr> },
    /// A block `{ stmts }`.
    Block(Vec<Stmt>),
    /// `if cond { then_branch } else else_branch`; an `else if` chain is an
    /// `If` in the else branch.
    If { cond: Box<Expr>, then_branch: Vec<Stmt>, else_branch: Option<Box<Expr>> },
    /// `while cond { body }`.
    While { cond: Box<Expr>, body: Vec<Stmt> },
    /// `loop { body }`.
    Loop(Vec<Stmt>),
    /// `for pat in iter { body }`.
    ForLoop { iter: Box<Expr>, body: Vec<Stmt> },
    /// `match scrutinee { arms }`, with the body of each arm.
    Match { scrutinee: Box<Expr>, arms: Vec<Expr> },
    /// A closure, with its body.
    Closure(Box<Expr>),
    /// Any other expression, with the sub-expressions it holds.
    Other(Vec<Expr>),
}

/// A statement of a block.
#[derive(Debug, PartialEq, Eq)]
pub enum Stmt {
    /// `let pat = init;`, or `let pat;` without an initializer.
    Local { init: Option<Expr> },
    /// An expression, with or without a trailing semicolon.
    Expr(Expr),
    /// An item declared inside a block.
    Item,
    /// A macro invocation in statement position.
    Macro,
}

/// A top-level declaration of a file.
#[derive(Debug, PartialEq, Eq)]
pub enum Item {
    /// `fn name(..) { body }`.
    Fn { name: String, body: Vec<Stmt> },
    /// `struct name ..`.
    Struct { name: String },
    /// `trait name { .. }`.
    Trait { name: String },
    /// `impl trait_path for self_ty { .. }`, or `impl self_ty { .. }` when
    /// `trait_path` is `None`.
    Impl { trait_path: Option<Path>, self_ty: Type },
    /// Modules, constants, type aliases, enums, uses, macros and the rest.
    Other,
}

/// A parsed source file: its top-level declarations in source order.
#[derive(Debug, PartialEq, Eq)]
pub struct File {
    pub items: Vec<Item>,
}

} // verus!
