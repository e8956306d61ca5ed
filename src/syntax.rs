pub use crate::span::{Spanned as Sn, Symbol as Sy};
use crate::span::{max, min, Span};
use vstd::prelude::*;

verus! {

pub type Ps<T> = Box<Sn<T>>;

pub type Xr = Expr;

pub type Sxr = Sn<Expr>;

pub type Psxr = Ps<Expr>;

#[derive(Debug)]
pub enum Ty {
    Path { abs: bool, path: Vec<Sn<Sy>> },
    Tuple(Vec<Sn<Ty>>),
}

impl Ty {
    /// The unit type, the empty tuple.
    pub fn unit() -> (r: Ty)
        ensures
            r is Tuple,
            r->Tuple_0@.len() == 0,
    {
        Ty::Tuple(Vec::new())
    }
}

#[derive(Debug)]
pub enum BinaryOp {
    Add,
    Sub,
    Mul,
    Div,
    Mod,
    BLeft,
    BRight,
    BAnd,
    BOr,
    BXor,
    And,
    Or,
    Eq,
    Neq,
    Less,
    Greater,
    Leq,
    Geq,
    Assign,
    Then,
    Else,
    Index,
}

#[derive(Debug)]
pub enum UnaryOp {
    Ref { mutable: bool, lifetime: Option<Sy> },
    Star,
    Not,
    Neg,
    Try,
}

/// The suffix of a number literal: signed, unsigned or float, with its width
/// in bits.
#[derive(Debug)]
pub enum NumTy {
    Signed(u16),
    Unsigned(u16),
    Float(u16),
}

#[derive(Debug)]
pub enum Pattern {
    /// Pattern used by `if` statements
    True,
    /// `$label Ty`
    Lot { label: Option<Sn<Sy>>, ty: Option<Sn<Ty>> },
    Or(Vec<Sn<Pattern>>),
    And(Vec<Sn<Pattern>>),
}

/// An expression; its compound operands carry their spans.
#[derive(Debug)]
#[allow(inconsistent_fields)]
pub enum Expr {
    Ident(Sy),
    Num { value: Sy, ty: Option<NumTy> },
    Guard { val: Psxr, pat: Sn<Pattern> },
    Member { on: Psxr, names: Vec<Sn<Sy>> },
    Call { on: Psxr, args: Vec<Sxr> },
    Binop { left: Psxr, op: BinaryOp, right: Psxr },
    Unop { op: UnaryOp, right: Psxr },
    Block(Vec<Sxr>),
    Unit,
}

impl Expr {
    /// `e` with its leftmost operand replaced by `to`; an expression without
    /// one is unchanged.
    pub open spec fn with_left(e: Expr, to: Psxr) -> Expr {
        match e {
            Expr::Guard { val, pat } => Expr::Guard { val: to, pat },
            Expr::Member { on, names } => Expr::Member { on: to, names },
            Expr::Call { on, args } => Expr::Call { on: to, args },
            Expr::Binop { left, op, right } => Expr::Binop { left: to, op, right },
            Expr::Unop { op, right } => Expr::Unop { op, right: to },
            _ => e,
        }
    }

    pub fn set_left(&mut self, to: Psxr)
        ensures
            *final(self) == Expr::with_left(*old(self), to),
    {
        match self {
            Expr::Guard { val, .. } => *val = to,
            Expr::Member { on, .. } => *on = to,
            Expr::Call { on, .. } => *on = to,
            Expr::Binop { left, .. } => *left = to,
            Expr::Unop { right, .. } => *right = to,
            _ => (),
        }
    }
}

/// Builds a binary operation spanning both operands.
pub fn binop(l: Sxr, op: BinaryOp, r: Sxr) -> (res: Sxr)
    requires
        l.span.source == r.span.source,
    ensures
        res.span == l.span.joined(r.span),
        res.span.source == l.span.source,
        res.span.start == min(l.span.start, r.span.start),
        res.span.end == max(l.span.end, r.span.end),
        res.node == (Expr::Binop { left: Box::new(l), op, right: Box::new(r) }),
{
    Sn { span: l.span.union(r.span), node: Expr::Binop { left: Box::new(l), op, right: Box::new(r) } }
}

/// Builds a prefix operation spanning the operator's token `mark` and the
/// operand.
pub fn unop(mark: Span, op: UnaryOp, r: Sxr) -> (res: Sxr)
    requires
        mark.source == r.span.source,
    ensures
        res.span == mark.joined(r.span),
        res.span.source == mark.source,
        res.span.start == min(mark.start, r.span.start),
        res.span.end == max(mark.end, r.span.end),
        res.node == (Expr::Unop { op, right: Box::new(r) }),
{
    Sn { span: mark.union(r.span), node: Expr::Unop { op, right: Box::new(r) } }
}

} // verus!
