//! Expression nodes: literals, operators, and the operator
//! type-evaluation rules that assign a result type to unary and binary
//! expressions.

use crate::text::{dec_str, int_str, render_i32, render_u32};
use crate::types::{DataType, ScalarType};
use vstd::prelude::*;
use vstd::string::StringExecFns;

verus! {

/// A literal value: boolean, signed 32-bit integer, or unsigned 32-bit
/// integer.
#[derive(Debug, PartialEq, Eq)]
pub enum Lit {
    Bool(bool),
    Int(i32),
    UInt(u32),
}

impl Lit {
    /// The source text this literal renders as: booleans and signed
    /// integers in their usual decimal or keyword form, unsigned integers
    /// as decimal digits with a trailing `u` suffix.
    pub open spec fn spec_render(&self) -> Seq<char> {
        match self {
            Lit::Bool(b) => if *b {
                "true"@
            } else {
                "false"@
            },
            Lit::Int(v) => int_str(*v as int),
            Lit::UInt(v) => dec_str(*v as int) + "u"@,
        }
    }

    /// Renders this literal.
    pub fn render(&self) -> (r: String)
        ensures
            r@ == self.spec_render(),
    {
        match self {
            Lit::Bool(b) => {
                if *b {
                    "true".to_owned()
                } else {
                    "false".to_owned()
                }
            },
            Lit::Int(v) => render_i32(*v),
            Lit::UInt(v) => {
                let mut out = render_u32(*v);
                out.append("u");
                out
            },
        }
    }
}

/// A unary operator: negation, logical not, or bitwise not.
#[derive(Clone, Copy, Debug, PartialEq, Eq)]
pub enum UnOp {
    Neg,
    Not,
    BitNot,
}

impl UnOp {
    /// Determines the return type of a unary operator given its operand
    /// type: every unary operator preserves the operand type unchanged.
    pub fn type_eval(&self, t: &DataType) -> (r: DataType)
        ensures
            r == *t,
    {
        t.clone()
    }

    /// The operator symbol this unary operator renders as.
    pub open spec fn spec_render(&self) -> Seq<char> {
        match self {
            UnOp::Neg => "-"@,
            UnOp::Not => "!"@,
            UnOp::BitNot => "~"@,
        }
    }

    /// Renders this unary operator's symbol.
    pub fn render(&self) -> (r: String)
        ensures
            r@ == self.spec_render(),
    {
        match self {
            UnOp::Neg => "-".to_owned(),
            UnOp::Not => "!".to_owned(),
            UnOp::BitNot => "~".to_owned(),
        }
    }
}

/// A binary operator: arithmetic, logical, bitwise, shift, equality, or
/// relational.
#[derive(Clone, Copy, Debug, PartialEq, Eq)]
pub enum BinOp {
    Plus,
    Minus,
    Times,
    Divide,
    Mod,
    LogAnd,
    LogOr,
    BitAnd,
    BitOr,
    BitXOr,
    LShift,
    RShift,
    Equal,
    NotEqual,
    Less,
    LessEqual,
    Greater,
    GreaterEqual,
}

impl BinOp {
    /// The arithmetic and bitwise group: these operators produce the same
    /// result type as the first operand.
    pub open spec fn is_arithmetic_or_bitwise(&self) -> bool {
        self is Plus || self is Minus || self is Times || self is Divide || self is Mod
            || self is BitAnd || self is BitOr || self is BitXOr || self is LShift
            || self is RShift
    }

    /// The logical group: these operators always produce a scalar boolean.
    pub open spec fn is_logical(&self) -> bool {
        self is LogAnd || self is LogOr
    }

    /// The relational and equality group: these operators produce a boolean
    /// scalar or vector with the shape of the first operand.
    pub open spec fn is_relational(&self) -> bool {
        self is Equal || self is NotEqual || self is Less || self is LessEqual || self is Greater
            || self is GreaterEqual
    }

    /// Determines the return type of a binary operator given its operand
    /// types. The right operand type is accepted but never consulted:
    /// operand compatibility is the caller's responsibility, and the result
    /// is derived from the left operand's type alone.
    pub fn type_eval(&self, l: &DataType, r: &DataType) -> (res: DataType)
        ensures
            self.is_arithmetic_or_bitwise() ==> res == *l,
            self.is_logical() ==> res == DataType::Scalar(ScalarType::Bool),
            self.is_relational() ==> res == l.spec_with_scalar_kind(ScalarType::Bool),
    {
        match self {
            // These operators produce the same result type as the first operand.
            BinOp::Plus
            | BinOp::Minus
            | BinOp::Times
            | BinOp::Divide
            | BinOp::Mod
            | BinOp::BitAnd
            | BinOp::BitOr
            | BinOp::BitXOr
            | BinOp::LShift
            | BinOp::RShift => l.clone(),
            // These operators always produce scalar bools.
            BinOp::LogAnd | BinOp::LogOr => DataType::Scalar(ScalarType::Bool),
            // These operators produce a scalar/vector bool with the same number
            // of components as the first operand.
            BinOp::Less
            | BinOp::LessEqual
            | BinOp::Greater
            | BinOp::GreaterEqual
            | BinOp::Equal
            | BinOp::NotEqual => l.with_scalar_kind(ScalarType::Bool),
        }
    }

    /// The operator symbol this binary operator renders as.
    pub open spec fn spec_render(&self) -> Seq<char> {
        match self {
            BinOp::Plus => "+"@,
            BinOp::Minus => "-"@,
            BinOp::Times => "*"@,
            BinOp::Divide => "/"@,
            BinOp::Mod => "%"@,
            BinOp::LogAnd => "&&"@,
            BinOp::LogOr => "||"@,
            BinOp::BitAnd => "&"@,
            BinOp::BitOr => "|"@,
            BinOp::BitXOr => "^"@,
            BinOp::LShift => "<<"@,
            BinOp::RShift => ">>"@,
            BinOp::Equal => "=="@,
            BinOp::NotEqual => "!="@,
            BinOp::Less => "<"@,
            BinOp::LessEqual => "<="@,
            BinOp::Greater => ">"@,
            BinOp::GreaterEqual => ">="@,
        }
    }

    /// Renders this binary operator's symbol.
    pub fn render(&self) -> (r: String)
        ensures
            r@ == self.spec_render(),
    {
        match self {
            BinOp::Plus => "+".to_owned(),
            BinOp::Minus => "-".to_owned(),
            BinOp::Times => "*".to_owned(),
            BinOp::Divide => "/".to_owned(),
            BinOp::Mod => "%".to_owned(),
            BinOp::LogAnd => "&&".to_owned(),
            BinOp::LogOr => "||".to_owned(),
            BinOp::BitAnd => "&".to_owned(),
            BinOp::BitOr => "|".to_owned(),
            BinOp::BitXOr => "^".to_owned(),
            BinOp::LShift => "<<".to_owned(),
            BinOp::RShift => ">>".to_owned(),
            BinOp::Equal => "==".to_owned(),
            BinOp::NotEqual => "!=".to_owned(),
            BinOp::Less => "<".to_owned(),
            BinOp::LessEqual => "<=".to_owned(),
            BinOp::Greater => ">".to_owned(),
            BinOp::GreaterEqual => ">=".to_owned(),
        }
    }
}

/// An expression: a literal, a type-constructor application, a variable
/// reference, or a unary or binary operator application. Every sub-node is
/// exclusively owned, so expressions form finite trees.
#[derive(Debug, PartialEq, Eq)]
pub enum Expr {
    Lit(Lit),
    TypeCons(DataType, Vec<ExprNode>),
    Var(String),
    UnOp(UnOp, Box<ExprNode>),
    BinOp(BinOp, Box<ExprNode>, Box<ExprNode>),
}

/// An expression paired with its resolved data type. The type is trusted
/// input: it must be what the type-evaluation rules (or type-constructor
/// identity) produce for the expression's structure, and the printer never
/// re-derives it.
#[derive(Debug, PartialEq, Eq)]
pub struct ExprNode {
    pub data_type: DataType,
    pub expr: Expr,
}

impl Expr {
    /// The source text this expression renders as. Unary applications are
    /// always parenthesized as `op(operand)`; binary applications
    /// parenthesize both operands as `(left) op (right)`, so the printer
    /// never reasons about precedence.
    pub open spec fn spec_render(&self) -> Seq<char>
        decreases self, 0int,
    {
        match self {
            Expr::Lit(l) => l.spec_render(),
            Expr::TypeCons(t, args) => t.spec_render() + "("@ + spec_render_args(args@, 0) + ")"@,
            Expr::Var(name) => name@,
            Expr::UnOp(op, e) => op.spec_render() + "("@ + e.spec_render() + ")"@,
            Expr::BinOp(op, l, r) => "("@ + l.spec_render() + ") "@ + op.spec_render() + " ("@
                + r.spec_render() + ")"@,
        }
    }

    /// Renders this expression.
    pub fn render(&self) -> (r: String)
        ensures
            r@ == self.spec_render(),
        decreases self, 0int,
    {
        match self {
            Expr::Lit(l) => l.render(),
            Expr::TypeCons(t, args) => {
                let mut out = t.render();
                out.append("(");
                render_args_into(args, 0, &mut out);
                out.append(")");
                proof {
                    assert(out@ =~= self.spec_render());
                }
                out
            },
            Expr::Var(name) => name.clone(),
            Expr::UnOp(op, e) => {
                let mut out = op.render();
                out.append("(");
                let inner = e.render();
                out.append(inner.as_str());
                out.append(")");
                proof {
                    assert(out@ =~= self.spec_render());
                }
                out
            },
            Expr::BinOp(op, l, r) => {
                let mut out = "(".to_owned();
                let left = l.render();
                out.append(left.as_str());
                out.append(") ");
                let sym = op.render();
                out.append(sym.as_str());
                out.append(" (");
                let right = r.render();
                out.append(right.as_str());
                out.append(")");
                proof {
                    assert(out@ =~= self.spec_render());
                }
                out
            },
        }
    }
}

impl ExprNode {
    /// An expression node renders as its expression; the attached type does
    /// not appear in the text.
    pub open spec fn spec_render(&self) -> Seq<char>
        decreases self, 1int,
    {
        self.expr.spec_render()
    }

    /// Renders this expression node.
    pub fn render(&self) -> (r: String)
        ensures
            r@ == self.spec_render(),
        decreases self, 1int,
    {
        self.expr.render()
    }
}

/// The comma-space separated rendering of the argument nodes of a
/// type-constructor expression, from index `i` on.
pub open spec fn spec_render_args(args: Seq<ExprNode>, i: int) -> Seq<char>
    recommends
        0 <= i <= args.len(),
    decreases args, args.len() - i,
{
    if i < 0 || i >= args.len() {
        Seq::<char>::empty()
    } else if i + 1 == args.len() {
        args[i].spec_render()
    } else {
        args[i].spec_render() + ", "@ + spec_render_args(args, i + 1)
    }
}

/// Appends the comma-space separated renderings of `args[i..]` to `out`.
fn render_args_into(args: &Vec<ExprNode>, i: usize, out: &mut String)
    requires
        i <= args.len(),
    ensures
        final(out)@ == old(out)@ + spec_render_args(args@, i as int),
    decreases args@, args@.len() - i as int,
{
    if i < args.len() {
        let piece = args[i].render();
        out.append(piece.as_str());
        if i + 1 < args.len() {
            out.append(", ");
        }
        render_args_into(args, i + 1, out);
        proof {
            assert(out@ =~= old(out)@ + spec_render_args(args@, i as int));
        }
    } else {
        proof {
            assert(out@ =~= old(out)@ + spec_render_args(args@, i as int));
        }
    }
}

} // verus!
