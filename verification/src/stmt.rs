//! Statements: bindings, assignments, compound blocks, and conditionals,
//! together with their indentation-aware rendering.

use crate::expr::ExprNode;
use crate::text::{append_indented_line, indent_text};
use vstd::prelude::*;
use vstd::string::StringExecFns;

verus! {

/// The target of an assignment: the discard target `_`, or a named
/// variable followed by postfix accessors.
#[derive(Debug, PartialEq, Eq)]
pub enum AssignmentLhs {
    Underscore,
    Simple(String, Vec<AssignmentLhsPostfix>),
}

/// A postfix accessor on an assignment target: an array index or a named
/// member.
#[derive(Debug, PartialEq, Eq)]
pub enum AssignmentLhsPostfix {
    ArrayIndex(ExprNode),
    Member(String),
}

impl AssignmentLhsPostfix {
    /// The source text this postfix renders as: `[index]` for an array
    /// index, `.field` for a member access.
    pub open spec fn spec_render(&self) -> Seq<char> {
        match self {
            AssignmentLhsPostfix::ArrayIndex(index) => "["@ + index.spec_render() + "]"@,
            AssignmentLhsPostfix::Member(field) => "."@ + field@,
        }
    }

    /// Renders this postfix accessor.
    pub fn render(&self) -> (r: String)
        ensures
            r@ == self.spec_render(),
    {
        match self {
            AssignmentLhsPostfix::ArrayIndex(index) => {
                let mut out = "[".to_owned();
                let e = index.render();
                out.append(e.as_str());
                out.append("]");
                proof {
                    assert(out@ =~= self.spec_render());
                }
                out
            },
            AssignmentLhsPostfix::Member(field) => {
                let mut out = ".".to_owned();
                out.append(field.as_str());
                out
            },
        }
    }
}

/// The rendering of the postfix accessors from index `i` on, in order and
/// without separators.
pub open spec fn spec_render_postfixes(postfixes: Seq<AssignmentLhsPostfix>, i: int) -> Seq<char>
    recommends
        0 <= i <= postfixes.len(),
    decreases postfixes.len() - i,
{
    if i < 0 || i >= postfixes.len() {
        Seq::<char>::empty()
    } else {
        postfixes[i].spec_render() + spec_render_postfixes(postfixes, i + 1)
    }
}

/// Appends the renderings of `postfixes[i..]` to `out`.
fn render_postfixes_into(postfixes: &Vec<AssignmentLhsPostfix>, i: usize, out: &mut String)
    requires
        i <= postfixes.len(),
    ensures
        final(out)@ == old(out)@ + spec_render_postfixes(postfixes@, i as int),
    decreases postfixes@.len() - i as int,
{
    if i < postfixes.len() {
        let piece = postfixes[i].render();
        out.append(piece.as_str());
        render_postfixes_into(postfixes, i + 1, out);
        proof {
            assert(out@ =~= old(out)@ + spec_render_postfixes(postfixes@, i as int));
        }
    } else {
        proof {
            assert(out@ =~= old(out)@ + spec_render_postfixes(postfixes@, i as int));
        }
    }
}

impl AssignmentLhs {
    /// The source text this target renders as: a single underscore for the
    /// discard target, otherwise the name followed by each postfix in
    /// order.
    pub open spec fn spec_render(&self) -> Seq<char> {
        match self {
            AssignmentLhs::Underscore => "_"@,
            AssignmentLhs::Simple(name, postfixes) => name@ + spec_render_postfixes(postfixes@, 0),
        }
    }

    /// Renders this assignment target.
    pub fn render(&self) -> (r: String)
        ensures
            r@ == self.spec_render(),
    {
        match self {
            AssignmentLhs::Underscore => "_".to_owned(),
            AssignmentLhs::Simple(name, postfixes) => {
                let mut out = name.clone();
                render_postfixes_into(postfixes, 0, &mut out);
                out
            },
        }
    }
}

/// A statement: an immutable binding, a mutable variable declaration, an
/// assignment, a compound block, or a conditional whose body is the taken
/// branch only. Blocks nest arbitrarily and drive printer indentation.
#[derive(Debug, PartialEq, Eq)]
pub enum Statement {
    LetDecl(String, ExprNode),
    VarDecl(String, ExprNode),
    Assignment(AssignmentLhs, ExprNode),
    Compound(Vec<Statement>),
    If(ExprNode, Vec<Statement>),
}

impl Statement {
    /// Extracts the inner statements from a `Statement::Compound`.
    ///
    /// This operation is precondition-checked: it is defined only for the
    /// compound variant, and callers are expected to have established the
    /// variant by prior pattern inspection.
    pub fn into_compount_statement(self) -> (r: Vec<Statement>)
        requires
            self is Compound,
        ensures
            r@ == self->Compound_0@,
    {
        match self {
            Statement::Compound(stmts) => stmts,
            _ => vstd::pervasive::unreached(),
        }
    }

    /// The source text this statement renders as. A compound block renders
    /// as `{`, each inner statement on its own line indented one level
    /// deeper, and a closing `}`; a conditional renders its condition in
    /// parentheses followed by such a block.
    pub open spec fn spec_render(&self) -> Seq<char>
        decreases self, 0int,
    {
        match self {
            Statement::LetDecl(name, value) => "let "@ + name@ + " = "@ + value.spec_render()
                + ";"@,
            Statement::VarDecl(name, value) => "var "@ + name@ + " = "@ + value.spec_render()
                + ";"@,
            Statement::Assignment(lhs, rhs) => lhs.spec_render() + " = "@ + rhs.spec_render()
                + ";"@,
            Statement::Compound(stmts) => "{\n"@ + spec_render_block(stmts@, 0) + "}"@,
            Statement::If(cond, stmts) => "if ("@ + cond.spec_render() + ") {\n"@
                + spec_render_block(stmts@, 0) + "}"@,
        }
    }

    /// Renders this statement.
    pub fn render(&self) -> (r: String)
        ensures
            r@ == self.spec_render(),
        decreases self, 0int,
    {
        match self {
            Statement::LetDecl(name, value) => {
                let mut out = "let ".to_owned();
                out.append(name.as_str());
                out.append(" = ");
                let v = value.render();
                out.append(v.as_str());
                out.append(";");
                proof {
                    assert(out@ =~= self.spec_render());
                }
                out
            },
            Statement::VarDecl(name, value) => {
                let mut out = "var ".to_owned();
                out.append(name.as_str());
                out.append(" = ");
                let v = value.render();
                out.append(v.as_str());
                out.append(";");
                proof {
                    assert(out@ =~= self.spec_render());
                }
                out
            },
            Statement::Assignment(lhs, rhs) => {
                let mut out = lhs.render();
                out.append(" = ");
                let v = rhs.render();
                out.append(v.as_str());
                out.append(";");
                proof {
                    assert(out@ =~= self.spec_render());
                }
                out
            },
            Statement::Compound(stmts) => {
                let mut out = "{\n".to_owned();
                render_block_into(stmts, 0, &mut out);
                out.append("}");
                proof {
                    assert(out@ =~= self.spec_render());
                }
                out
            },
            Statement::If(cond, stmts) => {
                let mut out = "if (".to_owned();
                let c = cond.render();
                out.append(c.as_str());
                out.append(") {\n");
                render_block_into(stmts, 0, &mut out);
                out.append("}");
                proof {
                    assert(out@ =~= self.spec_render());
                }
                out
            },
        }
    }
}

/// The rendering of a block body from index `i` on: each statement on its
/// own line, indented one level deeper than the block itself.
pub open spec fn spec_render_block(stmts: Seq<Statement>, i: int) -> Seq<char>
    recommends
        0 <= i <= stmts.len(),
    decreases stmts, stmts.len() - i,
{
    if i < 0 || i >= stmts.len() {
        Seq::<char>::empty()
    } else {
        indent_text(stmts[i].spec_render()) + seq!['\n'] + spec_render_block(stmts, i + 1)
    }
}

/// Appends the indented lines of the block body `stmts[i..]` to `out`.
pub(crate) fn render_block_into(stmts: &Vec<Statement>, i: usize, out: &mut String)
    requires
        i <= stmts.len(),
    ensures
        final(out)@ == old(out)@ + spec_render_block(stmts@, i as int),
    decreases stmts@, stmts@.len() - i as int,
{
    if i < stmts.len() {
        let line = stmts[i].render();
        append_indented_line(out, line.as_str());
        render_block_into(stmts, i + 1, out);
        proof {
            assert(out@ =~= old(out)@ + spec_render_block(stmts@, i as int));
        }
    } else {
        proof {
            assert(out@ =~= old(out)@ + spec_render_block(stmts@, i as int));
        }
    }
}

} // verus!
