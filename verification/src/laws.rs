//! Laws of the printer and of the type-evaluation rules: the binary
//! operator groups partition the operators, printing is deterministic, and
//! block nesting is balanced (every opened block is closed) for every tree
//! whose names are free of brace characters.

use crate::decl::{
    spec_render_attrs, spec_render_globals, spec_render_inputs, spec_render_members,
    spec_render_structs, AttrList, Attribute, FnAttr, FnDecl, FnInput, GlobalVarAttr,
    GlobalVarDecl, Module, StructDecl, StructMember,
};
use crate::expr::{spec_render_args, BinOp, Expr, ExprNode, Lit, UnOp};
use crate::stmt::{
    spec_render_block, spec_render_postfixes, AssignmentLhs, AssignmentLhsPostfix, Statement,
};
use crate::text::{
    count_char, dec_digit, dec_str, indent_text, int_str, lemma_count_absent, lemma_count_concat,
    lemma_count_indent_chars, lemma_count_one, lemma_indent_text_line_prefix, line_start,
};
use crate::types::DataType;
use vstd::prelude::*;

verus! {

/// The three binary operator groups are exhaustive and mutually exclusive:
/// every binary operator lies in exactly one of them.
pub proof fn lemma_binop_groups_partition(op: BinOp)
    ensures
        op.is_arithmetic_or_bitwise() || op.is_logical() || op.is_relational(),
        !(op.is_arithmetic_or_bitwise() && op.is_logical()),
        !(op.is_arithmetic_or_bitwise() && op.is_relational()),
        !(op.is_logical() && op.is_relational()),
{
}

/// Printing is deterministic: the printer's contract pins the text to a
/// function of the tree alone, so any two texts it may return for the same
/// module are identical.
pub proof fn lemma_render_deterministic(m: Module, a: Seq<char>, b: Seq<char>)
    requires
        a == m.spec_render(),
        b == m.spec_render(),
    ensures
        a == b,
{
}

/// Text that contains neither block-open nor block-close markers.
pub open spec fn brace_free(s: Seq<char>) -> bool {
    forall|i: int| 0 <= i < s.len() ==> s[i] != '{' && s[i] != '}'
}

/// One of the two block markers.
pub open spec fn is_brace(c: char) -> bool {
    c == '{' || c == '}'
}

/// How many more block-open than block-close markers `s` holds.
pub open spec fn brace_net(s: Seq<char>) -> int {
    count_char(s, '{') - count_char(s, '}')
}

proof fn lemma_count_brace_free(s: Seq<char>, c: char)
    requires
        brace_free(s),
        is_brace(c),
    ensures
        count_char(s, c) == 0,
{
    lemma_count_absent(s, c);
}

proof fn lemma_net_brace_free(s: Seq<char>)
    requires
        brace_free(s),
    ensures
        brace_net(s) == 0,
{
    lemma_count_brace_free(s, '{');
    lemma_count_brace_free(s, '}');
}

proof fn lemma_net_concat(a: Seq<char>, b: Seq<char>)
    ensures
        brace_net(a + b) == brace_net(a) + brace_net(b),
        count_char(a + b, '{') == count_char(a, '{') + count_char(b, '{'),
        count_char(a + b, '}') == count_char(a, '}') + count_char(b, '}'),
{
    lemma_count_concat(a, b, '{');
    lemma_count_concat(a, b, '}');
}

proof fn lemma_net_indent(s: Seq<char>)
    ensures
        brace_net(indent_text(s)) == brace_net(s),
        count_char(indent_text(s), '{') == count_char(s, '{'),
        count_char(indent_text(s), '}') == count_char(s, '}'),
{
    lemma_count_indent_chars(s, true, '{');
    lemma_count_indent_chars(s, true, '}');
}

proof fn lemma_brace_free_concat(a: Seq<char>, b: Seq<char>)
    requires
        brace_free(a),
        brace_free(b),
    ensures
        brace_free(a + b),
{
    assert forall|i: int| 0 <= i < (a + b).len() implies (a + b)[i] != '{' && (a + b)[i]
        != '}' by {
        if i < a.len() {
            assert((a + b)[i] == a[i]);
        } else {
            assert((a + b)[i] == b[i - a.len()]);
        }
    }
}

proof fn lemma_dec_str_brace_free(n: int)
    ensures
        brace_free(dec_str(n)),
    decreases n,
{
    if n < 10 {
        assert(dec_str(n) == seq![dec_digit(n)]);
        assert(seq![dec_digit(n)][0] == dec_digit(n));
    } else {
        lemma_dec_str_brace_free(n / 10);
        assert(seq![dec_digit(n % 10)][0] == dec_digit(n % 10));
        lemma_brace_free_concat(dec_str(n / 10), seq![dec_digit(n % 10)]);
    }
}

proof fn lemma_int_str_brace_free(n: int)
    ensures
        brace_free(int_str(n)),
{
    lemma_dec_str_brace_free(n);
    if n < 0 {
        lemma_dec_str_brace_free(-n);
        assert(seq!['-'][0] == '-');
        lemma_brace_free_concat(seq!['-'], dec_str(-n));
    }
}

/// A data type whose user-declared name, if any, is free of brace
/// characters.
pub open spec fn type_names_ok(t: DataType) -> bool {
    match t {
        DataType::User(name) => brace_free(name@),
        _ => true,
    }
}

proof fn lemma_type_render_brace_free(t: DataType)
    requires
        type_names_ok(t),
    ensures
        brace_free(t.spec_render()),
{
    reveal_strlit("bool");
    reveal_strlit("i32");
    reveal_strlit("u32");
    reveal_strlit("vec");
    reveal_strlit("<");
    reveal_strlit(">");
    match t {
        DataType::Scalar(s) => {
            assert(brace_free(s.spec_render()));
        },
        DataType::Vector(n, s) => {
            lemma_dec_str_brace_free(n as int);
            lemma_brace_free_concat("vec"@, dec_str(n as int));
            lemma_brace_free_concat("vec"@ + dec_str(n as int), "<"@);
            lemma_brace_free_concat("vec"@ + dec_str(n as int) + "<"@, s.spec_render());
            lemma_brace_free_concat(
                "vec"@ + dec_str(n as int) + "<"@ + s.spec_render(),
                ">"@,
            );
        },
        DataType::User(_) => {},
    }
}

proof fn lemma_lit_render_brace_free(l: Lit)
    ensures
        brace_free(l.spec_render()),
{
    reveal_strlit("true");
    reveal_strlit("false");
    reveal_strlit("u");
    match l {
        Lit::Bool(_) => {},
        Lit::Int(v) => {
            lemma_int_str_brace_free(v as int);
        },
        Lit::UInt(v) => {
            lemma_dec_str_brace_free(v as int);
            lemma_brace_free_concat(dec_str(v as int), "u"@);
        },
    }
}

proof fn lemma_unop_render_brace_free(op: UnOp)
    ensures
        brace_free(op.spec_render()),
{
    reveal_strlit("-");
    reveal_strlit("!");
    reveal_strlit("~");
}

proof fn lemma_binop_render_brace_free(op: BinOp)
    ensures
        brace_free(op.spec_render()),
{
    reveal_strlit("+");
    reveal_strlit("-");
    reveal_strlit("*");
    reveal_strlit("/");
    reveal_strlit("%");
    reveal_strlit("&&");
    reveal_strlit("||");
    reveal_strlit("&");
    reveal_strlit("|");
    reveal_strlit("^");
    reveal_strlit("<<");
    reveal_strlit(">>");
    reveal_strlit("==");
    reveal_strlit("!=");
    reveal_strlit("<");
    reveal_strlit("<=");
    reveal_strlit(">");
    reveal_strlit(">=");
}

/// An expression all of whose variable names, member names, and
/// user-declared type names are free of brace characters.
pub open spec fn expr_names_ok(e: Expr) -> bool
    decreases e, 0int,
{
    match e {
        Expr::Lit(_) => true,
        Expr::TypeCons(t, args) => type_names_ok(t) && nodes_names_ok(args@, 0),
        Expr::Var(name) => brace_free(name@),
        Expr::UnOp(_, e1) => node_names_ok(*e1),
        Expr::BinOp(_, l, r) => node_names_ok(*l) && node_names_ok(*r),
    }
}

/// See `expr_names_ok`.
pub open spec fn node_names_ok(n: ExprNode) -> bool
    decreases n, 1int,
{
    expr_names_ok(n.expr)
}

/// See `expr_names_ok`: every node from index `i` on.
pub open spec fn nodes_names_ok(nodes: Seq<ExprNode>, i: int) -> bool
    decreases nodes, nodes.len() - i,
{
    if i < 0 || i >= nodes.len() {
        true
    } else {
        node_names_ok(nodes[i]) && nodes_names_ok(nodes, i + 1)
    }
}

proof fn lemma_expr_render_brace_free(e: Expr)
    requires
        expr_names_ok(e),
    ensures
        brace_free(e.spec_render()),
    decreases e, 0int,
{
    reveal_strlit("(");
    reveal_strlit(")");
    reveal_strlit(") ");
    reveal_strlit(" (");
    match e {
        Expr::Lit(l) => {
            lemma_lit_render_brace_free(l);
        },
        Expr::TypeCons(t, args) => {
            lemma_type_render_brace_free(t);
            lemma_args_render_brace_free(args@, 0);
            lemma_brace_free_concat(t.spec_render(), "("@);
            lemma_brace_free_concat(t.spec_render() + "("@, spec_render_args(args@, 0));
            lemma_brace_free_concat(
                t.spec_render() + "("@ + spec_render_args(args@, 0),
                ")"@,
            );
        },
        Expr::Var(_) => {},
        Expr::UnOp(op, e1) => {
            lemma_unop_render_brace_free(op);
            lemma_node_render_brace_free(*e1);
            lemma_brace_free_concat(op.spec_render(), "("@);
            lemma_brace_free_concat(op.spec_render() + "("@, e1.spec_render());
            lemma_brace_free_concat(op.spec_render() + "("@ + e1.spec_render(), ")"@);
        },
        Expr::BinOp(op, l, r) => {
            lemma_binop_render_brace_free(op);
            lemma_node_render_brace_free(*l);
            lemma_node_render_brace_free(*r);
            lemma_brace_free_concat("("@, l.spec_render());
            lemma_brace_free_concat("("@ + l.spec_render(), ") "@);
            lemma_brace_free_concat("("@ + l.spec_render() + ") "@, op.spec_render());
            lemma_brace_free_concat(
                "("@ + l.spec_render() + ") "@ + op.spec_render(),
                " ("@,
            );
            lemma_brace_free_concat(
                "("@ + l.spec_render() + ") "@ + op.spec_render() + " ("@,
                r.spec_render(),
            );
            lemma_brace_free_concat(
                "("@ + l.spec_render() + ") "@ + op.spec_render() + " ("@ + r.spec_render(),
                ")"@,
            );
        },
    }
}

proof fn lemma_node_render_brace_free(n: ExprNode)
    requires
        node_names_ok(n),
    ensures
        brace_free(n.spec_render()),
    decreases n, 1int,
{
    lemma_expr_render_brace_free(n.expr);
}

proof fn lemma_args_render_brace_free(nodes: Seq<ExprNode>, i: int)
    requires
        nodes_names_ok(nodes, i),
    ensures
        brace_free(spec_render_args(nodes, i)),
    decreases nodes, nodes.len() - i,
{
    reveal_strlit(", ");
    if i < 0 || i >= nodes.len() {
    } else if i + 1 == nodes.len() {
        lemma_node_render_brace_free(nodes[i]);
    } else {
        lemma_node_render_brace_free(nodes[i]);
        lemma_args_render_brace_free(nodes, i + 1);
        lemma_brace_free_concat(nodes[i].spec_render(), ", "@);
        lemma_brace_free_concat(nodes[i].spec_render() + ", "@, spec_render_args(nodes, i + 1));
    }
}

/// An assignment target all of whose names are free of brace characters.
pub open spec fn lhs_names_ok(lhs: AssignmentLhs) -> bool {
    match lhs {
        AssignmentLhs::Underscore => true,
        AssignmentLhs::Simple(name, postfixes) => brace_free(name@) && postfixes_names_ok(
            postfixes@,
            0,
        ),
    }
}

/// See `lhs_names_ok`.
pub open spec fn postfix_names_ok(p: AssignmentLhsPostfix) -> bool {
    match p {
        AssignmentLhsPostfix::ArrayIndex(index) => node_names_ok(index),
        AssignmentLhsPostfix::Member(field) => brace_free(field@),
    }
}

/// See `lhs_names_ok`: every postfix from index `i` on.
pub open spec fn postfixes_names_ok(postfixes: Seq<AssignmentLhsPostfix>, i: int) -> bool
    decreases postfixes.len() - i,
{
    if i < 0 || i >= postfixes.len() {
        true
    } else {
        postfix_names_ok(postfixes[i]) && postfixes_names_ok(postfixes, i + 1)
    }
}

proof fn lemma_postfix_render_brace_free(p: AssignmentLhsPostfix)
    requires
        postfix_names_ok(p),
    ensures
        brace_free(p.spec_render()),
{
    reveal_strlit("[");
    reveal_strlit("]");
    reveal_strlit(".");
    match p {
        AssignmentLhsPostfix::ArrayIndex(index) => {
            lemma_node_render_brace_free(index);
            lemma_brace_free_concat("["@, index.spec_render());
            lemma_brace_free_concat("["@ + index.spec_render(), "]"@);
        },
        AssignmentLhsPostfix::Member(field) => {
            lemma_brace_free_concat("."@, field@);
        },
    }
}

proof fn lemma_postfixes_render_brace_free(postfixes: Seq<AssignmentLhsPostfix>, i: int)
    requires
        postfixes_names_ok(postfixes, i),
    ensures
        brace_free(spec_render_postfixes(postfixes, i)),
    decreases postfixes.len() - i,
{
    if i < 0 || i >= postfixes.len() {
    } else {
        lemma_postfix_render_brace_free(postfixes[i]);
        lemma_postfixes_render_brace_free(postfixes, i + 1);
        lemma_brace_free_concat(
            postfixes[i].spec_render(),
            spec_render_postfixes(postfixes, i + 1),
        );
    }
}

proof fn lemma_lhs_render_brace_free(lhs: AssignmentLhs)
    requires
        lhs_names_ok(lhs),
    ensures
        brace_free(lhs.spec_render()),
{
    reveal_strlit("_");
    match lhs {
        AssignmentLhs::Underscore => {},
        AssignmentLhs::Simple(name, postfixes) => {
            lemma_postfixes_render_brace_free(postfixes@, 0);
            lemma_brace_free_concat(name@, spec_render_postfixes(postfixes@, 0));
        },
    }
}

/// A statement all of whose names are free of brace characters.
pub open spec fn stmt_names_ok(s: Statement) -> bool
    decreases s, 0int,
{
    match s {
        Statement::LetDecl(name, value) => brace_free(name@) && node_names_ok(value),
        Statement::VarDecl(name, value) => brace_free(name@) && node_names_ok(value),
        Statement::Assignment(lhs, rhs) => lhs_names_ok(lhs) && node_names_ok(rhs),
        Statement::Compound(stmts) => stmts_names_ok(stmts@, 0),
        Statement::If(cond, stmts) => node_names_ok(cond) && stmts_names_ok(stmts@, 0),
    }
}

/// See `stmt_names_ok`: every statement from index `i` on.
pub open spec fn stmts_names_ok(stmts: Seq<Statement>, i: int) -> bool
    decreases stmts, stmts.len() - i,
{
    if i < 0 || i >= stmts.len() {
        true
    } else {
        stmt_names_ok(stmts[i]) && stmts_names_ok(stmts, i + 1)
    }
}

/// Block nesting is balanced for every statement whose names are free of
/// brace characters: its text holds exactly as many block-open markers as
/// block-close markers.
pub proof fn lemma_stmt_render_balanced(s: Statement)
    requires
        stmt_names_ok(s),
    ensures
        count_char(s.spec_render(), '{') == count_char(s.spec_render(), '}'),
    decreases s, 0int,
{
    reveal_strlit("let ");
    reveal_strlit("var ");
    reveal_strlit(" = ");
    reveal_strlit(";");
    reveal_strlit("{\n");
    reveal_strlit("}");
    reveal_strlit("if (");
    reveal_strlit(") {\n");
    match s {
        Statement::LetDecl(name, value) => {
            lemma_node_render_brace_free(value);
            lemma_brace_free_concat("let "@, name@);
            lemma_brace_free_concat("let "@ + name@, " = "@);
            lemma_brace_free_concat("let "@ + name@ + " = "@, value.spec_render());
            lemma_brace_free_concat("let "@ + name@ + " = "@ + value.spec_render(), ";"@);
            lemma_net_brace_free(s.spec_render());
        },
        Statement::VarDecl(name, value) => {
            lemma_node_render_brace_free(value);
            lemma_brace_free_concat("var "@, name@);
            lemma_brace_free_concat("var "@ + name@, " = "@);
            lemma_brace_free_concat("var "@ + name@ + " = "@, value.spec_render());
            lemma_brace_free_concat("var "@ + name@ + " = "@ + value.spec_render(), ";"@);
            lemma_net_brace_free(s.spec_render());
        },
        Statement::Assignment(lhs, rhs) => {
            lemma_lhs_render_brace_free(lhs);
            lemma_node_render_brace_free(rhs);
            lemma_brace_free_concat(lhs.spec_render(), " = "@);
            lemma_brace_free_concat(lhs.spec_render() + " = "@, rhs.spec_render());
            lemma_brace_free_concat(lhs.spec_render() + " = "@ + rhs.spec_render(), ";"@);
            lemma_net_brace_free(s.spec_render());
        },
        Statement::Compound(stmts) => {
            lemma_block_render_balanced(stmts@, 0);
            lemma_count_pair('{', '\n', '{');
            lemma_count_pair('{', '\n', '}');
            lemma_count_one('}', '{');
            lemma_count_one('}', '}');
            assert("{\n"@ =~= seq!['{', '\n']);
            assert("}"@ =~= seq!['}']);
            lemma_net_concat("{\n"@, spec_render_block(stmts@, 0));
            lemma_net_concat("{\n"@ + spec_render_block(stmts@, 0), "}"@);
        },
        Statement::If(cond, stmts) => {
            lemma_node_render_brace_free(cond);
            lemma_block_render_balanced(stmts@, 0);
            lemma_brace_free_concat("if ("@, cond.spec_render());
            lemma_net_brace_free("if ("@ + cond.spec_render());
            lemma_count_quad(')', ' ', '{', '\n', '{');
            lemma_count_quad(')', ' ', '{', '\n', '}');
            lemma_count_one('}', '{');
            lemma_count_one('}', '}');
            assert(") {\n"@ =~= seq![')', ' ', '{', '\n']);
            assert("}"@ =~= seq!['}']);
            lemma_net_concat("if ("@ + cond.spec_render(), ") {\n"@);
            lemma_net_concat(
                "if ("@ + cond.spec_render() + ") {\n"@,
                spec_render_block(stmts@, 0),
            );
            lemma_net_concat(
                "if ("@ + cond.spec_render() + ") {\n"@ + spec_render_block(stmts@, 0),
                "}"@,
            );
        },
    }
}

/// Block nesting is balanced for every block body whose names are free of
/// brace characters.
pub proof fn lemma_block_render_balanced(stmts: Seq<Statement>, i: int)
    requires
        stmts_names_ok(stmts, i),
    ensures
        count_char(spec_render_block(stmts, i), '{') == count_char(
            spec_render_block(stmts, i),
            '}',
        ),
    decreases stmts, stmts.len() - i,
{
    if i < 0 || i >= stmts.len() {
    } else {
        lemma_stmt_render_balanced(stmts[i]);
        lemma_net_indent(stmts[i].spec_render());
        lemma_block_render_balanced(stmts, i + 1);
        lemma_count_one('\n', '{');
        lemma_count_one('\n', '}');
        lemma_net_concat(indent_text(stmts[i].spec_render()), seq!['\n']);
        lemma_net_concat(
            indent_text(stmts[i].spec_render()) + seq!['\n'],
            spec_render_block(stmts, i + 1),
        );
    }
}

/// Every non-empty line of a rendered block body begins with four spaces:
/// each statement of a block is printed one indentation level deeper than
/// the block's own indentation, however deeply blocks nest.
pub proof fn lemma_block_lines_indented(stmts: Seq<Statement>, i: int, j: int)
    requires
        line_start(spec_render_block(stmts, i), j),
        spec_render_block(stmts, i)[j] != '\n',
    ensures
        j + 4 <= spec_render_block(stmts, i).len(),
        spec_render_block(stmts, i)[j] == ' ',
        spec_render_block(stmts, i)[j + 1] == ' ',
        spec_render_block(stmts, i)[j + 2] == ' ',
        spec_render_block(stmts, i)[j + 3] == ' ',
    decreases stmts.len() - i,
{
    let t = spec_render_block(stmts, i);
    if i < 0 || i >= stmts.len() {
    } else {
        let piece = indent_text(stmts[i].spec_render());
        let rest = spec_render_block(stmts, i + 1);
        assert(t == piece + seq!['\n'] + rest);
        if j < piece.len() {
            assert(t[j] == piece[j]);
            if j > 0 {
                assert(t[j - 1] == piece[j - 1]);
            }
            lemma_indent_text_line_prefix(stmts[i].spec_render(), j);
            assert(t[j + 1] == piece[j + 1]);
            assert(t[j + 2] == piece[j + 2]);
            assert(t[j + 3] == piece[j + 3]);
        } else if j == piece.len() {
            assert(t[j] == '\n');
        } else {
            let k = j - piece.len() - 1;
            assert(t[j] == rest[k]);
            if k > 0 {
                assert(t[j - 1] == rest[k - 1]);
            }
            lemma_block_lines_indented(stmts, i + 1, k);
            assert(t[j + 1] == rest[k + 1]);
            assert(t[j + 2] == rest[k + 2]);
            assert(t[j + 3] == rest[k + 3]);
        }
    }
}

/// A function parameter whose names are free of brace characters.
pub open spec fn input_names_ok(p: FnInput) -> bool {
    brace_free(p.name@) && type_names_ok(p.data_type)
}

/// See `input_names_ok`: every parameter from index `i` on.
pub open spec fn inputs_names_ok(inputs: Seq<FnInput>, i: int) -> bool
    decreases inputs.len() - i,
{
    if i < 0 || i >= inputs.len() {
        true
    } else {
        input_names_ok(inputs[i]) && inputs_names_ok(inputs, i + 1)
    }
}

/// A function declaration all of whose names are free of brace characters.
pub open spec fn fn_names_ok(f: FnDecl) -> bool {
    &&& brace_free(f.name@)
    &&& inputs_names_ok(f.inputs@, 0)
    &&& match f.output {
        Some(output) => type_names_ok(output.data_type),
        None => true,
    }
    &&& stmts_names_ok(f.body@, 0)
}

/// A struct member whose names are free of brace characters.
pub open spec fn member_names_ok(m: StructMember) -> bool {
    brace_free(m.name@) && type_names_ok(m.data_type)
}

/// See `member_names_ok`: every member from index `i` on.
pub open spec fn members_names_ok(members: Seq<StructMember>, i: int) -> bool
    decreases members.len() - i,
{
    if i < 0 || i >= members.len() {
        true
    } else {
        member_names_ok(members[i]) && members_names_ok(members, i + 1)
    }
}

/// A struct declaration all of whose names are free of brace characters.
pub open spec fn struct_names_ok(s: StructDecl) -> bool {
    brace_free(s.name@) && members_names_ok(s.members@, 0)
}

/// See `struct_names_ok`: every declaration from index `i` on.
pub open spec fn structs_names_ok(structs: Seq<StructDecl>, i: int) -> bool
    decreases structs.len() - i,
{
    if i < 0 || i >= structs.len() {
        true
    } else {
        struct_names_ok(structs[i]) && structs_names_ok(structs, i + 1)
    }
}

/// A global-variable declaration all of whose names are free of brace
/// characters.
pub open spec fn global_names_ok(g: GlobalVarDecl) -> bool {
    &&& brace_free(g.name@)
    &&& type_names_ok(g.data_type)
    &&& match g.initializer {
        Some(init) => node_names_ok(init),
        None => true,
    }
}

/// See `global_names_ok`: every declaration from index `i` on.
pub open spec fn globals_names_ok(vars: Seq<GlobalVarDecl>, i: int) -> bool
    decreases vars.len() - i,
{
    if i < 0 || i >= vars.len() {
        true
    } else {
        global_names_ok(vars[i]) && globals_names_ok(vars, i + 1)
    }
}

/// A module all of whose names are free of brace characters.
pub open spec fn module_names_ok(m: Module) -> bool {
    structs_names_ok(m.structs@, 0) && globals_names_ok(m.vars@, 0) && fn_names_ok(m.entrypoint)
}

proof fn lemma_fn_attr_render_brace_free(a: FnAttr)
    ensures
        brace_free(a.spec_render()),
{
    reveal_strlit("stage(");
    reveal_strlit("workgroup_size(");
    reveal_strlit(")");
    reveal_strlit("compute");
    reveal_strlit("vertex");
    reveal_strlit("fragment");
    match a {
        FnAttr::Stage(stage) => {
            lemma_brace_free_concat("stage("@, stage.spec_render());
            lemma_brace_free_concat("stage("@ + stage.spec_render(), ")"@);
        },
        FnAttr::WorkgroupSize(size) => {
            lemma_dec_str_brace_free(size as int);
            lemma_brace_free_concat("workgroup_size("@, dec_str(size as int));
            lemma_brace_free_concat("workgroup_size("@ + dec_str(size as int), ")"@);
        },
    }
}

proof fn lemma_global_attr_render_brace_free(a: GlobalVarAttr)
    ensures
        brace_free(a.spec_render()),
{
    reveal_strlit("binding(");
    reveal_strlit("group(");
    reveal_strlit(")");
    match a {
        GlobalVarAttr::Binding(v) => {
            lemma_int_str_brace_free(v as int);
            lemma_brace_free_concat("binding("@, int_str(v as int));
            lemma_brace_free_concat("binding("@ + int_str(v as int), ")"@);
        },
        GlobalVarAttr::Group(v) => {
            lemma_int_str_brace_free(v as int);
            lemma_brace_free_concat("group("@, int_str(v as int));
            lemma_brace_free_concat("group("@ + int_str(v as int), ")"@);
        },
    }
}

proof fn lemma_attrs_render_brace_free<T: Attribute>(attrs: Seq<T>, i: int)
    requires
        forall|j: int| 0 <= j < attrs.len() ==> brace_free(#[trigger] attrs[j].spec_render()),
    ensures
        brace_free(spec_render_attrs(attrs, i)),
    decreases attrs.len() - i,
{
    reveal_strlit(", ");
    if i < 0 || i >= attrs.len() {
    } else if i + 1 == attrs.len() {
    } else {
        lemma_attrs_render_brace_free(attrs, i + 1);
        lemma_brace_free_concat(attrs[i].spec_render(), ", "@);
        lemma_brace_free_concat(attrs[i].spec_render() + ", "@, spec_render_attrs(attrs, i + 1));
    }
}

proof fn lemma_attr_list_render_brace_free<T: Attribute>(attrs: AttrList<T>)
    requires
        forall|j: int| 0 <= j < attrs.0@.len() ==> brace_free(#[trigger] attrs.0@[j].spec_render()),
    ensures
        brace_free(attrs.spec_render()),
{
    reveal_strlit("[[");
    reveal_strlit("]]");
    if attrs.0@.len() > 0 {
        lemma_attrs_render_brace_free(attrs.0@, 0);
        lemma_brace_free_concat("[["@, spec_render_attrs(attrs.0@, 0));
        lemma_brace_free_concat("[["@ + spec_render_attrs(attrs.0@, 0), "]]"@);
    }
}

proof fn lemma_input_render_brace_free(p: FnInput)
    requires
        input_names_ok(p),
    ensures
        brace_free(p.spec_render()),
{
    reveal_strlit(": ");
    lemma_type_render_brace_free(p.data_type);
    lemma_brace_free_concat(p.name@, ": "@);
    lemma_brace_free_concat(p.name@ + ": "@, p.data_type.spec_render());
}

proof fn lemma_inputs_render_brace_free(inputs: Seq<FnInput>, i: int)
    requires
        inputs_names_ok(inputs, i),
    ensures
        brace_free(spec_render_inputs(inputs, i)),
    decreases inputs.len() - i,
{
    reveal_strlit(", ");
    if i < 0 || i >= inputs.len() {
    } else if i + 1 == inputs.len() {
        lemma_input_render_brace_free(inputs[i]);
    } else {
        lemma_input_render_brace_free(inputs[i]);
        lemma_inputs_render_brace_free(inputs, i + 1);
        lemma_brace_free_concat(inputs[i].spec_render(), ", "@);
        lemma_brace_free_concat(inputs[i].spec_render() + ", "@, spec_render_inputs(inputs, i + 1));
    }
}

/// Block nesting is balanced for every function declaration whose names
/// are free of brace characters.
pub proof fn lemma_fn_render_balanced(f: FnDecl)
    requires
        fn_names_ok(f),
    ensures
        count_char(f.spec_render(), '{') == count_char(f.spec_render(), '}'),
{
    reveal_strlit("\n");
    reveal_strlit("fn ");
    reveal_strlit("(");
    reveal_strlit(") ");
    reveal_strlit("-> ");
    reveal_strlit(" ");
    reveal_strlit("{\n");
    reveal_strlit("}\n");
    assert forall|j: int| 0 <= j < f.attrs.0@.len() implies brace_free(
        #[trigger] f.attrs.0@[j].spec_render(),
    ) by {
        lemma_fn_attr_render_brace_free(f.attrs.0@[j]);
    }
    lemma_attr_list_render_brace_free(f.attrs);
    lemma_inputs_render_brace_free(f.inputs@, 0);
    let opt = match f.output {
        Some(output) => "-> "@ + output.spec_render() + " "@,
        None => Seq::<char>::empty(),
    };
    match f.output {
        Some(output) => {
            lemma_type_render_brace_free(output.data_type);
            lemma_brace_free_concat("-> "@, output.spec_render());
            lemma_brace_free_concat("-> "@ + output.spec_render(), " "@);
        },
        None => {},
    }
    let head = f.attrs.spec_render() + "\n"@ + "fn "@ + f.name@ + "("@ + spec_render_inputs(
        f.inputs@,
        0,
    ) + ") "@ + opt;
    lemma_brace_free_concat(f.attrs.spec_render(), "\n"@);
    lemma_brace_free_concat(f.attrs.spec_render() + "\n"@, "fn "@);
    lemma_brace_free_concat(f.attrs.spec_render() + "\n"@ + "fn "@, f.name@);
    lemma_brace_free_concat(f.attrs.spec_render() + "\n"@ + "fn "@ + f.name@, "("@);
    lemma_brace_free_concat(
        f.attrs.spec_render() + "\n"@ + "fn "@ + f.name@ + "("@,
        spec_render_inputs(f.inputs@, 0),
    );
    lemma_brace_free_concat(
        f.attrs.spec_render() + "\n"@ + "fn "@ + f.name@ + "("@ + spec_render_inputs(f.inputs@, 0),
        ") "@,
    );
    lemma_brace_free_concat(
        f.attrs.spec_render() + "\n"@ + "fn "@ + f.name@ + "("@ + spec_render_inputs(f.inputs@, 0)
            + ") "@,
        opt,
    );
    lemma_net_brace_free(head);
    lemma_block_render_balanced(f.body@, 0);
    lemma_count_pair('{', '\n', '{');
    lemma_count_pair('{', '\n', '}');
    lemma_count_pair('}', '\n', '{');
    lemma_count_pair('}', '\n', '}');
    assert("{\n"@ =~= seq!['{', '\n']);
    assert("}\n"@ =~= seq!['}', '\n']);
    lemma_net_concat(head, "{\n"@);
    lemma_net_concat(head + "{\n"@, spec_render_block(f.body@, 0));
    lemma_net_concat(head + "{\n"@ + spec_render_block(f.body@, 0), "}\n"@);
}

proof fn lemma_member_render_brace_free(m: StructMember)
    requires
        member_names_ok(m),
    ensures
        brace_free(m.spec_render()),
{
    reveal_strlit(": ");
    reveal_strlit(";");
    lemma_type_render_brace_free(m.data_type);
    lemma_brace_free_concat(m.name@, ": "@);
    lemma_brace_free_concat(m.name@ + ": "@, m.data_type.spec_render());
    lemma_brace_free_concat(m.name@ + ": "@ + m.data_type.spec_render(), ";"@);
}

proof fn lemma_members_render_no_braces(members: Seq<StructMember>, i: int)
    requires
        members_names_ok(members, i),
    ensures
        count_char(spec_render_members(members, i), '{') == 0,
        count_char(spec_render_members(members, i), '}') == 0,
    decreases members.len() - i,
{
    if i < 0 || i >= members.len() {
    } else {
        lemma_member_render_brace_free(members[i]);
        lemma_count_brace_free(members[i].spec_render(), '{');
        lemma_count_brace_free(members[i].spec_render(), '}');
        lemma_net_indent(members[i].spec_render());
        lemma_members_render_no_braces(members, i + 1);
        lemma_count_one('\n', '{');
        lemma_count_one('\n', '}');
        lemma_net_concat(indent_text(members[i].spec_render()), seq!['\n']);
        lemma_net_concat(
            indent_text(members[i].spec_render()) + seq!['\n'],
            spec_render_members(members, i + 1),
        );
    }
}

/// Block nesting is balanced for every struct declaration whose names are
/// free of brace characters.
pub proof fn lemma_struct_render_balanced(s: StructDecl)
    requires
        struct_names_ok(s),
    ensures
        count_char(s.spec_render(), '{') == count_char(s.spec_render(), '}'),
{
    reveal_strlit("struct ");
    reveal_strlit(" {\n");
    reveal_strlit("};\n");
    lemma_brace_free_concat("struct "@, s.name@);
    lemma_net_brace_free("struct "@ + s.name@);
    lemma_members_render_no_braces(s.members@, 0);
    lemma_count_triple(' ', '{', '\n', '{');
    lemma_count_triple(' ', '{', '\n', '}');
    lemma_count_triple('}', ';', '\n', '{');
    lemma_count_triple('}', ';', '\n', '}');
    assert(" {\n"@ =~= seq![' ', '{', '\n']);
    assert("};\n"@ =~= seq!['}', ';', '\n']);
    lemma_net_concat("struct "@ + s.name@, " {\n"@);
    lemma_net_concat("struct "@ + s.name@ + " {\n"@, spec_render_members(s.members@, 0));
    lemma_net_concat(
        "struct "@ + s.name@ + " {\n"@ + spec_render_members(s.members@, 0),
        "};\n"@,
    );
}

proof fn lemma_global_render_brace_free(g: GlobalVarDecl)
    requires
        global_names_ok(g),
    ensures
        brace_free(g.spec_render()),
{
    reveal_strlit("\n");
    reveal_strlit("var");
    reveal_strlit("<");
    reveal_strlit(", ");
    reveal_strlit(">");
    reveal_strlit(" ");
    reveal_strlit(": ");
    reveal_strlit(" = ");
    reveal_strlit(";\n");
    reveal_strlit("function");
    reveal_strlit("private");
    reveal_strlit("workgroup");
    reveal_strlit("uniform");
    reveal_strlit("storage");
    reveal_strlit("read");
    reveal_strlit("write");
    reveal_strlit("read_write");
    assert forall|j: int| 0 <= j < g.attrs.0@.len() implies brace_free(
        #[trigger] g.attrs.0@[j].spec_render(),
    ) by {
        lemma_global_attr_render_brace_free(g.attrs.0@[j]);
    }
    lemma_attr_list_render_brace_free(g.attrs);
    let qual = match g.qualifier {
        Some(qualifier) => "<"@ + qualifier.storage_class.spec_render() + (
        match qualifier.access_mode {
            Some(mode) => ", "@ + mode.spec_render(),
            None => Seq::<char>::empty(),
        }) + ">"@,
        None => Seq::<char>::empty(),
    };
    match g.qualifier {
        Some(qualifier) => {
            let acc = match qualifier.access_mode {
                Some(mode) => ", "@ + mode.spec_render(),
                None => Seq::<char>::empty(),
            };
            match qualifier.access_mode {
                Some(mode) => {
                    lemma_brace_free_concat(", "@, mode.spec_render());
                },
                None => {},
            }
            lemma_brace_free_concat("<"@, qualifier.storage_class.spec_render());
            lemma_brace_free_concat("<"@ + qualifier.storage_class.spec_render(), acc);
            lemma_brace_free_concat("<"@ + qualifier.storage_class.spec_render() + acc, ">"@);
        },
        None => {},
    }
    let init = match g.initializer {
        Some(init) => " = "@ + init.spec_render(),
        None => Seq::<char>::empty(),
    };
    match g.initializer {
        Some(node) => {
            lemma_node_render_brace_free(node);
            lemma_brace_free_concat(" = "@, node.spec_render());
        },
        None => {},
    }
    lemma_type_render_brace_free(g.data_type);
    lemma_brace_free_concat(g.attrs.spec_render(), "\n"@);
    lemma_brace_free_concat(g.attrs.spec_render() + "\n"@, "var"@);
    lemma_brace_free_concat(g.attrs.spec_render() + "\n"@ + "var"@, qual);
    lemma_brace_free_concat(g.attrs.spec_render() + "\n"@ + "var"@ + qual, " "@);
    lemma_brace_free_concat(g.attrs.spec_render() + "\n"@ + "var"@ + qual + " "@, g.name@);
    lemma_brace_free_concat(
        g.attrs.spec_render() + "\n"@ + "var"@ + qual + " "@ + g.name@,
        ": "@,
    );
    lemma_brace_free_concat(
        g.attrs.spec_render() + "\n"@ + "var"@ + qual + " "@ + g.name@ + ": "@,
        g.data_type.spec_render(),
    );
    lemma_brace_free_concat(
        g.attrs.spec_render() + "\n"@ + "var"@ + qual + " "@ + g.name@ + ": "@
            + g.data_type.spec_render(),
        init,
    );
    lemma_brace_free_concat(
        g.attrs.spec_render() + "\n"@ + "var"@ + qual + " "@ + g.name@ + ": "@
            + g.data_type.spec_render() + init,
        ";\n"@,
    );
}

proof fn lemma_structs_render_balanced(structs: Seq<StructDecl>, i: int)
    requires
        structs_names_ok(structs, i),
    ensures
        count_char(spec_render_structs(structs, i), '{') == count_char(
            spec_render_structs(structs, i),
            '}',
        ),
    decreases structs.len() - i,
{
    reveal_strlit("\n");
    if i < 0 || i >= structs.len() {
    } else {
        lemma_struct_render_balanced(structs[i]);
        lemma_structs_render_balanced(structs, i + 1);
        lemma_count_one('\n', '{');
        lemma_count_one('\n', '}');
        assert("\n"@ =~= seq!['\n']);
        lemma_net_concat(structs[i].spec_render(), "\n"@);
        lemma_net_concat(structs[i].spec_render() + "\n"@, spec_render_structs(structs, i + 1));
    }
}

proof fn lemma_globals_render_no_braces(vars: Seq<GlobalVarDecl>, i: int)
    requires
        globals_names_ok(vars, i),
    ensures
        count_char(spec_render_globals(vars, i), '{') == 0,
        count_char(spec_render_globals(vars, i), '}') == 0,
    decreases vars.len() - i,
{
    reveal_strlit("\n");
    if i < 0 || i >= vars.len() {
    } else {
        lemma_global_render_brace_free(vars[i]);
        lemma_count_brace_free(vars[i].spec_render(), '{');
        lemma_count_brace_free(vars[i].spec_render(), '}');
        lemma_globals_render_no_braces(vars, i + 1);
        lemma_count_one('\n', '{');
        lemma_count_one('\n', '}');
        assert("\n"@ =~= seq!['\n']);
        lemma_net_concat(vars[i].spec_render(), "\n"@);
        lemma_net_concat(vars[i].spec_render() + "\n"@, spec_render_globals(vars, i + 1));
    }
}

/// Block nesting is balanced for every module whose names are free of
/// brace characters: the printed text holds exactly as many block-open
/// markers as block-close markers.
pub proof fn lemma_module_render_balanced(m: Module)
    requires
        module_names_ok(m),
    ensures
        count_char(m.spec_render(), '{') == count_char(m.spec_render(), '}'),
{
    lemma_structs_render_balanced(m.structs@, 0);
    lemma_globals_render_no_braces(m.vars@, 0);
    lemma_fn_render_balanced(m.entrypoint);
    lemma_net_concat(spec_render_structs(m.structs@, 0), spec_render_globals(m.vars@, 0));
    lemma_net_concat(
        spec_render_structs(m.structs@, 0) + spec_render_globals(m.vars@, 0),
        m.entrypoint.spec_render(),
    );
}

/// The count of a three-character sequence.
proof fn lemma_count_triple(x: char, y: char, z: char, c: char)
    ensures
        count_char(seq![x, y, z], c) == (if x == c {
            1int
        } else {
            0int
        }) + (if y == c {
            1int
        } else {
            0int
        }) + (if z == c {
            1int
        } else {
            0int
        }),
{
    reveal_with_fuel(count_char, 4);
    assert(seq![x, y, z].skip(1) =~= seq![y, z]);
    assert(seq![y, z].skip(1) =~= seq![z]);
    assert(seq![z].skip(1) =~= Seq::<char>::empty());
}

/// The count of a two-character sequence.
proof fn lemma_count_pair(x: char, y: char, c: char)
    ensures
        count_char(seq![x, y], c) == (if x == c {
            1int
        } else {
            0int
        }) + (if y == c {
            1int
        } else {
            0int
        }),
{
    reveal_with_fuel(count_char, 3);
    assert(seq![x, y].skip(1) =~= seq![y]);
    assert(seq![y].skip(1) =~= Seq::<char>::empty());
}

/// The count of a four-character sequence.
proof fn lemma_count_quad(x: char, y: char, z: char, w: char, c: char)
    ensures
        count_char(seq![x, y, z, w], c) == (if x == c {
            1int
        } else {
            0int
        }) + (if y == c {
            1int
        } else {
            0int
        }) + (if z == c {
            1int
        } else {
            0int
        }) + (if w == c {
            1int
        } else {
            0int
        }),
{
    reveal_with_fuel(count_char, 5);
    assert(seq![x, y, z, w].skip(1) =~= seq![y, z, w]);
    assert(seq![y, z, w].skip(1) =~= seq![z, w]);
    assert(seq![z, w].skip(1) =~= seq![w]);
    assert(seq![w].skip(1) =~= Seq::<char>::empty());
}

} // verus!
