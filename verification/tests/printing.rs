use ast::{
    AccessMode, AssignmentLhs, AssignmentLhsPostfix, AttrList, BinOp, DataType, Expr,
    ExprNode, FnAttr, FnDecl, FnInput, FnOutput, GlobalVarAttr, GlobalVarDecl, Lit, Module,
    ScalarType, ShaderStage, Statement, StorageClass, StructDecl, StructMember, UnOp,
    VarQualifier,
};

fn int_node(v: i32) -> ExprNode {
    ExprNode {
        data_type: DataType::Scalar(ScalarType::I32),
        expr: Expr::Lit(Lit::Int(v)),
    }
}

fn bool_node(v: bool) -> ExprNode {
    ExprNode {
        data_type: DataType::Scalar(ScalarType::Bool),
        expr: Expr::Lit(Lit::Bool(v)),
    }
}

fn var_node(name: &str, t: DataType) -> ExprNode {
    ExprNode {
        data_type: t,
        expr: Expr::Var(name.to_string()),
    }
}

#[test]
fn uint_literal_prints_with_suffix() {
    assert_eq!(Lit::UInt(5).render(), "5u");
}

#[test]
fn int_and_bool_literals_print_plainly() {
    assert_eq!(Lit::Int(1).render(), "1");
    assert_eq!(Lit::Int(0).render(), "0");
    assert_eq!(Lit::Int(-7).render(), "-7");
    assert_eq!(Lit::Int(i32::MIN).render(), "-2147483648");
    assert_eq!(Lit::Int(i32::MAX).render(), "2147483647");
    assert_eq!(Lit::UInt(u32::MAX).render(), "4294967295u");
    assert_eq!(Lit::UInt(0).render(), "0u");
    assert_eq!(Lit::Bool(true).render(), "true");
    assert_eq!(Lit::Bool(false).render(), "false");
}

#[test]
fn binop_parenthesizes_both_operands() {
    let a = var_node("a", DataType::Scalar(ScalarType::I32));
    let b = var_node("b", DataType::Scalar(ScalarType::I32));
    let e = Expr::BinOp(BinOp::Plus, Box::new(a), Box::new(b));
    assert_eq!(e.render(), "(a) + (b)");
}

#[test]
fn unop_always_parenthesizes() {
    let x = var_node("x", DataType::Scalar(ScalarType::Bool));
    let e = Expr::UnOp(UnOp::Not, Box::new(x));
    assert_eq!(e.render(), "!(x)");
}

#[test]
fn nested_binop_parenthesization() {
    let a = var_node("a", DataType::Scalar(ScalarType::I32));
    let b = var_node("b", DataType::Scalar(ScalarType::I32));
    let sum = ExprNode {
        data_type: DataType::Scalar(ScalarType::I32),
        expr: Expr::BinOp(BinOp::Plus, Box::new(a), Box::new(b)),
    };
    let e = Expr::BinOp(BinOp::Times, Box::new(sum), Box::new(int_node(2)));
    assert_eq!(e.render(), "((a) + (b)) * (2)");
}

#[test]
fn vector_type_renders_with_component_count() {
    assert_eq!(
        DataType::Vector(4, ScalarType::U32).render(),
        "vec4<u32>"
    );
    assert_eq!(DataType::Scalar(ScalarType::Bool).render(), "bool");
    assert_eq!(DataType::User("Light".to_string()).render(), "Light");
}

#[test]
fn type_constructor_renders_comma_separated_args() {
    let e = Expr::TypeCons(
        DataType::Vector(2, ScalarType::I32),
        vec![int_node(1), int_node(2)],
    );
    assert_eq!(e.render(), "vec2<i32>(1, 2)");
}

#[test]
fn type_constructor_with_no_args() {
    let e = Expr::TypeCons(DataType::Vector(2, ScalarType::I32), vec![]);
    assert_eq!(e.render(), "vec2<i32>()");
}

#[test]
fn compound_statement_indents_inner_line() {
    let s = Statement::Compound(vec![Statement::LetDecl("y".to_string(), int_node(1))]);
    assert_eq!(s.render(), "{\n    let y = 1;\n}");
}

#[test]
fn if_statement_indents_body() {
    let cond = var_node("flag", DataType::Scalar(ScalarType::Bool));
    let s = Statement::If(
        cond,
        vec![Statement::Assignment(AssignmentLhs::Underscore, bool_node(true))],
    );
    assert_eq!(s.render(), "if (flag) {\n    _ = true;\n}");
}

#[test]
fn nested_compound_indents_one_level_per_depth() {
    let inner = Statement::Compound(vec![Statement::VarDecl("x".to_string(), int_node(0))]);
    let outer = Statement::Compound(vec![inner]);
    let text = outer.render();
    assert_eq!(text, "{\n    {\n        var x = 0;\n    }\n}");
    let opens = text.chars().filter(|c| *c == '{').count();
    let closes = text.chars().filter(|c| *c == '}').count();
    assert_eq!(opens, closes);
}

#[test]
fn assignment_target_postfixes_render_in_order() {
    let lhs = AssignmentLhs::Simple(
        "arr".to_string(),
        vec![
            AssignmentLhsPostfix::ArrayIndex(int_node(0)),
            AssignmentLhsPostfix::Member("x".to_string()),
        ],
    );
    let s = Statement::Assignment(lhs, int_node(1));
    assert_eq!(s.render(), "arr[0].x = 1;");
}

#[test]
fn empty_attribute_list_renders_as_nothing() {
    let attrs: AttrList<FnAttr> = AttrList(vec![]);
    assert_eq!(attrs.render(), "");
}

#[test]
fn attribute_list_renders_double_bracketed() {
    let attrs = AttrList(vec![
        FnAttr::Stage(ShaderStage::Compute),
        FnAttr::WorkgroupSize(16),
    ]);
    assert_eq!(attrs.render(), "[[stage(compute), workgroup_size(16)]]");
}

#[test]
fn global_var_attributes_render() {
    let attrs = AttrList(vec![GlobalVarAttr::Group(0), GlobalVarAttr::Binding(2)]);
    assert_eq!(attrs.render(), "[[group(0), binding(2)]]");
}

#[test]
fn global_var_with_qualifier_and_empty_attr_line() {
    let g = GlobalVarDecl {
        attrs: AttrList(vec![]),
        qualifier: Some(VarQualifier {
            storage_class: StorageClass::Uniform,
            access_mode: None,
        }),
        name: "u".to_string(),
        data_type: DataType::User("T".to_string()),
        initializer: None,
    };
    assert_eq!(g.render(), "\nvar<uniform> u: T;\n");
}

#[test]
fn global_var_with_access_mode_and_initializer() {
    let g = GlobalVarDecl {
        attrs: AttrList(vec![GlobalVarAttr::Binding(1)]),
        qualifier: Some(VarQualifier {
            storage_class: StorageClass::Storage,
            access_mode: Some(AccessMode::ReadWrite),
        }),
        name: "buf".to_string(),
        data_type: DataType::Scalar(ScalarType::U32),
        initializer: Some(ExprNode {
            data_type: DataType::Scalar(ScalarType::U32),
            expr: Expr::Lit(Lit::UInt(0)),
        }),
    };
    assert_eq!(
        g.render(),
        "[[binding(1)]]\nvar<storage, read_write> buf: u32 = 0u;\n"
    );
}

#[test]
fn storage_class_and_access_mode_keywords() {
    assert_eq!(StorageClass::Function.render(), "function");
    assert_eq!(StorageClass::Private.render(), "private");
    assert_eq!(StorageClass::WorkGroup.render(), "workgroup");
    assert_eq!(StorageClass::Uniform.render(), "uniform");
    assert_eq!(StorageClass::Storage.render(), "storage");
    assert_eq!(AccessMode::Read.render(), "read");
    assert_eq!(AccessMode::Write.render(), "write");
    assert_eq!(AccessMode::ReadWrite.render(), "read_write");
}

#[test]
fn struct_decl_renders_members_indented() {
    let s = StructDecl {
        name: "S".to_string(),
        members: vec![
            StructMember {
                name: "a".to_string(),
                data_type: DataType::Scalar(ScalarType::I32),
            },
            StructMember {
                name: "b".to_string(),
                data_type: DataType::Vector(2, ScalarType::U32),
            },
        ],
    };
    assert_eq!(s.render(), "struct S {\n    a: i32;\n    b: vec2<u32>;\n};\n");
}

fn entry_point() -> FnDecl {
    FnDecl {
        attrs: AttrList(vec![FnAttr::Stage(ShaderStage::Compute)]),
        name: "main".to_string(),
        inputs: vec![],
        output: None,
        body: vec![Statement::LetDecl("y".to_string(), int_node(1))],
    }
}

#[test]
fn fn_decl_renders_attrs_params_and_body() {
    let f = FnDecl {
        attrs: AttrList(vec![
            FnAttr::Stage(ShaderStage::Fragment),
        ]),
        name: "shade".to_string(),
        inputs: vec![
            FnInput {
                attrs: AttrList(vec![]),
                name: "a".to_string(),
                data_type: DataType::Scalar(ScalarType::I32),
            },
            FnInput {
                attrs: AttrList(vec![]),
                name: "b".to_string(),
                data_type: DataType::Vector(3, ScalarType::U32),
            },
        ],
        output: Some(FnOutput {
            attrs: AttrList(vec![]),
            data_type: DataType::Scalar(ScalarType::I32),
        }),
        body: vec![Statement::VarDecl("x".to_string(), int_node(2))],
    };
    assert_eq!(
        f.render(),
        "[[stage(fragment)]]\nfn shade(a: i32, b: vec3<u32>) -> i32 {\n    var x = 2;\n}\n"
    );
}

#[test]
fn fn_decl_without_output_or_params() {
    assert_eq!(
        entry_point().render(),
        "[[stage(compute)]]\nfn main() {\n    let y = 1;\n}\n"
    );
}

#[test]
fn module_renders_structs_globals_and_entry_point_only() {
    let helper = FnDecl {
        attrs: AttrList(vec![]),
        name: "helper".to_string(),
        inputs: vec![],
        output: None,
        body: vec![],
    };
    let m = Module {
        structs: vec![StructDecl {
            name: "S".to_string(),
            members: vec![StructMember {
                name: "a".to_string(),
                data_type: DataType::Scalar(ScalarType::I32),
            }],
        }],
        vars: vec![GlobalVarDecl {
            attrs: AttrList(vec![]),
            qualifier: Some(VarQualifier {
                storage_class: StorageClass::Uniform,
                access_mode: None,
            }),
            name: "u".to_string(),
            data_type: DataType::User("S".to_string()),
            initializer: None,
        }],
        functions: vec![helper],
        entrypoint: entry_point(),
    };
    let text = m.render();
    assert_eq!(
        text,
        "struct S {\n    a: i32;\n};\n\n\nvar<uniform> u: S;\n\n[[stage(compute)]]\nfn main() {\n    let y = 1;\n}\n"
    );
    assert!(!text.contains("helper"));
}

#[test]
fn printing_is_deterministic() {
    let m = Module {
        structs: vec![],
        vars: vec![],
        functions: vec![],
        entrypoint: entry_point(),
    };
    assert_eq!(m.render(), m.render());
}

#[test]
fn into_compount_statement_returns_inner_list() {
    let inner = vec![
        Statement::LetDecl("a".to_string(), int_node(1)),
        Statement::VarDecl("b".to_string(), int_node(2)),
    ];
    let expected = vec![
        Statement::LetDecl("a".to_string(), int_node(1)),
        Statement::VarDecl("b".to_string(), int_node(2)),
    ];
    let s = Statement::Compound(inner);
    assert_eq!(s.into_compount_statement(), expected);
}

#[test]
fn operator_symbols_render() {
    assert_eq!(UnOp::Neg.render(), "-");
    assert_eq!(UnOp::Not.render(), "!");
    assert_eq!(UnOp::BitNot.render(), "~");
    assert_eq!(BinOp::LogAnd.render(), "&&");
    assert_eq!(BinOp::LogOr.render(), "||");
    assert_eq!(BinOp::LShift.render(), "<<");
    assert_eq!(BinOp::RShift.render(), ">>");
    assert_eq!(BinOp::Equal.render(), "==");
    assert_eq!(BinOp::NotEqual.render(), "!=");
    assert_eq!(BinOp::LessEqual.render(), "<=");
    assert_eq!(BinOp::GreaterEqual.render(), ">=");
    assert_eq!(BinOp::Mod.render(), "%");
    assert_eq!(BinOp::BitXOr.render(), "^");
}
