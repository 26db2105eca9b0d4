use ast::{BinOp, DataType, ScalarType, UnOp};

fn types() -> Vec<DataType> {
    vec![
        DataType::Scalar(ScalarType::Bool),
        DataType::Scalar(ScalarType::I32),
        DataType::Scalar(ScalarType::U32),
        DataType::Vector(2, ScalarType::I32),
        DataType::Vector(3, ScalarType::U32),
        DataType::Vector(4, ScalarType::Bool),
        DataType::User("S".to_string()),
    ]
}

#[test]
fn unary_preserves_operand_type() {
    for op in [UnOp::Neg, UnOp::Not, UnOp::BitNot] {
        for t in types() {
            assert_eq!(op.type_eval(&t), t);
        }
    }
}

#[test]
fn arithmetic_and_bitwise_return_left_type() {
    let ops = [
        BinOp::Plus,
        BinOp::Minus,
        BinOp::Times,
        BinOp::Divide,
        BinOp::Mod,
        BinOp::BitAnd,
        BinOp::BitOr,
        BinOp::BitXOr,
        BinOp::LShift,
        BinOp::RShift,
    ];
    for op in ops {
        for l in types() {
            for r in types() {
                assert_eq!(op.type_eval(&l, &r), l);
            }
        }
    }
}

#[test]
fn logical_operators_return_scalar_bool() {
    for op in [BinOp::LogAnd, BinOp::LogOr] {
        for l in types() {
            for r in types() {
                assert_eq!(op.type_eval(&l, &r), DataType::Scalar(ScalarType::Bool));
            }
        }
    }
}

#[test]
fn relational_operators_return_bool_with_left_shape() {
    let ops = [
        BinOp::Equal,
        BinOp::NotEqual,
        BinOp::Less,
        BinOp::LessEqual,
        BinOp::Greater,
        BinOp::GreaterEqual,
    ];
    for op in ops {
        let l = DataType::Vector(3, ScalarType::U32);
        let r = DataType::Vector(3, ScalarType::I32);
        assert_eq!(op.type_eval(&l, &r), DataType::Vector(3, ScalarType::Bool));
        let l = DataType::Scalar(ScalarType::I32);
        let r = DataType::Scalar(ScalarType::I32);
        assert_eq!(op.type_eval(&l, &r), DataType::Scalar(ScalarType::Bool));
    }
}

#[test]
fn relational_result_ignores_right_type() {
    let l = DataType::Vector(2, ScalarType::I32);
    let r = DataType::User("Anything".to_string());
    assert_eq!(
        BinOp::Less.type_eval(&l, &r),
        DataType::Vector(2, ScalarType::Bool)
    );
}

#[test]
fn with_scalar_kind_preserves_shape() {
    let v = DataType::Vector(4, ScalarType::I32);
    assert_eq!(
        v.with_scalar_kind(ScalarType::Bool),
        DataType::Vector(4, ScalarType::Bool)
    );
    let s = DataType::Scalar(ScalarType::U32);
    assert_eq!(
        s.with_scalar_kind(ScalarType::Bool),
        DataType::Scalar(ScalarType::Bool)
    );
    let u = DataType::User("S".to_string());
    assert_eq!(u.with_scalar_kind(ScalarType::Bool), u);
}

#[test]
fn data_type_clone_is_equal() {
    for t in types() {
        assert_eq!(t.clone(), t);
    }
}
