//! Typed intermediate representation for a small shader-like language,
//! together with its operator type-evaluation rules and a canonical,
//! deterministic pretty-printer.

pub mod decl;
pub mod expr;
pub mod laws;
pub mod stmt;
pub mod text;
pub mod types;

pub use decl::AccessMode;
pub use decl::AttrList;
pub use decl::Attribute;
pub use decl::FnAttr;
pub use decl::FnDecl;
pub use decl::FnInput;
pub use decl::FnInputAttr;
pub use decl::FnOutput;
pub use decl::FnOutputAttr;
pub use decl::GlobalVarAttr;
pub use decl::GlobalVarDecl;
pub use decl::Module;
pub use decl::ShaderStage;
pub use decl::StorageClass;
pub use decl::StructDecl;
pub use decl::StructMember;
pub use decl::VarQualifier;
pub use expr::BinOp;
pub use expr::Expr;
pub use expr::ExprNode;
pub use expr::Lit;
pub use expr::UnOp;
pub use stmt::AssignmentLhs;
pub use stmt::AssignmentLhsPostfix;
pub use stmt::Statement;
pub use types::DataType;
pub use types::ScalarType;
