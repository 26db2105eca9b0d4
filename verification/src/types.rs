//! The data types attributed to expressions: scalar kinds, fixed-width
//! vectors of a scalar kind, and user-declared (struct) types referenced by
//! name.

use crate::text::dec_str;
use vstd::prelude::*;
use vstd::string::StringExecFns;

verus! {

/// The element-level type classification, independent of vector width.
#[derive(Clone, Copy, Debug, PartialEq, Eq, Hash)]
pub enum ScalarType {
    Bool,
    I32,
    U32,
}

/// The classification of a value's shape and scalar kind.
#[derive(Debug, PartialEq, Eq, Hash)]
pub enum DataType {
    /// A single scalar value.
    Scalar(ScalarType),
    /// A vector of the given number of components, each of the given
    /// scalar kind.
    Vector(u8, ScalarType),
    /// A user-declared type, referenced by the name of its declaration.
    User(String),
}

impl ScalarType {
    /// The keyword this scalar kind renders as.
    pub open spec fn spec_render(&self) -> Seq<char> {
        match self {
            ScalarType::Bool => "bool"@,
            ScalarType::I32 => "i32"@,
            ScalarType::U32 => "u32"@,
        }
    }

    /// Renders this scalar kind as its type keyword.
    pub fn render(&self) -> (r: String)
        ensures
            r@ == self.spec_render(),
    {
        match self {
            ScalarType::Bool => "bool".to_owned(),
            ScalarType::I32 => "i32".to_owned(),
            ScalarType::U32 => "u32".to_owned(),
        }
    }
}

impl DataType {
    /// This type with its scalar component kind replaced, preserving the
    /// scalar or vector shape; a user-declared type has no scalar component
    /// and is left unchanged.
    pub open spec fn spec_with_scalar_kind(&self, scalar: ScalarType) -> DataType {
        match self {
            DataType::Scalar(_) => DataType::Scalar(scalar),
            DataType::Vector(n, _) => DataType::Vector(*n, scalar),
            DataType::User(name) => DataType::User(*name),
        }
    }

    /// Replaces the scalar component kind of this type while preserving its
    /// shape: a scalar stays a scalar, a vector keeps its component count,
    /// and a user-declared type is returned unchanged.
    pub fn with_scalar_kind(&self, scalar: ScalarType) -> (r: DataType)
        ensures
            r == self.spec_with_scalar_kind(scalar),
    {
        match self {
            DataType::Scalar(_) => DataType::Scalar(scalar),
            DataType::Vector(n, _) => DataType::Vector(*n, scalar),
            DataType::User(name) => DataType::User(name.clone()),
        }
    }

    /// The source text this type renders as.
    pub open spec fn spec_render(&self) -> Seq<char> {
        match self {
            DataType::Scalar(t) => t.spec_render(),
            DataType::Vector(n, t) => "vec"@ + dec_str(*n as int) + "<"@ + t.spec_render() + ">"@,
            DataType::User(name) => name@,
        }
    }

    /// Renders this type: a scalar keyword, `vecN<scalar>` for a vector, or
    /// the declaration name for a user-declared type.
    pub fn render(&self) -> (r: String)
        ensures
            r@ == self.spec_render(),
    {
        match self {
            DataType::Scalar(t) => t.render(),
            DataType::Vector(n, t) => {
                let mut out = "vec".to_owned();
                let count = crate::text::render_u32(*n as u32);
                out.append(count.as_str());
                out.append("<");
                let scalar = t.render();
                out.append(scalar.as_str());
                out.append(">");
                proof {
                    assert(out@ =~= self.spec_render());
                }
                out
            },
            DataType::User(name) => name.clone(),
        }
    }
}

impl Clone for DataType {
    /// Cloning a type yields an equal type.
    fn clone(&self) -> (r: Self)
        ensures
            r == *self,
    {
        match self {
            DataType::Scalar(t) => DataType::Scalar(*t),
            DataType::Vector(n, t) => DataType::Vector(*n, *t),
            DataType::User(name) => DataType::User(name.clone()),
        }
    }
}

} // verus!
