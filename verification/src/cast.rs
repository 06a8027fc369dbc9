//! The cast expression, over a closed set of expression kinds.
//!
//! Expressions are plain trees: two of them are equal when they have the same
//! kind and equal parts, with no need to ask a value what type it has.

use vstd::prelude::*;

verus! {

/// The types that a value can be cast to.
#[derive(Clone, Copy, PartialEq, Eq, Debug, Structural)]
pub enum DataType {
    Boolean,
    Int8,
    Int16,
    Int32,
    Int64,
    UInt8,
    UInt16,
    UInt32,
    UInt64,
    Utf8,
    Binary,
    Date32,
    Decimal128 { precision: u8, scale: i8 },
}

/// An expression that is evaluated against the rows of a batch.
#[derive(PartialEq, Eq, Debug)]
pub enum PhysicalExpr {
    /// The column of a name at a position of the input.
    Column { name: String, index: usize },
    /// A constant.
    Literal { value: i64 },
    /// The cast of another expression.
    TryCast { cast: TryCastExpr },
}

/// Cast of an expression to a type; a value that does not fit becomes null.
#[derive(PartialEq, Eq, Debug)]
pub struct TryCastExpr {
    pub expr: Box<PhysicalExpr>,
    pub cast_type: DataType,
}

impl PhysicalExpr {
    /// Nesting depth of the expression.
    pub open spec fn depth(self) -> nat
        decreases self,
    {
        match self {
            PhysicalExpr::TryCast { cast } => 1 + cast.expr.depth(),
            _ => 0,
        }
    }

    /// Two expressions are the same: of the same kind, with the same parts.
    pub open spec fn same(self, other: PhysicalExpr) -> bool
        decreases self,
    {
        match (self, other) {
            (
                PhysicalExpr::Column { name: a, index: i },
                PhysicalExpr::Column { name: b, index: j },
            ) => a@ == b@ && i == j,
            (PhysicalExpr::Literal { value: a }, PhysicalExpr::Literal { value: b }) => a == b,
            (PhysicalExpr::TryCast { cast: a }, PhysicalExpr::TryCast { cast: b }) => a.cast_type
                == b.cast_type && a.expr.same(*b.expr),
            _ => false,
        }
    }

    /// Whether two expressions are the same.
    pub fn equals(&self, other: &PhysicalExpr) -> (same: bool)
        ensures
            same == self.same(*other),
        decreases self.depth(),
    {
        match (self, other) {
            (
                PhysicalExpr::Column { name: a, index: i },
                PhysicalExpr::Column { name: b, index: j },
            ) => *a == *b && *i == *j,
            (PhysicalExpr::Literal { value: a }, PhysicalExpr::Literal { value: b }) => *a == *b,
            (PhysicalExpr::TryCast { cast: a }, PhysicalExpr::TryCast { cast: b }) => {
                a.cast_type == b.cast_type && a.expr.equals(&b.expr)
            },
            _ => false,
        }
    }
}

impl TryCastExpr {
    /// Two casts are the same: the same child, cast to the same type.
    pub open spec fn same(self, other: TryCastExpr) -> bool {
        self.cast_type == other.cast_type && self.expr.same(*other.expr)
    }

    pub fn new(expr: PhysicalExpr, cast_type: DataType) -> (cast: Self)
        ensures
            *cast.expr == expr,
            cast.cast_type == cast_type,
    {
        TryCastExpr { expr: Box::new(expr), cast_type }
    }

    /// The type of the cast's values: the type cast to, whatever the input.
    pub fn data_type(&self) -> (data_type: DataType)
        ensures
            data_type == self.cast_type,
    {
        self.cast_type
    }

    /// A cast may always give null.
    pub fn nullable(&self) -> (nullable: bool)
        ensures
            nullable,
    {
        true
    }

    /// The one child of the cast: the expression that is cast.
    pub fn children(&self) -> (children: Vec<&PhysicalExpr>)
        ensures
            children@.len() == 1,
            *children@[0] == *self.expr,
    {
        let mut children: Vec<&PhysicalExpr> = Vec::new();
        children.push(&*self.expr);
        children
    }

    /// The same cast of another child, the first of `children`.
    pub fn with_new_children(&self, children: Vec<PhysicalExpr>) -> (cast: Self)
        requires
            children@.len() >= 1,
        ensures
            *cast.expr == children@[0],
            cast.cast_type == self.cast_type,
    {
        let mut children = children;
        let first = children.swap_remove(0);
        TryCastExpr::new(first, self.cast_type)
    }

    /// Whether two casts are the same.
    pub fn equals(&self, other: &TryCastExpr) -> (same: bool)
        ensures
            same == self.same(*other),
    {
        self.cast_type == other.cast_type && self.expr.equals(&other.expr)
    }
}

/// Being the same is an equivalence: every expression is the same as itself,
/// and the relation runs both ways and carries over.
pub proof fn lemma_same_is_equivalence(a: PhysicalExpr, b: PhysicalExpr, c: PhysicalExpr)
    ensures
        a.same(a),
        a.same(b) == b.same(a),
        a.same(b) && b.same(c) ==> a.same(c),
    decreases a,
{
    match (a, b, c) {
        (
            PhysicalExpr::TryCast { cast: x },
            PhysicalExpr::TryCast { cast: y },
            PhysicalExpr::TryCast { cast: z },
        ) => {
            lemma_same_is_equivalence(*x.expr, *y.expr, *z.expr);
        },
        (PhysicalExpr::TryCast { cast: x }, PhysicalExpr::TryCast { cast: y }, _) => {
            lemma_same_is_equivalence(*x.expr, *y.expr, *y.expr);
        },
        (PhysicalExpr::TryCast { cast: x }, _, _) => {
            lemma_same_is_equivalence(*x.expr, *x.expr, *x.expr);
        },
        _ => {},
    }
}

} // verus!
