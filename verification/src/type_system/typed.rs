use vstd::prelude::*;
use crate::parser::visitors::{
    AddressOf, ArrayAccess, Binary, BinaryLogic, Call, DeReference, Expression, Group, Identifier, Literal,
    MemberAccess, SExpr, SLiteral, StructLiteral, Unary, expr_view, exprs_view,
};
use crate::value_type::ValueType;

verus! {

/// The type that an expression holds once checked: the one recorded in it,
/// that of its left operand for an operation, or the type of a constant.
pub open spec fn recorded_type(e: SExpr) -> Option<ValueType>
    decreases e,
{
    match e {
        SExpr::Literal(lit, _) => match lit {
            SLiteral::Number(_) => Some(ValueType::Number),
            SLiteral::Real(_) => Some(ValueType::Real),
            SLiteral::Bool(_) => Some(ValueType::Bool),
            SLiteral::Char(_) => Some(ValueType::Char),
            SLiteral::Str(_) => Some(ValueType::String),
            SLiteral::Struct { literal_type, .. } => literal_type,
            SLiteral::Ident { ty, .. } => ty,
        },
        SExpr::Arith(_, a, _) => recorded_type(*a),
        SExpr::Group(x, _) => recorded_type(*x),
        SExpr::Logic(_, a, _) => recorded_type(*a),
        SExpr::Unary(_, x) => recorded_type(*x),
        SExpr::Call { ty, .. } => ty,
        SExpr::ArrayAccess { ty, .. } => ty,
        SExpr::AddressOf { ty, .. } => ty,
        SExpr::DeReference { ty, .. } => ty,
        SExpr::MemberAccess { ty, .. } => ty,
        SExpr::Null(_) => Some(ValueType::Null),
    }
}

/// The type held by an expression.
pub fn expression_type(e: &Expression) -> (r: ValueType)
    requires
        recorded_type(e@) is Some,
    ensures
        r == recorded_type(e@)->Some_0,
    decreases e@,
{
    proof {
        reveal(expr_view);
        reveal(exprs_view);
    }
    match e {
        Expression::Literal(l) => match l {
            Literal::Number(_) => ValueType::Number,
            Literal::Real(_) => ValueType::Real,
            Literal::Bool(_) => ValueType::Bool,
            Literal::Char(_) => ValueType::Char,
            Literal::StringLiteral(_) => ValueType::String,
            Literal::StructLiteral(s) => match &s.literal_type {
                Some(t) => t.clone(),
                None => ValueType::Void,
            },
            Literal::Identifier(i) => match &i.ty {
                Some(t) => t.clone(),
                None => ValueType::Void,
            },
        },
        Expression::Binary(b) => match b {
            Binary::Plus(l, _) => expression_type(l),
            Binary::Minus(l, _) => expression_type(l),
            Binary::Multiply(l, _) => expression_type(l),
            Binary::Divide(l, _) => expression_type(l),
            Binary::Modulo(l, _) => expression_type(l),
        },
        Expression::Group(g) => expression_type(&g.inner_expression),
        Expression::BinaryLogic(b) => match b {
            BinaryLogic::And(l, _) => expression_type(l),
            BinaryLogic::Or(l, _) => expression_type(l),
            BinaryLogic::Equal(l, _) => expression_type(l),
            BinaryLogic::NotEqual(l, _) => expression_type(l),
            BinaryLogic::More(l, _) => expression_type(l),
            BinaryLogic::Less(l, _) => expression_type(l),
            BinaryLogic::MoreEqual(l, _) => expression_type(l),
            BinaryLogic::LessEqual(l, _) => expression_type(l),
        },
        Expression::Unary(u) => match u {
            Unary::Not(x) => expression_type(x),
            Unary::Negate(x) => expression_type(x),
        },
        Expression::Call(c) => opt_type(&c.ty),
        Expression::ArrayAccess(a) => opt_type(&a.ty),
        Expression::AddressOf(a) => opt_type(&a.ty),
        Expression::DeReference(d) => opt_type(&d.ty),
        Expression::MemberAccess(m) => opt_type(&m.ty),
        Expression::Null(_) => ValueType::Null,
    }
}

/// The recorded type.
fn opt_type(t: &Option<ValueType>) -> (r: ValueType)
    requires
        t is Some,
    ensures
        r == t->Some_0,
{
    match t {
        Some(v) => v.clone(),
        None => ValueType::Void,
    }
}

/// An element of the tree whose type the checker records or knows.
pub trait Typed {
    /// The type the element holds, if it holds one.
    spec fn recorded(&self) -> Option<ValueType>;

    /// Whether a type can be recorded in the element.
    spec fn settable(&self) -> bool;

    /// The type the element holds.
    fn get_type(&self) -> (r: ValueType)
        requires
            self.recorded() is Some,
        ensures
            r == self.recorded()->Some_0,
    ;

    /// Records a type in the element.
    fn set_type(&mut self, new_type: ValueType)
        requires
            old(self).settable(),
        ensures
            final(self).recorded() == Some(new_type),
    ;
}

impl Typed for i64 {
    open spec fn recorded(&self) -> Option<ValueType> {
        Some(ValueType::Number)
    }

    open spec fn settable(&self) -> bool {
        false
    }

    fn get_type(&self) -> (r: ValueType) {
        ValueType::Number
    }

    fn set_type(&mut self, _new_type: ValueType) {
    }
}

impl Typed for bool {
    open spec fn recorded(&self) -> Option<ValueType> {
        Some(ValueType::Bool)
    }

    open spec fn settable(&self) -> bool {
        false
    }

    fn get_type(&self) -> (r: ValueType) {
        ValueType::Bool
    }

    fn set_type(&mut self, _new_type: ValueType) {
    }
}

impl Typed for String {
    open spec fn recorded(&self) -> Option<ValueType> {
        Some(ValueType::String)
    }

    open spec fn settable(&self) -> bool {
        false
    }

    fn get_type(&self) -> (r: ValueType) {
        ValueType::String
    }

    fn set_type(&mut self, _new_type: ValueType) {
    }
}

impl Typed for StructLiteral {
    open spec fn recorded(&self) -> Option<ValueType> {
        self.literal_type
    }

    open spec fn settable(&self) -> bool {
        true
    }

    fn get_type(&self) -> (r: ValueType) {
        opt_type(&self.literal_type)
    }

    fn set_type(&mut self, new_type: ValueType) {
        self.literal_type = Some(new_type);
    }
}

impl Typed for Identifier {
    open spec fn recorded(&self) -> Option<ValueType> {
        self.ty
    }

    open spec fn settable(&self) -> bool {
        true
    }

    fn get_type(&self) -> (r: ValueType) {
        opt_type(&self.ty)
    }

    fn set_type(&mut self, new_type: ValueType) {
        self.ty = Some(new_type);
    }
}

impl Typed for Call {
    open spec fn recorded(&self) -> Option<ValueType> {
        self.ty
    }

    open spec fn settable(&self) -> bool {
        true
    }

    fn get_type(&self) -> (r: ValueType) {
        opt_type(&self.ty)
    }

    fn set_type(&mut self, new_type: ValueType) {
        self.ty = Some(new_type);
    }
}

impl Typed for ArrayAccess {
    open spec fn recorded(&self) -> Option<ValueType> {
        self.ty
    }

    open spec fn settable(&self) -> bool {
        true
    }

    fn get_type(&self) -> (r: ValueType) {
        opt_type(&self.ty)
    }

    fn set_type(&mut self, new_type: ValueType) {
        self.ty = Some(new_type);
    }
}

impl Typed for AddressOf {
    open spec fn recorded(&self) -> Option<ValueType> {
        self.ty
    }

    open spec fn settable(&self) -> bool {
        true
    }

    fn get_type(&self) -> (r: ValueType) {
        opt_type(&self.ty)
    }

    fn set_type(&mut self, new_type: ValueType) {
        self.ty = Some(new_type);
    }
}

impl Typed for DeReference {
    open spec fn recorded(&self) -> Option<ValueType> {
        self.ty
    }

    open spec fn settable(&self) -> bool {
        true
    }

    fn get_type(&self) -> (r: ValueType) {
        opt_type(&self.ty)
    }

    fn set_type(&mut self, new_type: ValueType) {
        self.ty = Some(new_type);
    }
}

impl Typed for MemberAccess {
    open spec fn recorded(&self) -> Option<ValueType> {
        self.ty
    }

    open spec fn settable(&self) -> bool {
        true
    }

    fn get_type(&self) -> (r: ValueType) {
        opt_type(&self.ty)
    }

    fn set_type(&mut self, new_type: ValueType) {
        self.ty = Some(new_type);
    }
}

impl Typed for Literal {
    open spec fn recorded(&self) -> Option<ValueType> {
        recorded_type(expr_view(Expression::Literal(*self)))
    }

    open spec fn settable(&self) -> bool {
        false
    }

    fn get_type(&self) -> (r: ValueType) {
        proof {
            reveal(expr_view);
            reveal(exprs_view);
        }
        match self {
            Literal::Number(_) => ValueType::Number,
            Literal::Real(_) => ValueType::Real,
            Literal::Bool(_) => ValueType::Bool,
            Literal::Char(_) => ValueType::Char,
            Literal::StringLiteral(_) => ValueType::String,
            Literal::StructLiteral(s) => s.get_type(),
            Literal::Identifier(i) => i.get_type(),
        }
    }

    fn set_type(&mut self, _new_type: ValueType) {
    }
}

impl Typed for Binary {
    open spec fn recorded(&self) -> Option<ValueType> {
        recorded_type(expr_view(Expression::Binary(*self)))
    }

    open spec fn settable(&self) -> bool {
        false
    }

    fn get_type(&self) -> (r: ValueType) {
        proof {
            reveal(expr_view);
            reveal(exprs_view);
        }
        match self {
            Binary::Plus(l, _) => expression_type(l),
            Binary::Minus(l, _) => expression_type(l),
            Binary::Multiply(l, _) => expression_type(l),
            Binary::Divide(l, _) => expression_type(l),
            Binary::Modulo(l, _) => expression_type(l),
        }
    }

    fn set_type(&mut self, _new_type: ValueType) {
    }
}

impl Typed for Group {
    open spec fn recorded(&self) -> Option<ValueType> {
        recorded_type(expr_view(Expression::Group(*self)))
    }

    open spec fn settable(&self) -> bool {
        false
    }

    fn get_type(&self) -> (r: ValueType) {
        proof {
            reveal(expr_view);
            reveal(exprs_view);
        }
        expression_type(&self.inner_expression)
    }

    fn set_type(&mut self, _new_type: ValueType) {
    }
}

impl Typed for BinaryLogic {
    open spec fn recorded(&self) -> Option<ValueType> {
        recorded_type(expr_view(Expression::BinaryLogic(*self)))
    }

    open spec fn settable(&self) -> bool {
        false
    }

    fn get_type(&self) -> (r: ValueType) {
        proof {
            reveal(expr_view);
            reveal(exprs_view);
        }
        match self {
            BinaryLogic::And(l, _) => expression_type(l),
            BinaryLogic::Or(l, _) => expression_type(l),
            BinaryLogic::Equal(l, _) => expression_type(l),
            BinaryLogic::NotEqual(l, _) => expression_type(l),
            BinaryLogic::More(l, _) => expression_type(l),
            BinaryLogic::Less(l, _) => expression_type(l),
            BinaryLogic::MoreEqual(l, _) => expression_type(l),
            BinaryLogic::LessEqual(l, _) => expression_type(l),
        }
    }

    fn set_type(&mut self, _new_type: ValueType) {
    }
}

impl Typed for Unary {
    open spec fn recorded(&self) -> Option<ValueType> {
        recorded_type(expr_view(Expression::Unary(*self)))
    }

    open spec fn settable(&self) -> bool {
        false
    }

    fn get_type(&self) -> (r: ValueType) {
        proof {
            reveal(expr_view);
            reveal(exprs_view);
        }
        match self {
            Unary::Not(x) => expression_type(x),
            Unary::Negate(x) => expression_type(x),
        }
    }

    fn set_type(&mut self, _new_type: ValueType) {
    }
}

impl Typed for Expression {
    open spec fn recorded(&self) -> Option<ValueType> {
        recorded_type(self@)
    }

    open spec fn settable(&self) -> bool {
        false
    }

    fn get_type(&self) -> (r: ValueType) {
        expression_type(self)
    }

    fn set_type(&mut self, _new_type: ValueType) {
    }
}

} // verus!
