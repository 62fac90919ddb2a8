use vstd::prelude::*;
use crate::parser::visitors::{
    AddressOf, ArrayAccess, Binary, BinaryLogic, Call, DeReference, Expression, Group, Literal,
    MemberAccess, StructField, StructLiteral, Unary, args_view, expr_view, exprs_view, lemma_exprs_view_len,
    lemma_exprs_view_update,
};
use crate::type_system::messages::{
    arg_count, around, around_type, bad_argument, bad_init, incompatible, init_count, no_field, not_declared, text,
};
use crate::type_system::type_check::{TypeChecker, TypeCheckerReturn, verdict_of};
use crate::type_system::typing::{
    address_of, expr_size, exprs_size, field_type, lemma_exprs_size, logic_result, operands, struct_view,
    typed_args, typed_expr, typed_inits, typed_struct_literal, SSig, Verdict,
};
use crate::value_type::ValueType;

verus! {

impl TypeChecker {
    /// Checks an expression, records the types found in it, and returns its
    /// type.
    pub fn check_expr(&mut self, expr: &mut Expression) -> (r: TypeCheckerReturn)
        requires
            old(self).wf(),
            !(typed_expr(old(self)@, old(expr)@).0 is Aborted),
        ensures
            *final(self) == *old(self),
            verdict_of(r) == typed_expr(old(self)@, old(expr)@).0,
            final(expr)@ == typed_expr(old(self)@, old(expr)@).1,
        decreases expr_size(old(expr)@), 5nat,
    {
        proof {
            reveal(typed_expr);
            reveal(typed_args);
            reveal(typed_inits);
            reveal(typed_struct_literal);
            reveal(expr_view);
            reveal(exprs_view);
        }
        match expr {
            Expression::Literal(e) => self.visit_literal(e),
            Expression::Binary(e) => self.visit_binary(e),
            Expression::Group(e) => self.visit_group(e),
            Expression::BinaryLogic(e) => self.visit_binary_logic(e),
            Expression::Unary(e) => self.visit_unary(e),
            Expression::Call(e) => self.visit_call(e),
            Expression::ArrayAccess(a) => self.visit_array_access(a),
            Expression::Null(_) => self.visit_null_expression(),
            Expression::AddressOf(a) => self.visit_address_of_expression(a),
            Expression::DeReference(d) => self.visit_dereference_expression(d),
            Expression::MemberAccess(m) => self.visit_member_access(m),
        }
    }

    /// Checks a boxed expression.
    pub fn visit_boxed_expr(&mut self, expr: &mut Box<Expression>) -> (r: TypeCheckerReturn)
        requires
            old(self).wf(),
            !(typed_expr(old(self)@, expr_view(**old(expr))).0 is Aborted),
        ensures
            *final(self) == *old(self),
            verdict_of(r) == typed_expr(old(self)@, expr_view(**old(expr))).0,
            expr_view(**final(expr)) == typed_expr(old(self)@, expr_view(**old(expr))).1,
        decreases expr_size(expr_view(**old(expr))), 6nat,
    {
        proof {
            reveal(typed_expr);
            reveal(typed_args);
            reveal(typed_inits);
            reveal(typed_struct_literal);
            reveal(expr_view);
            reveal(exprs_view);
        }
        self.check_expr(&mut **expr)
    }

    /// Checks both operands, the left one first.
    pub fn unpack_binary_type(&mut self, lhs: &mut Box<Expression>, rhs: &mut Box<Expression>) -> (r: (
        TypeCheckerReturn,
        TypeCheckerReturn,
    ))
        requires
            old(self).wf(),
            !(typed_expr(old(self)@, expr_view(**old(lhs))).0 is Aborted),
            !(typed_expr(old(self)@, expr_view(**old(rhs))).0 is Aborted),
        ensures
            *final(self) == *old(self),
            verdict_of(r.0) == typed_expr(old(self)@, expr_view(**old(lhs))).0,
            verdict_of(r.1) == typed_expr(old(self)@, expr_view(**old(rhs))).0,
            expr_view(**final(lhs)) == typed_expr(old(self)@, expr_view(**old(lhs))).1,
            expr_view(**final(rhs)) == typed_expr(old(self)@, expr_view(**old(rhs))).1,
        decreases expr_size(expr_view(**old(lhs))) + expr_size(expr_view(**old(rhs))), 1nat,
    {
        proof {
            reveal(typed_expr);
            reveal(typed_args);
            reveal(typed_inits);
            reveal(typed_struct_literal);
            reveal(expr_view);
            reveal(exprs_view);
        }
        let l = self.visit_boxed_expr(lhs);
        let r = self.visit_boxed_expr(rhs);
        (l, r)
    }

    /// The left operand's type, when the right one's fits it.
    pub fn are_expressions_compatible(&mut self, l: &mut Box<Expression>, r: &mut Box<Expression>) -> (res: TypeCheckerReturn)
        requires
            old(self).wf(),
            !(operands(
                typed_expr(old(self)@, expr_view(**old(l))).0,
                typed_expr(old(self)@, expr_view(**old(r))).0,
            ) is Aborted),
        ensures
            *final(self) == *old(self),
            verdict_of(res) == operands(
                typed_expr(old(self)@, expr_view(**old(l))).0,
                typed_expr(old(self)@, expr_view(**old(r))).0,
            ),
            expr_view(**final(l)) == typed_expr(old(self)@, expr_view(**old(l))).1,
            expr_view(**final(r)) == typed_expr(old(self)@, expr_view(**old(r))).1,
        decreases expr_size(expr_view(**old(l))) + expr_size(expr_view(**old(r))), 2nat,
    {
        proof {
            reveal(typed_expr);
            reveal(typed_args);
            reveal(typed_inits);
            reveal(typed_struct_literal);
            reveal(expr_view);
            reveal(exprs_view);
        }
        let (lhs_result, rhs_result) = self.unpack_binary_type(l, r);
        match lhs_result {
            Ok(lhs_type) => match rhs_result {
                Ok(rhs_type) => if ValueType::is_compatible(&lhs_type, &rhs_type) {
                    Ok(lhs_type)
                } else {
                    Err(incompatible(&lhs_type, &rhs_type))
                },
                Err(m) => Err(m),
            },
            Err(m) => Err(m),
        }
    }

    /// Checks a literal or a name.
    pub fn visit_literal(&mut self, literal: &mut Literal) -> (r: TypeCheckerReturn)
        requires
            old(self).wf(),
            !(typed_expr(old(self)@, expr_view(Expression::Literal(*old(literal)))).0 is Aborted),
        ensures
            *final(self) == *old(self),
            verdict_of(r) == typed_expr(old(self)@, expr_view(Expression::Literal(*old(literal)))).0,
            expr_view(Expression::Literal(*final(literal))) == typed_expr(
                old(self)@,
                expr_view(Expression::Literal(*old(literal))),
            ).1,
        decreases expr_size(expr_view(Expression::Literal(*old(literal)))), 4nat,
    {
        proof {
            reveal(typed_expr);
            reveal(typed_args);
            reveal(typed_inits);
            reveal(typed_struct_literal);
            reveal(expr_view);
            reveal(exprs_view);
        }
        match literal {
            Literal::Number(_) => Ok(ValueType::Number),
            Literal::Real(_) => Ok(ValueType::Real),
            Literal::Bool(_) => Ok(ValueType::Bool),
            Literal::Char(_) => Ok(ValueType::Char),
            Literal::StringLiteral(_) => Ok(ValueType::String),
            Literal::Identifier(identifier) => {
                proof {
                    self.reveal_view();
                }
                match self.find_variable_type(&identifier.name) {
                    Some(var_type) => {
                        let t = var_type.clone();
                        identifier.is_lvalue = self.is_lvalue;
                        identifier.ty = Some(t.clone());
                        Ok(t)
                    },
                    None => Err(not_declared(&identifier.name)),
                }
            },
            Literal::StructLiteral(s) => self.visit_struct_literal(s),
        }
    }

    /// Checks an arithmetic operation: both operands must fit.
    pub fn visit_binary(&mut self, binary: &mut Binary) -> (r: TypeCheckerReturn)
        requires
            old(self).wf(),
            !(typed_expr(old(self)@, expr_view(Expression::Binary(*old(binary)))).0 is Aborted),
        ensures
            *final(self) == *old(self),
            verdict_of(r) == typed_expr(old(self)@, expr_view(Expression::Binary(*old(binary)))).0,
            expr_view(Expression::Binary(*final(binary))) == typed_expr(
                old(self)@,
                expr_view(Expression::Binary(*old(binary))),
            ).1,
        decreases expr_size(expr_view(Expression::Binary(*old(binary)))), 4nat,
    {
        proof {
            reveal(typed_expr);
            reveal(typed_args);
            reveal(typed_inits);
            reveal(typed_struct_literal);
            reveal(expr_view);
            reveal(exprs_view);
        }
        match binary {
            Binary::Plus(l, r) => self.are_expressions_compatible(l, r),
            Binary::Minus(l, r) => self.are_expressions_compatible(l, r),
            Binary::Multiply(l, r) => self.are_expressions_compatible(l, r),
            Binary::Divide(l, r) => self.are_expressions_compatible(l, r),
            Binary::Modulo(l, r) => self.are_expressions_compatible(l, r),
        }
    }

    /// Checks a parenthesised expression.
    pub fn visit_group(&mut self, group: &mut Group) -> (r: TypeCheckerReturn)
        requires
            old(self).wf(),
            !(typed_expr(old(self)@, expr_view(Expression::Group(*old(group)))).0 is Aborted),
        ensures
            *final(self) == *old(self),
            verdict_of(r) == typed_expr(old(self)@, expr_view(Expression::Group(*old(group)))).0,
            expr_view(Expression::Group(*final(group))) == typed_expr(
                old(self)@,
                expr_view(Expression::Group(*old(group))),
            ).1,
        decreases expr_size(expr_view(Expression::Group(*old(group)))), 4nat,
    {
        proof {
            reveal(typed_expr);
            reveal(typed_args);
            reveal(typed_inits);
            reveal(typed_struct_literal);
            reveal(expr_view);
            reveal(exprs_view);
        }
        self.visit_boxed_expr(&mut group.inner_expression)
    }

    /// Checks a comparison or a logical operation: both operands must fit,
    /// and the result is a `bool`.
    pub fn visit_binary_logic(&mut self, binary: &mut BinaryLogic) -> (r: TypeCheckerReturn)
        requires
            old(self).wf(),
            !(typed_expr(old(self)@, expr_view(Expression::BinaryLogic(*old(binary)))).0 is Aborted),
        ensures
            *final(self) == *old(self),
            verdict_of(r) == typed_expr(old(self)@, expr_view(Expression::BinaryLogic(*old(binary)))).0,
            expr_view(Expression::BinaryLogic(*final(binary))) == typed_expr(
                old(self)@,
                expr_view(Expression::BinaryLogic(*old(binary))),
            ).1,
        decreases expr_size(expr_view(Expression::BinaryLogic(*old(binary)))), 4nat,
    {
        proof {
            reveal(typed_expr);
            reveal(typed_args);
            reveal(typed_inits);
            reveal(typed_struct_literal);
            reveal(expr_view);
            reveal(exprs_view);
        }
        let is_compatible = match binary {
            BinaryLogic::And(l, r) => self.are_expressions_compatible(l, r),
            BinaryLogic::Or(l, r) => self.are_expressions_compatible(l, r),
            BinaryLogic::Less(l, r) => self.are_expressions_compatible(l, r),
            BinaryLogic::More(l, r) => self.are_expressions_compatible(l, r),
            BinaryLogic::LessEqual(l, r) => self.are_expressions_compatible(l, r),
            BinaryLogic::MoreEqual(l, r) => self.are_expressions_compatible(l, r),
            BinaryLogic::Equal(l, r) => self.are_expressions_compatible(l, r),
            BinaryLogic::NotEqual(l, r) => self.are_expressions_compatible(l, r),
        };
        match is_compatible {
            Ok(_) => Ok(ValueType::Bool),
            Err(m) => Err(m),
        }
    }

    /// Checks `!e` or `-e`: the type of `e`.
    pub fn visit_unary(&mut self, unary: &mut Unary) -> (r: TypeCheckerReturn)
        requires
            old(self).wf(),
            !(typed_expr(old(self)@, expr_view(Expression::Unary(*old(unary)))).0 is Aborted),
        ensures
            *final(self) == *old(self),
            verdict_of(r) == typed_expr(old(self)@, expr_view(Expression::Unary(*old(unary)))).0,
            expr_view(Expression::Unary(*final(unary))) == typed_expr(
                old(self)@,
                expr_view(Expression::Unary(*old(unary))),
            ).1,
        decreases expr_size(expr_view(Expression::Unary(*old(unary)))), 4nat,
    {
        proof {
            reveal(typed_expr);
            reveal(typed_args);
            reveal(typed_inits);
            reveal(typed_struct_literal);
            reveal(expr_view);
            reveal(exprs_view);
        }
        match unary {
            Unary::Not(e) => self.visit_boxed_expr(e),
            Unary::Negate(e) => self.visit_boxed_expr(e),
        }
    }

    /// `null` has the type `Null`.
    pub fn visit_null_expression(&mut self) -> (r: TypeCheckerReturn)
        ensures
            *final(self) == *old(self),
            r == Ok::<ValueType, String>(ValueType::Null),
    {
        proof {
            reveal(typed_expr);
            reveal(typed_args);
            reveal(typed_inits);
            reveal(typed_struct_literal);
            reveal(expr_view);
            reveal(exprs_view);
        }
        Ok(ValueType::Null)
    }
    /// Checks `array[index]`: the type of an element of an array, of a
    /// string or of a pointer. The index is not checked.
    pub fn visit_array_access(&mut self, array_access: &mut ArrayAccess) -> (r: TypeCheckerReturn)
        requires
            old(self).wf(),
            !(typed_expr(old(self)@, expr_view(Expression::ArrayAccess(*old(array_access)))).0 is Aborted),
        ensures
            *final(self) == *old(self),
            verdict_of(r) == typed_expr(old(self)@, expr_view(Expression::ArrayAccess(*old(array_access)))).0,
            expr_view(Expression::ArrayAccess(*final(array_access))) == typed_expr(
                old(self)@,
                expr_view(Expression::ArrayAccess(*old(array_access))),
            ).1,
        decreases expr_size(expr_view(Expression::ArrayAccess(*old(array_access)))), 4nat,
    {
        proof {
            reveal(typed_expr);
            reveal(typed_args);
            reveal(typed_inits);
            reveal(typed_struct_literal);
            reveal(expr_view);
            reveal(exprs_view);
        }
        let id_ty = match self.visit_boxed_expr(&mut array_access.identifier) {
            Ok(t) => t,
            Err(m) => return Err(m),
        };
        match &id_ty {
            ValueType::Array(arr_ty) => {
                let t = (*arr_ty.array_type).clone();
                array_access.ty = Some(t.clone());
                Ok(t)
            },
            ValueType::String => {
                array_access.ty = Some(ValueType::Char);
                Ok(ValueType::Char)
            },
            ValueType::Pointer(ptr_ty) => {
                let t = (**ptr_ty).clone();
                array_access.ty = Some(t.clone());
                Ok(t)
            },
            _ => Err(around_type("'", &id_ty, "' is not a subscriptable type.")),
        }
    }

    /// Checks `addrof e`: a pointer to the type of `e`.
    pub fn visit_address_of_expression(&mut self, address_of: &mut AddressOf) -> (r: TypeCheckerReturn)
        requires
            old(self).wf(),
            !(typed_expr(old(self)@, expr_view(Expression::AddressOf(*old(address_of)))).0 is Aborted),
        ensures
            *final(self) == *old(self),
            verdict_of(r) == typed_expr(old(self)@, expr_view(Expression::AddressOf(*old(address_of)))).0,
            expr_view(Expression::AddressOf(*final(address_of))) == typed_expr(
                old(self)@,
                expr_view(Expression::AddressOf(*old(address_of))),
            ).1,
        decreases expr_size(expr_view(Expression::AddressOf(*old(address_of)))), 4nat,
    {
        proof {
            reveal(typed_expr);
            reveal(typed_args);
            reveal(typed_inits);
            reveal(typed_struct_literal);
            reveal(expr_view);
            reveal(exprs_view);
        }
        let identifier_ty = match self.visit_boxed_expr(&mut address_of.identifier) {
            Ok(t) => t,
            Err(m) => return Err(m),
        };
        match &identifier_ty {
            ValueType::Function => Err(text("Function pointers are not supported yet.")),
            ValueType::Void => Err(text("Addrof cannot be applied to void types.")),
            ValueType::Null => Err(text("Addrof 'null' is forbidden.")),
            _ => Ok(ValueType::Pointer(Box::new(identifier_ty))),
        }
    }

    /// Checks `deref e`: the type that the pointer `e` points to.
    pub fn visit_dereference_expression(&mut self, dereference: &mut DeReference) -> (r: TypeCheckerReturn)
        requires
            old(self).wf(),
            !(typed_expr(old(self)@, expr_view(Expression::DeReference(*old(dereference)))).0 is Aborted),
        ensures
            *final(self) == *old(self),
            verdict_of(r) == typed_expr(old(self)@, expr_view(Expression::DeReference(*old(dereference)))).0,
            expr_view(Expression::DeReference(*final(dereference))) == typed_expr(
                old(self)@,
                expr_view(Expression::DeReference(*old(dereference))),
            ).1,
        decreases expr_size(expr_view(Expression::DeReference(*old(dereference)))), 4nat,
    {
        proof {
            reveal(typed_expr);
            reveal(typed_args);
            reveal(typed_inits);
            reveal(typed_struct_literal);
            reveal(expr_view);
            reveal(exprs_view);
        }
        proof {
            self.reveal_view();
        }
        let deref_ty = match self.visit_boxed_expr(&mut dereference.identifier) {
            Ok(t) => t,
            Err(m) => return Err(m),
        };
        match &deref_ty {
            ValueType::Pointer(ptr) if matches!(**ptr, ValueType::Void) => {
                Err(text("A void ptr cannot be dereferenced!"))
            },
            ValueType::Pointer(ptr) => {
                let t = (**ptr).clone();
                dereference.ty = Some(t.clone());
                dereference.is_lvalue = self.is_lvalue;
                Ok(t)
            },
            _ => Err(around_type("'", &deref_ty, "' Cannot be dereferenced as it's not a pointer type.")),
        }
    }

    /// Checks a struct literal and records its type.
    pub fn visit_struct_literal(&mut self, struct_literal: &mut StructLiteral) -> (r: TypeCheckerReturn)
        requires
            old(self).wf(),
            !(typed_expr(old(self)@, expr_view(Expression::Literal(Literal::StructLiteral(*old(struct_literal))))).0 is Aborted),
        ensures
            *final(self) == *old(self),
            verdict_of(r) == typed_expr(
                old(self)@,
                expr_view(Expression::Literal(Literal::StructLiteral(*old(struct_literal)))),
            ).0,
            expr_view(Expression::Literal(Literal::StructLiteral(*final(struct_literal)))) == typed_expr(
                old(self)@,
                expr_view(Expression::Literal(Literal::StructLiteral(*old(struct_literal)))),
            ).1,
        decreases expr_size(expr_view(Expression::Literal(Literal::StructLiteral(*old(struct_literal))))), 3nat,
    {
        proof {
            reveal(typed_expr);
            reveal(typed_args);
            reveal(typed_inits);
            reveal(typed_struct_literal);
            reveal(expr_view);
            reveal(exprs_view);
        }
        let ty = match self.check_valid_struct_literal(struct_literal) {
            Ok(t) => t,
            Err(m) => return Err(m),
        };
        struct_literal.literal_type = Some(ty.clone());
        Ok(ty)
    }

    /// Checks the expressions of a struct literal against the struct's
    /// fields; the literal's own type is not recorded.
    pub fn check_valid_struct_literal(&mut self, struct_literal: &mut StructLiteral) -> (r: TypeCheckerReturn)
        requires
            old(self).wf(),
            !(typed_struct_literal(
                old(self)@,
                old(struct_literal).struct_name@,
                exprs_view(old(struct_literal).expressions@),
            ).0 is Aborted),
        ensures
            *final(self) == *old(self),
            verdict_of(r) == typed_struct_literal(
                old(self)@,
                old(struct_literal).struct_name@,
                exprs_view(old(struct_literal).expressions@),
            ).0,
            exprs_view(final(struct_literal).expressions@) == typed_struct_literal(
                old(self)@,
                old(struct_literal).struct_name@,
                exprs_view(old(struct_literal).expressions@),
            ).1,
            final(struct_literal).literal_type == old(struct_literal).literal_type,
            final(struct_literal).struct_name == old(struct_literal).struct_name,
            final(struct_literal).line == old(struct_literal).line,
            final(struct_literal).column == old(struct_literal).column,
            final(struct_literal).filename == old(struct_literal).filename,
        decreases expr_size(expr_view(Expression::Literal(Literal::StructLiteral(*old(struct_literal))))), 2nat,
    {
        proof {
            reveal(typed_expr);
            reveal(typed_args);
            reveal(typed_inits);
            reveal(typed_struct_literal);
            reveal(expr_view);
            reveal(exprs_view);
        }
        proof {
            self.reveal_view();
        }
        let ghost st = self@;
        let ghost name = struct_literal.struct_name@;
        let struct_dec = match self.structs_table.get(&struct_literal.struct_name) {
            Some(dec) => dec.clone(),
            None => return Err(around("Undeclared struct '", struct_literal.struct_name.as_str(), "'")),
        };
        let ghost d = st.structs[name];
        assert(struct_view(struct_dec) == d);
        proof {
            lemma_exprs_view_len(struct_literal.expressions@);
        }
        if struct_dec.fields.len() != struct_literal.expressions.len() {
            return Err(init_count(&struct_literal.struct_name, struct_literal.expressions.len(), struct_dec.fields.len()));
        }
        let n = struct_literal.expressions.len();
        let ghost orig = exprs_view(struct_literal.expressions@);
        let ghost goal = typed_inits(st, d, name, orig, 0);
        let mut i: usize = 0;
        assert(orig.subrange(0, n as int) =~= orig);
        assert(orig.subrange(0, 0) + goal.1 =~= goal.1);
        while i < n
            invariant
                old(self).wf(),
                *self == *old(self),
                st == old(self)@,
                name == old(struct_literal).struct_name@,
                orig == exprs_view(old(struct_literal).expressions@),
                st.structs.contains_key(name),
                d == st.structs[name],
                struct_view(struct_dec) == d,
                d.fields.len() == n,
                n == old(struct_literal).expressions@.len(),
                struct_literal.expressions@.len() == n,
                struct_literal.literal_type == old(struct_literal).literal_type,
                struct_literal.struct_name == old(struct_literal).struct_name,
                struct_literal.line == old(struct_literal).line,
                struct_literal.column == old(struct_literal).column,
                struct_literal.filename == old(struct_literal).filename,
                i <= n,
                forall|j: int| i <= j < n ==> struct_literal.expressions@[j] == old(struct_literal).expressions@[j],
                goal == typed_inits(st, d, name, orig, 0),
                !(goal.0 is Aborted),
                goal.0 == typed_inits(st, d, name, exprs_view(struct_literal.expressions@).subrange(i as int, n as int), i as int).0,
                goal.1 == exprs_view(struct_literal.expressions@).subrange(0, i as int) + typed_inits(
                    st,
                    d,
                    name,
                    exprs_view(struct_literal.expressions@).subrange(i as int, n as int),
                    i as int,
                ).1,
            decreases n - i,
        {
            proof {
                reveal(typed_expr);
                reveal(typed_args);
                reveal(typed_inits);
                reveal(typed_struct_literal);
                reveal(expr_view);
                reveal(exprs_view);
            }
            let ghost before = struct_literal.expressions@;
            let ghost cur = exprs_view(before);
            let ghost rest = cur.subrange(i as int, n as int);
            proof {
                lemma_exprs_view_len(before);
                lemma_exprs_view_len(old(struct_literal).expressions@);
                lemma_exprs_size(orig, i as int);
                assert(rest[0] == cur[i as int]);
            }
            let expr_type = self.check_expr(&mut struct_literal.expressions[i]);
            let ghost a = typed_expr(st, cur[i as int]).1;
            let ghost cur2 = exprs_view(struct_literal.expressions@);
            proof {
                lemma_exprs_view_update(before, i as int, struct_literal.expressions@[i as int]);
                assert(struct_literal.expressions@ == before.update(i as int, struct_literal.expressions@[i as int]));
                assert(cur2 == cur.update(i as int, a));
                assert(rest.subrange(1, rest.len() as int) =~= cur2.subrange(i + 1, n as int));
                assert(cur2.subrange(0, i + 1) =~= cur.subrange(0, i as int).push(a));
            }
            match expr_type {
                Err(m) => {
                    proof {
                        assert(cur2 =~= cur.subrange(0, i as int) + (seq![a] + rest.subrange(1, rest.len() as int)));
                    }
                    return Err(m);
                },
                Ok(t) => {
                    if !ValueType::is_compatible_for_init(&struct_dec.fields[i].1, &t) {
                        let m = bad_init(&struct_literal.struct_name, &struct_dec.fields[i].1, &t, i);
                        proof {
                            assert(args_view(struct_dec.fields@)[i as int].1 == struct_dec.fields@[i as int].1);
                            assert(cur2 =~= cur.subrange(0, i as int) + (seq![a] + rest.subrange(1, rest.len() as int)));
                        }
                        return Err(m);
                    }
                    proof {
                        assert(args_view(struct_dec.fields@)[i as int].1 == struct_dec.fields@[i as int].1);
                        let x = typed_inits(st, d, name, cur2.subrange(i + 1, n as int), i + 1).1;
                        assert(cur.subrange(0, i as int) + (seq![a] + x) =~= cur2.subrange(0, i + 1) + x);
                    }
                },
            }
            i = i + 1;
        }
        proof {
            lemma_exprs_view_len(struct_literal.expressions@);
            assert(exprs_view(struct_literal.expressions@).subrange(0, n as int) =~= exprs_view(struct_literal.expressions@));
            assert(exprs_view(struct_literal.expressions@).subrange(n as int, n as int) =~= Seq::<crate::parser::visitors::SExpr>::empty());
        }
        Ok(ValueType::Struct(struct_dec.struct_name))
    }
    /// Checks a call: the function must be declared, and when arguments are
    /// given, their number and types must fit its signature.
    pub fn visit_call(&mut self, call_expr: &mut Call) -> (r: TypeCheckerReturn)
        requires
            old(self).wf(),
            !(typed_expr(old(self)@, expr_view(Expression::Call(*old(call_expr)))).0 is Aborted),
        ensures
            *final(self) == *old(self),
            verdict_of(r) == typed_expr(old(self)@, expr_view(Expression::Call(*old(call_expr)))).0,
            expr_view(Expression::Call(*final(call_expr))) == typed_expr(
                old(self)@,
                expr_view(Expression::Call(*old(call_expr))),
            ).1,
        decreases expr_size(expr_view(Expression::Call(*old(call_expr)))), 4nat,
    {
        proof {
            reveal(typed_expr);
            reveal(typed_args);
            reveal(typed_inits);
            reveal(typed_struct_literal);
            reveal(expr_view);
            reveal(exprs_view);
        }
        proof {
            self.reveal_view();
        }
        let ghost st = self@;
        if !self.function_table.contains_key(&call_expr.name) {
            return Err(around("Function '", call_expr.name.as_str(), "' is not declared in this module."));
        }
        let name = call_expr.name.clone();
        let (return_type, fn_name, arg_types) = match self.function_table.get(&name) {
            Some(f) => (f.return_type.clone(), f.name.clone(), clone_types(&f.args_type)),
            None => return Err(String::new()),
        };
        let ghost sig = st.functions[name@];
        assert(sig.ret == return_type && sig.name == fn_name@ && sig.args == arg_types@);
        match &mut call_expr.args {
            Some(args) => {
                proof {
                    lemma_exprs_view_len(args@);
                }
                if args.len() != arg_types.len() {
                    return Err(arg_count(arg_types.len(), &fn_name, args.len()));
                }
                assert(expr_size(expr_view(Expression::Call(*old(call_expr)))) == 1 + exprs_size(exprs_view(args@)));
                match self.check_call_args(args, &arg_types, &fn_name, Ghost(sig)) {
                    Ok(()) => {},
                    Err(m) => return Err(m),
                }
            },
            None => {},
        }
        call_expr.ty = Some(return_type.clone());
        Ok(return_type)
    }

    /// Checks the arguments of a call, in order, against the argument types
    /// of the function called.
    pub(crate) fn check_call_args(
        &mut self,
        args: &mut Vec<Expression>,
        arg_types: &Vec<ValueType>,
        fn_name: &String,
        Ghost(sig): Ghost<SSig>,
    ) -> (r: Result<(), String>)
        requires
            old(self).wf(),
            sig.args == arg_types@,
            sig.name == fn_name@,
            arg_types@.len() == old(args)@.len(),
            !(typed_args(old(self)@, sig, exprs_view(old(args)@), 0).0 is Aborted),
        ensures
            *final(self) == *old(self),
            match r {
                Ok(_) => typed_args(old(self)@, sig, exprs_view(old(args)@), 0).0 is Typed,
                Err(m) => typed_args(old(self)@, sig, exprs_view(old(args)@), 0).0 == Verdict::Rejected(m@),
            },
            exprs_view(final(args)@) == typed_args(old(self)@, sig, exprs_view(old(args)@), 0).1,
        decreases 1 + exprs_size(exprs_view(old(args)@)), 3nat,
    {
        proof {
            reveal(typed_expr);
            reveal(typed_args);
            reveal(typed_inits);
            reveal(typed_struct_literal);
            reveal(expr_view);
            reveal(exprs_view);
        }
        let ghost st = self@;
        proof {
            lemma_exprs_view_len(args@);
        }
        let n = args.len();
        let ghost orig_args = args@;
        let ghost orig = exprs_view(args@);
        let ghost goal = typed_args(st, sig, orig, 0);
        let mut i: usize = 0;
        assert(orig.subrange(0, n as int) =~= orig);
        assert(orig.subrange(0, 0) + goal.1 =~= goal.1);
        while i < n
            invariant
                old(self).wf(),
                *self == *old(self),
                st == old(self)@,
                sig.args == arg_types@,
                sig.name == fn_name@,
                arg_types@.len() == n,
                orig_args == old(args)@,
                orig == exprs_view(orig_args),
                orig_args.len() == n,
                args@.len() == n,
                i <= n,
                forall|j: int| i <= j < n ==> #[trigger] args@[j] == orig_args[j],
                goal == typed_args(st, sig, orig, 0),
                !(goal.0 is Aborted),
                goal.0 == typed_args(st, sig, exprs_view(args@).subrange(i as int, n as int), i as int).0,
                goal.1 == exprs_view(args@).subrange(0, i as int) + typed_args(
                    st,
                    sig,
                    exprs_view(args@).subrange(i as int, n as int),
                    i as int,
                ).1,
            decreases n - i,
        {
            proof {
                reveal(typed_expr);
                reveal(typed_args);
                reveal(typed_inits);
                reveal(typed_struct_literal);
                reveal(expr_view);
                reveal(exprs_view);
            }
            let ghost before = args@;
            let ghost cur = exprs_view(before);
            let ghost rest = cur.subrange(i as int, n as int);
            proof {
                lemma_exprs_view_len(before);
                lemma_exprs_view_len(orig_args);
                lemma_exprs_size(orig, i as int);
                assert(rest[0] == cur[i as int]);
                assert(args@[i as int] == orig_args[i as int]);
            }
            let expr_type = self.check_expr(&mut args[i]);
            let ghost a = typed_expr(st, cur[i as int]).1;
            let ghost cur2 = exprs_view(args@);
            proof {
                lemma_exprs_view_update(before, i as int, args@[i as int]);
                assert(args@ == before.update(i as int, args@[i as int]));
                assert(cur2 == cur.update(i as int, a));
                assert(rest.subrange(1, rest.len() as int) =~= cur2.subrange(i + 1, n as int));
                assert(cur2.subrange(0, i + 1) =~= cur.subrange(0, i as int).push(a));
            }
            match expr_type {
                Err(m) => {
                    proof {
                        assert(cur2 =~= cur.subrange(0, i as int) + (seq![a] + rest.subrange(1, rest.len() as int)));
                    }
                    return Err(m);
                },
                Ok(t) => {
                    if !ValueType::is_compatible(&t, &arg_types[i]) {
                        let m = bad_argument(&t, &arg_types[i], fn_name);
                        proof {
                            assert(cur2 =~= cur.subrange(0, i as int) + (seq![a] + rest.subrange(1, rest.len() as int)));
                        }
                        return Err(m);
                    }
                    proof {
                        let x = typed_args(st, sig, cur2.subrange(i + 1, n as int), i + 1).1;
                        assert(cur.subrange(0, i as int) + (seq![a] + x) =~= cur2.subrange(0, i + 1) + x);
                    }
                },
            }
            i = i + 1;
        }
        proof {
            lemma_exprs_view_len(args@);
            assert(exprs_view(args@).subrange(0, n as int) =~= exprs_view(args@));
            assert(exprs_view(args@).subrange(n as int, n as int) =~= Seq::<crate::parser::visitors::SExpr>::empty());
        }
        Ok(())
    }

    /// Checks `object.member`: the object must be a struct or a pointer to
    /// one, and the struct must have the field. The type recorded in the tree
    /// is the struct's.
    pub fn visit_member_access(&mut self, member_access: &mut MemberAccess) -> (r: TypeCheckerReturn)
        requires
            old(self).wf(),
            !(typed_expr(old(self)@, expr_view(Expression::MemberAccess(*old(member_access)))).0 is Aborted),
        ensures
            *final(self) == *old(self),
            verdict_of(r) == typed_expr(old(self)@, expr_view(Expression::MemberAccess(*old(member_access)))).0,
            expr_view(Expression::MemberAccess(*final(member_access))) == typed_expr(
                old(self)@,
                expr_view(Expression::MemberAccess(*old(member_access))),
            ).1,
        decreases expr_size(expr_view(Expression::MemberAccess(*old(member_access)))), 4nat,
    {
        proof {
            reveal(typed_expr);
            reveal(typed_args);
            reveal(typed_inits);
            reveal(typed_struct_literal);
            reveal(expr_view);
            reveal(exprs_view);
        }
        proof {
            self.reveal_view();
        }
        let object_ty = match self.visit_boxed_expr(&mut member_access.object) {
            Ok(t) => t,
            Err(m) => return Err(m),
        };
        let s = match &object_ty {
            ValueType::Struct(s) => s.clone(),
            ValueType::Pointer(ty) => match &**ty {
                ValueType::Struct(s) => s.clone(),
                _ => {
                    return Err(text("Member access on a non-struct type"));
                },
            },
            _ => {
                return Err(text("Member access on a non-struct type"));
            },
        };
        member_access.ty = Some(ValueType::Struct(s.clone()));
        let declaration_type = match self.structs_table.get(&s) {
            Some(d) => d,
            None => {
                return Err(String::new());
            },
        };
        match find_field(&declaration_type.fields, &member_access.member) {
            Some(t) => Ok(t.clone()),
            None => Err(no_field(&declaration_type.struct_name, &member_access.member)),
        }
    }
}

/// The type of the first field named `member`.
fn find_field<'a>(fields: &'a Vec<StructField>, member: &String) -> (r: Option<&'a ValueType>)
    ensures
        match r {
            Some(t) => field_type(args_view(fields@), member@) == Some(*t),
            None => field_type(args_view(fields@), member@) is None,
        },
{
    let ghost fv = args_view(fields@);
    let n = fields.len();
    let mut i: usize = 0;
    assert(fv.subrange(0, n as int) =~= fv);
    while i < n
        invariant
            n == fields@.len(),
            fv == args_view(fields@),
            i <= n,
            field_type(fv, member@) == field_type(fv.subrange(i as int, n as int), member@),
        decreases n - i,
    {
        let ghost rest = fv.subrange(i as int, n as int);
        assert(rest[0] == fv[i as int]);
        assert(rest.subrange(1, rest.len() as int) =~= fv.subrange(i + 1, n as int));
        if fields[i].0.eq(member) {
            return Some(&fields[i].1);
        }
        i = i + 1;
    }
    None
}

/// A copy of a list of types.
fn clone_types(v: &Vec<ValueType>) -> (r: Vec<ValueType>)
    ensures
        r@ == v@,
{
    let mut r: Vec<ValueType> = Vec::new();
    let mut i: usize = 0;
    while i < v.len()
        invariant
            i <= v@.len(),
            r@ == v@.subrange(0, i as int),
        decreases v@.len() - i,
    {
        r.push(v[i].clone());
        proof {
            assert(v@.subrange(0, i + 1) =~= v@.subrange(0, i as int).push(v@[i as int]));
        }
        i = i + 1;
    }
    assert(v@.subrange(0, v@.len() as int) =~= v@);
    r
}

} // verus!
