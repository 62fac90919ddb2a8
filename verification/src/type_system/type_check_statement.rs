use vstd::prelude::*;
use crate::parser::visitors::{
    decl_view, loc, BlockStatement, Expression, ForStatement, FunctionStatement, IfStatement, ReturnStatement, Statement,
    StructStatement, VariableAssignment, VariableDeclaration, WhileStatement, ArrayAccess, SStmt,
    block_view, expr_view, exprs_view, stmt_view, stmts_view, lemma_stmts_view_len, lemma_stmts_view_update,
};
use crate::type_system::messages::{around, around_type, bad_declaration, bad_member_assignment, text, two_types};
use crate::type_system::type_check::{stmt_checked, verdict_of, FunctionSignature, TypeChecker, TypeCheckerReturn};
use crate::type_system::names::NameMap;
use crate::type_system::typing::{
    arg_types, block_depth, block_size, checkable, has_return, lemma_stmts_depth, lemma_stmts_size, loop_depth,
    stmt_size, stmts_depth, stmts_size, typed_array_assign, typed_block, typed_decl, typed_expr,
    typed_simple_assign, typed_stmt, typed_stmts, typed_for_body, CheckState, Verdict,
};
use crate::value_type::ValueType;

verus! {

/// Whether one of the statements is a `return`.
fn has_return_stmt(stmts: &Vec<Statement>) -> (r: bool)
    ensures
        r == has_return(stmts_view(stmts@)),
{
    proof {
        lemma_stmts_view_len(stmts@);
    }
    let mut i: usize = 0;
    while i < stmts.len()
        invariant
            i <= stmts@.len(),
            stmts_view(stmts@).len() == stmts@.len(),
            forall|j: int| 0 <= j < stmts@.len() ==> stmts_view(stmts@)[j] == stmt_view(#[trigger] stmts@[j]),
            forall|j: int| 0 <= j < i ==> !(#[trigger] stmts_view(stmts@)[j] is Return),
        decreases stmts@.len() - i,
    {
        if matches!(stmts[i], Statement::Return(_)) {
            assert(stmts_view(stmts@)[i as int] is Return);
            return true;
        }
        assert(!(stmts_view(stmts@)[i as int] is Return));
        i = i + 1;
    }
    false
}

/// The types of a function's arguments.
fn arg_type_list(args: &Vec<(String, ValueType)>) -> (r: Vec<ValueType>)
    ensures
        r@ == arg_types(Some(crate::parser::visitors::args_view(args@))),
{
    let mut r: Vec<ValueType> = Vec::new();
    let mut i: usize = 0;
    while i < args.len()
        invariant
            i <= args@.len(),
            r@.len() == i,
            forall|j: int| 0 <= j < i ==> r@[j] == (#[trigger] args@[j]).1,
        decreases args@.len() - i,
    {
        r.push(args[i].1.clone());
        i = i + 1;
    }
    assert(r@ =~= arg_types(Some(crate::parser::visitors::args_view(args@))));
    r
}

impl TypeChecker {
    /// Checks statements in turn, up to the first that fails; `Number` when
    /// all of them check.
    #[verifier::rlimit(60)]
    pub fn check_ast_type(&mut self, stmts: &mut Vec<Statement>) -> (r: TypeCheckerReturn)
        requires
            old(self).wf(),
            !(typed_stmts(old(self)@, stmts_view(old(stmts)@)).0 is Aborted),
            old(self)@.loop_count + stmts_depth(stmts_view(old(stmts)@)) <= u32::MAX,
        ensures
            final(self).wf(),
            verdict_of(r) == typed_stmts(old(self)@, stmts_view(old(stmts)@)).0,
            final(self)@ == typed_stmts(old(self)@, stmts_view(old(stmts)@)).1,
            stmts_view(final(stmts)@) == typed_stmts(old(self)@, stmts_view(old(stmts)@)).2,
            final(self)@.scopes.len() >= old(self)@.scopes.len(),
            r is Ok ==> final(self)@.loop_count == old(self)@.loop_count,
        decreases stmts_size(stmts_view(old(stmts)@)), 4nat,
    {
        let ghost st0 = self@;
        proof {
            lemma_stmts_view_len(stmts@);
        }
        let n = stmts.len();
        let ghost orig_stmts = stmts@;
        let ghost orig = stmts_view(stmts@);
        let ghost goal = typed_stmts(st0, orig);
        let mut i: usize = 0;
        assert(orig.subrange(0, n as int) =~= orig);
        assert(orig.subrange(0, 0) + goal.2 =~= goal.2);
        while i < n
            invariant
                self.wf(),
                st0 == old(self)@,
                orig_stmts == old(stmts)@,
                orig == stmts_view(orig_stmts),
                orig_stmts.len() == n,
                stmts@.len() == n,
                i <= n,
                forall|j: int| i <= j < n ==> #[trigger] stmts@[j] == orig_stmts[j],
                goal == typed_stmts(st0, orig),
                !(goal.0 is Aborted),
                st0.loop_count + stmts_depth(orig) <= u32::MAX,
                self@.loop_count == st0.loop_count,
                self@.scopes.len() >= st0.scopes.len(),
                goal.0 == typed_stmts(self@, stmts_view(stmts@).subrange(i as int, n as int)).0,
                goal.1 == typed_stmts(self@, stmts_view(stmts@).subrange(i as int, n as int)).1,
                goal.2 == stmts_view(stmts@).subrange(0, i as int) + typed_stmts(
                    self@,
                    stmts_view(stmts@).subrange(i as int, n as int),
                ).2,
            decreases n - i,
        {
            let ghost before = stmts@;
            let ghost cur = stmts_view(before);
            let ghost rest = cur.subrange(i as int, n as int);
            let ghost sti = self@;
            proof {
                lemma_stmts_view_len(before);
                lemma_stmts_view_len(orig_stmts);
                lemma_stmts_size(orig, i as int);
                lemma_stmts_depth(orig, i as int);
                assert(rest[0] == cur[i as int]);
                assert(stmts@[i as int] == orig_stmts[i as int]);
                assert forall|k: int| i <= k < n implies #[trigger] cur[k] == orig[k] by {
                    assert(stmts@[k] == orig_stmts[k]);
                }
                assert(rest =~= orig.subrange(i as int, n as int));
            }
            let res = self.visit_statement(&mut stmts[i]);
            let ghost a = typed_stmt(sti, cur[i as int]).2;
            let ghost cur2 = stmts_view(stmts@);
            proof {
                lemma_stmts_view_update(before, i as int, stmts@[i as int]);
                assert(stmts@ == before.update(i as int, stmts@[i as int]));
                assert(cur2 == cur.update(i as int, a));
                assert(rest.subrange(1, rest.len() as int) =~= cur2.subrange(i + 1, n as int));
                assert(cur2.subrange(0, i + 1) =~= cur.subrange(0, i as int).push(a));
            }
            match res {
                Err(m) => {
                    proof {
                        assert(cur2 =~= cur.subrange(0, i as int) + (seq![a] + rest.subrange(1, rest.len() as int)));
                    }
                    return Err(m);
                },
                Ok(_) => {
                    proof {
                        let x = typed_stmts(self@, cur2.subrange(i + 1, n as int)).2;
                        assert(cur.subrange(0, i as int) + (seq![a] + x) =~= cur2.subrange(0, i + 1) + x);
                        lemma_stmts_depth(orig, i as int);
                        if i + 1 < n {
                            lemma_stmts_depth(orig, i + 1);
                        }
                    }
                },
            }
            i = i + 1;
        }
        proof {
            lemma_stmts_view_len(stmts@);
            assert(stmts_view(stmts@).subrange(0, n as int) =~= stmts_view(stmts@));
            assert(stmts_view(stmts@).subrange(n as int, n as int) =~= Seq::<SStmt>::empty());
        }
        Ok(ValueType::Number)
    }

    /// Checks a statement.
    pub fn visit_statement(&mut self, stmt: &mut Statement) -> (r: TypeCheckerReturn)
        requires
            old(self).wf(),
            checkable(old(self)@, stmt_view(*old(stmt))),
        ensures
            final(self).wf(),
            stmt_checked(old(self)@, stmt_view(*old(stmt)), r, final(self)@, stmt_view(*final(stmt))),
        decreases stmt_size(stmt_view(*old(stmt))), 3nat,
    {
        match stmt {
            Statement::Expression(expr) => self.visit_expression_statement(expr),
            Statement::VariableDeclaration(var_dec) => self.visit_declaration_statement(var_dec),
            Statement::VariableAssignment(var_ass) => self.visit_assignment_statement(var_ass),
            Statement::Function(f) => self.visit_function_statement(f),
            Statement::Block(b) => self.visit_block_statement(b),
            Statement::Return(ret) => self.visit_return_statement(ret),
            Statement::IfStatement(if_stmt) => self.visit_if_statement(if_stmt),
            Statement::WhileStatement(while_stmt) => self.visit_while_statement(while_stmt),
            Statement::ForStatement(for_stmt) => self.visit_for_statement(for_stmt),
            Statement::BreakStatement(_) => self.visit_break_statement(),
            Statement::Struct(struct_stmt) => self.visit_struct_statement(struct_stmt),
            Statement::Import(_) => Err(String::new()),
        }
    }

    /// Checks an expression used as a statement.
    pub fn visit_expression_statement(&mut self, expr: &mut Expression) -> (r: TypeCheckerReturn)
        requires
            old(self).wf(),
            checkable(old(self)@, stmt_view(Statement::Expression(*old(expr)))),
        ensures
            final(self).wf(),
            stmt_checked(
                old(self)@,
                stmt_view(Statement::Expression(*old(expr))),
                r,
                final(self)@,
                stmt_view(Statement::Expression(*final(expr))),
            ),
            *final(self) == *old(self),
            verdict_of(r) == typed_expr(old(self)@, expr_view(*old(expr))).0,
            expr_view(*final(expr)) == typed_expr(old(self)@, expr_view(*old(expr))).1,
    {
        self.check_expr(expr)
    }

    /// Checks a declaration and declares the variable.
    pub fn visit_declaration_statement(&mut self, expr: &mut VariableDeclaration) -> (r: TypeCheckerReturn)
        requires
            old(self).wf(),
            checkable(old(self)@, stmt_view(Statement::VariableDeclaration(*old(expr)))),
        ensures
            final(self).wf(),
            stmt_checked(
                old(self)@,
                stmt_view(Statement::VariableDeclaration(*old(expr))),
                r,
                final(self)@,
                stmt_view(Statement::VariableDeclaration(*final(expr))),
            ),
    {
        self.check_declaration(expr)
    }

    /// Checks a declaration: its initial value must fit its type, and no
    /// scope may have the name yet; the variable enters the innermost scope.
    fn check_declaration(&mut self, expr: &mut VariableDeclaration) -> (r: TypeCheckerReturn)
        requires
            old(self).wf(),
            !(typed_decl(old(self)@, decl_view(*old(expr))).0 is Aborted),
        ensures
            final(self).wf(),
            verdict_of(r) == typed_decl(old(self)@, decl_view(*old(expr))).0,
            final(self)@ == typed_decl(old(self)@, decl_view(*old(expr))).1,
            decl_view(*final(expr)) == typed_decl(old(self)@, decl_view(*old(expr))).2,
    {
        let init_type = match self.check_expr(&mut expr.init_expr) {
            Ok(t) => t,
            Err(m) => return Err(m),
        };
        if !ValueType::is_compatible_for_init(&expr.variable_type, &init_type) {
            return Err(bad_declaration(&expr.identifier, &expr.variable_type, &init_type));
        }
        if self.find_variable_type(&expr.identifier).is_some() {
            return Err(around("Redifinition of variable '", expr.identifier.as_str(), "'."));
        }
        self.declare(&expr.identifier, &expr.variable_type);
        Ok(init_type)
    }

    /// Checks `array[index] = rhs`: the value first, then the array.
    pub fn check_array_element_assignment(&mut self, access: &mut ArrayAccess, rhs: &mut Expression) -> (r: TypeCheckerReturn)
        requires
            old(self).wf(),
            !(typed_array_assign(old(self)@, expr_view(*old(access).identifier), expr_view(*old(rhs))).0 is Aborted),
        ensures
            *final(self) == *old(self),
            verdict_of(r) == typed_array_assign(old(self)@, expr_view(*old(access).identifier), expr_view(*old(rhs))).0,
            expr_view(*final(access).identifier) == typed_array_assign(
                old(self)@,
                expr_view(*old(access).identifier),
                expr_view(*old(rhs)),
            ).1,
            expr_view(*final(rhs)) == typed_array_assign(
                old(self)@,
                expr_view(*old(access).identifier),
                expr_view(*old(rhs)),
            ).2,
            final(access).ty == old(access).ty,
            final(access).is_lvalue == old(access).is_lvalue,
            final(access).index == old(access).index,
            final(access).line == old(access).line,
            final(access).column == old(access).column,
            final(access).filename == old(access).filename,
    {
        let rhs_ty = match self.check_expr(rhs) {
            Ok(t) => t,
            Err(m) => return Err(m),
        };
        let array_ty = match self.visit_boxed_expr(&mut access.identifier) {
            Ok(t) => t,
            Err(m) => return Err(m),
        };
        match &array_ty {
            ValueType::Array(array) => {
                if ValueType::is_compatible(&array.array_type, &rhs_ty) {
                    Ok(rhs_ty)
                } else {
                    Err(two_types(
                        "Can't assign expression of type '",
                        &rhs_ty,
                        "' to array element of type '",
                        &array.array_type,
                        "'",
                    ))
                }
            },
            ValueType::Pointer(ptr) => {
                if ValueType::is_compatible(ptr, &rhs_ty) {
                    Ok(rhs_ty)
                } else {
                    Err(two_types("Can't assign expression of type '", &rhs_ty, "' to array element of type '", &array_ty, "'"))
                }
            },
            ValueType::String => {
                if !rhs_ty.eq(&ValueType::Char) {
                    Err(around_type(
                        "Can't assign expression of type '",
                        &rhs_ty,
                        "' to string element. Expression must be a 'char'",
                    ))
                } else {
                    Ok(rhs_ty)
                }
            },
            _ => Err(text("Array is not declared.")),
        }
    }

    /// Checks `identifier = rhs` for a plain target: the value first, then the
    /// target.
    pub fn check_simple_assignment(&mut self, identifier: &mut Expression, rhs: &mut Expression) -> (r: TypeCheckerReturn)
        requires
            old(self).wf(),
            !(typed_simple_assign(old(self)@, expr_view(*old(identifier)), expr_view(*old(rhs))).0 is Aborted),
        ensures
            *final(self) == *old(self),
            verdict_of(r) == typed_simple_assign(old(self)@, expr_view(*old(identifier)), expr_view(*old(rhs))).0,
            expr_view(*final(identifier)) == typed_simple_assign(
                old(self)@,
                expr_view(*old(identifier)),
                expr_view(*old(rhs)),
            ).1,
            expr_view(*final(rhs)) == typed_simple_assign(old(self)@, expr_view(*old(identifier)), expr_view(*old(rhs))).2,
    {
        let expr_type = match self.check_expr(rhs) {
            Ok(t) => t,
            Err(m) => return Err(m),
        };
        let variable_type = match self.check_expr(identifier) {
            Ok(t) => t,
            Err(m) => return Err(m),
        };
        if !ValueType::is_compatible(&expr_type, &variable_type) {
            return Err(two_types("Cannot assign expression of type '", &expr_type, "' of type '", &variable_type, "'."));
        }
        Ok(expr_type)
    }

    /// Checks an assignment.
    pub fn visit_assignment_statement(&mut self, expr: &mut VariableAssignment) -> (r: TypeCheckerReturn)
        requires
            old(self).wf(),
            checkable(old(self)@, stmt_view(Statement::VariableAssignment(*old(expr)))),
        ensures
            final(self).wf(),
            stmt_checked(
                old(self)@,
                stmt_view(Statement::VariableAssignment(*old(expr))),
                r,
                final(self)@,
                stmt_view(Statement::VariableAssignment(*final(expr))),
            ),
    {
        proof {
            self.reveal_view();
            reveal(expr_view);
            reveal(exprs_view);
        }
        if !matches!(
            expr.identifier,
            Expression::ArrayAccess(_) | Expression::DeReference(_) | Expression::MemberAccess(_)
        ) {
            proof {
                self.reveal_view();
            }
            self.is_lvalue = true;
            proof {
                self.reveal_view();
            }
            let result = self.check_simple_assignment(&mut expr.identifier, &mut expr.new_value);
            self.is_lvalue = false;
            proof {
                self.reveal_view();
            }
            return result;
        }
        match &mut expr.identifier {
            Expression::ArrayAccess(access) => {
                access.is_lvalue = true;
                self.check_array_element_assignment(access, &mut expr.new_value)
            },
            Expression::DeReference(deref) => {
                deref.is_lvalue = true;
                let deref_ty = match self.visit_dereference_expression(deref) {
                    Ok(t) => t,
                    Err(m) => return Err(m),
                };
                let init_ty = match self.check_expr(&mut expr.new_value) {
                    Ok(t) => t,
                    Err(m) => return Err(m),
                };
                if !ValueType::is_compatible(&deref_ty, &init_ty) {
                    return Err(two_types(
                        "Cannot assign type '",
                        &init_ty,
                        "' with a dereferenced pointer of type '",
                        &deref_ty,
                        "'",
                    ));
                }
                Ok(deref_ty)
            },
            Expression::MemberAccess(member_access) => {
                proof {
                    self.reveal_view();
                }
                self.is_lvalue = true;
                proof {
                    self.reveal_view();
                }
                let member_ty = match self.visit_member_access(member_access) {
                    Ok(t) => t,
                    Err(m) => return Err(m),
                };
                let init_ty = match self.check_expr(&mut expr.new_value) {
                    Ok(t) => t,
                    Err(m) => return Err(m),
                };
                proof {
                    self.reveal_view();
                }
                self.is_lvalue = false;
                proof {
                    self.reveal_view();
                }
                if !ValueType::is_compatible(&member_ty, &init_ty) {
                    let m = bad_member_assignment(&member_access.member, &member_ty, &init_ty);
                    proof {
                        crate::type_system::typing::lemma_member_kept(old(self)@.with_lvalue(true), old(expr).identifier@);
                    }
                    return Err(m);
                }
                Ok(member_ty)
            },
            _ => Err(String::new()),
        }
    }

    /// Checks a function: declares it, then checks its body with its
    /// arguments in a scope of their own. A function that returns a value
    /// must have a `return` among the statements of its body.
    #[verifier::rlimit(60)]
    pub fn visit_function_statement(&mut self, expr: &mut FunctionStatement) -> (r: TypeCheckerReturn)
        requires
            old(self).wf(),
            checkable(old(self)@, stmt_view(Statement::Function(*old(expr)))),
        ensures
            final(self).wf(),
            stmt_checked(
                old(self)@,
                stmt_view(Statement::Function(*old(expr))),
                r,
                final(self)@,
                stmt_view(Statement::Function(*final(expr))),
            ),
        decreases stmt_size(stmt_view(Statement::Function(*old(expr)))), 2nat,
    {
        proof {
            self.reveal_view();
        }
        if self.in_function.is_some() {
            return Err(text("Nested function is not allowed."));
        }
        if expr.is_exported && expr.block.is_none() {
            return Err(around("Exported function '", expr.callee.as_str(), "' has no body."));
        }
        let ghost st0 = self@;
        let ghost fview = stmt_view(Statement::Function(*old(expr)));
        self.declare_global(&expr.callee, &expr.return_type);
        let ghost st_a = self@;
        proof {
            self.reveal_view();
        }
        self.type_table.add_variable(&expr.callee, &ValueType::Function);
        proof {
            self.reveal_view();
            assert(self@ == CheckState { types: st_a.types.insert(expr.callee@, ValueType::Function), ..st_a });
        }
        let ghost st_b = self@;
        let args_type = match &expr.args {
            Some(a) => arg_type_list(a),
            None => Vec::new(),
        };
        proof {
            assert(args_type@ =~= arg_types(fview->Function_args));
        }
        let sig = FunctionSignature { args_type, name: expr.callee.clone(), return_type: expr.return_type.clone() };
        let ghost sv = crate::type_system::type_check::sig_view(sig);
        self.function_table.insert(expr.callee.clone(), sig);
        proof {
            self.reveal_view();
            assert(self@.functions =~= st_b.functions.insert(expr.callee@, sv));
            assert(self@ == CheckState { functions: st_b.functions.insert(expr.callee@, sv), ..st_b });
        }
        let ghost st_c = self@;
        match &expr.args {
            Some(a) => {
                self.add_variables_in_scope(a);
                proof {
                    crate::type_system::typing::lemma_declare_all(st_c.push_scope(), crate::parser::visitors::args_view(a@));
                }
            },
            None => {},
        }
        proof {
            self.reveal_view();
            assert(self@.loop_count == st0.loop_count);
            assert(self@.scopes.len() >= st0.scopes.len());
        }
        self.in_function = Some(expr.return_type.clone());
        proof {
            self.reveal_view();
            assert(self.wf());
            match fview->Function_args {
                Some(a) => crate::type_system::typing::lemma_declare_all(st_b.push_scope(), a),
                None => {},
            }
            assert(self@ == crate::type_system::typing::enter_function(
                st0,
                fview->Function_callee,
                fview->Function_args,
                expr.return_type,
            ));
        }
        match &mut expr.block {
            Some(b) => {
                proof {
                    assert(fview->Function_block == Some(block_view(*b)));
                    assert(self@.loop_count + block_depth(block_view(*b)) <= u32::MAX);
                    assert(!(typed_block(self@, block_view(*b)).0 is Aborted));
                }
                match self.visit_block_statement(b) {
                    Ok(_) => {},
                    Err(m) => return Err(m),
                }
                if expr.args.is_some() {
                    self.pop_scope();
                }
                if !expr.return_type.eq(&ValueType::Void) {
                    if has_return_stmt(&b.statements) {
                        proof {
                            self.reveal_view();
                        }
                        self.in_function = None;
                        proof {
                            self.reveal_view();
                        }
                        return Ok(expr.return_type.clone());
                    }
                    proof {
                        self.reveal_view();
                    }
                    self.in_function = None;
                    proof {
                        self.reveal_view();
                    }
                    return Err(around("Function '", expr.callee.as_str(), "' returns no values"));
                }
            },
            None => {
                proof {
                    self.reveal_view();
                }
                self.in_function = None;
            },
        }
        proof {
            self.reveal_view();
        }
        self.in_function = None;
        proof {
            self.reveal_view();
        }
        Ok(expr.return_type.clone())
    }

    /// Checks a block in a scope of its own.
    pub fn visit_block_statement(&mut self, expr: &mut BlockStatement) -> (r: TypeCheckerReturn)
        requires
            old(self).wf(),
            !(typed_block(old(self)@, block_view(*old(expr))).0 is Aborted),
            old(self)@.loop_count + block_depth(block_view(*old(expr))) <= u32::MAX,
        ensures
            final(self).wf(),
            verdict_of(r) == typed_block(old(self)@, block_view(*old(expr))).0,
            final(self)@ == typed_block(old(self)@, block_view(*old(expr))).1,
            block_view(*final(expr)) == typed_block(old(self)@, block_view(*old(expr))).2,
            final(self)@.scopes.len() >= old(self)@.scopes.len(),
            r is Ok ==> final(self)@.loop_count == old(self)@.loop_count,
        decreases block_size(block_view(*old(expr))), 1nat,
    {
        proof {
            self.reveal_view();
        }
        self.push_scope();
        match self.check_ast_type(&mut expr.statements) {
            Ok(_) => {},
            Err(m) => return Err(m),
        }
        self.pop_scope();
        Ok(ValueType::Void)
    }

    /// Checks `return e;`: only in a function, and `e` must fit its return
    /// type.
    pub fn visit_return_statement(&mut self, return_stmt: &mut ReturnStatement) -> (r: TypeCheckerReturn)
        requires
            old(self).wf(),
            checkable(old(self)@, stmt_view(Statement::Return(*old(return_stmt)))),
        ensures
            final(self).wf(),
            stmt_checked(
                old(self)@,
                stmt_view(Statement::Return(*old(return_stmt))),
                r,
                final(self)@,
                stmt_view(Statement::Return(*final(return_stmt))),
            ),
    {
        proof {
            self.reveal_view();
        }
        if self.in_function.is_none() {
            return Err(text("Return statement is valid only in a function."));
        }
        let expr_type = match self.check_expr(&mut return_stmt.expr) {
            Ok(t) => t,
            Err(m) => return Err(m),
        };
        match &self.in_function {
            Some(return_type) => {
                if !ValueType::is_compatible(&expr_type, return_type) {
                    return Err(two_types(
                        "Returned '",
                        &expr_type,
                        "' is not compatible with function return type '",
                        return_type,
                        "'",
                    ));
                }
                Ok(expr_type)
            },
            None => Err(String::new()),
        }
    }

    /// Checks `if cond { } else { }`: the condition must be a `bool`.
    pub fn visit_if_statement(&mut self, if_stmt: &mut IfStatement) -> (r: TypeCheckerReturn)
        requires
            old(self).wf(),
            checkable(old(self)@, stmt_view(Statement::IfStatement(*old(if_stmt)))),
        ensures
            final(self).wf(),
            stmt_checked(
                old(self)@,
                stmt_view(Statement::IfStatement(*old(if_stmt))),
                r,
                final(self)@,
                stmt_view(Statement::IfStatement(*final(if_stmt))),
            ),
        decreases stmt_size(stmt_view(Statement::IfStatement(*old(if_stmt)))), 2nat,
    {
        let condition_type = match self.check_expr(&mut if_stmt.condition) {
            Ok(t) => t,
            Err(m) => return Err(m),
        };
        if !condition_type.eq(&ValueType::Bool) {
            return Err(around_type("If condition has type '", &condition_type, "' but the type bool is needed."));
        }
        match self.visit_block_statement(&mut if_stmt.then_branch) {
            Ok(_) => {},
            Err(m) => return Err(m),
        }
        match &mut if_stmt.else_branch {
            Some(else_branch) => match self.visit_block_statement(else_branch) {
                Ok(_) => {},
                Err(m) => return Err(m),
            },
            None => {},
        }
        Ok(ValueType::Void)
    }

    /// Checks `while cond { }`: the condition must be a `bool`.
    pub fn visit_while_statement(&mut self, while_stmt: &mut WhileStatement) -> (r: TypeCheckerReturn)
        requires
            old(self).wf(),
            checkable(old(self)@, stmt_view(Statement::WhileStatement(*old(while_stmt)))),
        ensures
            final(self).wf(),
            stmt_checked(
                old(self)@,
                stmt_view(Statement::WhileStatement(*old(while_stmt))),
                r,
                final(self)@,
                stmt_view(Statement::WhileStatement(*final(while_stmt))),
            ),
        decreases stmt_size(stmt_view(Statement::WhileStatement(*old(while_stmt)))), 2nat,
    {
        proof {
            self.reveal_view();
        }
        let condition_type = match self.check_expr(&mut while_stmt.condition) {
            Ok(t) => t,
            Err(m) => return Err(m),
        };
        proof {
            self.reveal_view();
        }
        self.loop_count += 1;
        proof {
            self.reveal_view();
        }
        if !condition_type.eq(&ValueType::Bool) {
            return Err(around_type("While condition has type '", &condition_type, "' but the type bool is needed."));
        }
        match self.visit_block_statement(&mut while_stmt.loop_block) {
            Ok(_) => {},
            Err(m) => return Err(m),
        }
        proof {
            self.reveal_view();
        }
        self.loop_count -= 1;
        proof {
            self.reveal_view();
        }
        Ok(ValueType::Void)
    }

    /// Checks `for let i: t = e; cond; next; { }` in a scope of its own: the
    /// variable must be a `number` or a `real`, the condition a `bool`.
    pub fn visit_for_statement(&mut self, for_stmt: &mut ForStatement) -> (r: TypeCheckerReturn)
        requires
            old(self).wf(),
            checkable(old(self)@, stmt_view(Statement::ForStatement(*old(for_stmt)))),
        ensures
            final(self).wf(),
            stmt_checked(
                old(self)@,
                stmt_view(Statement::ForStatement(*old(for_stmt))),
                r,
                final(self)@,
                stmt_view(Statement::ForStatement(*final(for_stmt))),
            ),
        decreases stmt_size(stmt_view(Statement::ForStatement(*old(for_stmt)))), 2nat,
    {
        proof {
            self.reveal_view();
        }
        self.push_scope();
        proof {
            self.reveal_view();
        }
        self.loop_count += 1;
        proof {
            self.reveal_view();
        }
        let init_type = match self.check_declaration(&mut for_stmt.init_expr) {
            Ok(t) => t,
            Err(m) => return Err(m),
        };
        let loop_type = match self.check_expr(&mut for_stmt.loop_condition) {
            Ok(t) => t,
            Err(m) => return Err(m),
        };
        proof {
            self.reveal_view();
            assert(self@.scopes.len() >= 2);
            assert(self@.loop_count >= 1);
            assert(self@.loop_count + loop_depth(stmt_view(*for_stmt.next_expr)) <= u32::MAX);
            assert(self@.loop_count + block_depth(block_view(for_stmt.block_stmt)) <= u32::MAX);
            assert(!(typed_for_body(
                self@,
                init_type,
                loop_type,
                decl_view(for_stmt.init_expr),
                expr_view(for_stmt.loop_condition),
                stmt_view(*for_stmt.next_expr),
                block_view(for_stmt.block_stmt),
                loc(for_stmt.line, for_stmt.column, for_stmt.filename),
            ).0 is Aborted));
        }
        self.for_body(for_stmt, init_type, loop_type)
    }

    /// The rest of a `for` statement once its variable and condition are
    /// checked.
    fn for_body(&mut self, for_stmt: &mut ForStatement, init_type: ValueType, loop_type: ValueType) -> (r: TypeCheckerReturn)
        requires
            old(self).wf(),
            !(typed_for_body(
                old(self)@,
                init_type,
                loop_type,
                decl_view(old(for_stmt).init_expr),
                expr_view(old(for_stmt).loop_condition),
                stmt_view(*old(for_stmt).next_expr),
                block_view(old(for_stmt).block_stmt),
                loc(old(for_stmt).line, old(for_stmt).column, old(for_stmt).filename),
            ).0 is Aborted),
            old(self)@.loop_count + loop_depth(stmt_view(*old(for_stmt).next_expr)) <= u32::MAX,
            old(self)@.loop_count + block_depth(block_view(old(for_stmt).block_stmt)) <= u32::MAX,
            old(self)@.scopes.len() >= 2,
            old(self)@.loop_count >= 1,
        ensures
            final(self).wf(),
            ({
                let (v, st, s2) = typed_for_body(
                    old(self)@,
                    init_type,
                    loop_type,
                    decl_view(old(for_stmt).init_expr),
                    expr_view(old(for_stmt).loop_condition),
                    stmt_view(*old(for_stmt).next_expr),
                    block_view(old(for_stmt).block_stmt),
                    loc(old(for_stmt).line, old(for_stmt).column, old(for_stmt).filename),
                );
                &&& verdict_of(r) == v
                &&& final(self)@ == st
                &&& stmt_view(Statement::ForStatement(*final(for_stmt))) == s2
                &&& final(self)@.scopes.len() >= old(self)@.scopes.len() - 1
                &&& (r is Ok ==> final(self)@.loop_count == old(self)@.loop_count - 1)
            }),
        decreases 1 + stmt_size(stmt_view(*old(for_stmt).next_expr)) + block_size(block_view(old(for_stmt).block_stmt)), 1nat,
    {
        match self.visit_statement(&mut for_stmt.next_expr) {
            Ok(_) => {},
            Err(m) => return Err(m),
        }
        match self.visit_block_statement(&mut for_stmt.block_stmt) {
            Ok(_) => {},
            Err(m) => return Err(m),
        }
        proof {
            self.reveal_view();
        }
        self.pop_scope();
        proof {
            self.reveal_view();
        }
        self.loop_count -= 1;
        proof {
            self.reveal_view();
        }
        if !init_type.eq(&ValueType::Number) && !init_type.eq(&ValueType::Real) {
            return Err(around_type(
                "For init declaration has type '",
                &init_type,
                "' but type 'number' or 'real' is required.",
            ));
        }
        if !loop_type.eq(&ValueType::Bool) {
            return Err(around_type("For loop expression has type '", &loop_type, "' but type 'bool' is required."));
        }
        Ok(ValueType::Void)
    }

    /// Checks `break;`: only in a loop.
    pub fn visit_break_statement(&mut self) -> (r: TypeCheckerReturn)
        requires
            old(self).wf(),
        ensures
            *final(self) == *old(self),
            r == (if old(self)@.loop_count == 0 {
                Err::<ValueType, String>(r->Err_0)
            } else {
                Ok::<ValueType, String>(ValueType::Void)
            }),
            r is Err ==> r->Err_0@ == "Break statement outside a loop."@,
    {
        proof {
            self.reveal_view();
        }
        if self.loop_count == 0 {
            return Err(text("Break statement outside a loop."));
        }
        Ok(ValueType::Void)
    }

    /// Checks a struct declaration: no struct of that name may exist yet.
    pub fn visit_struct_statement(&mut self, stct: &StructStatement) -> (r: TypeCheckerReturn)
        requires
            old(self).wf(),
        ensures
            final(self).wf(),
            stmt_checked(
                old(self)@,
                stmt_view(Statement::Struct(*stct)),
                r,
                final(self)@,
                stmt_view(Statement::Struct(*stct)),
            ),
    {
        proof {
            self.reveal_view();
        }
        if self.structs_table.contains_key(&stct.struct_name) {
            return Err(around("Redefinition of struct '", stct.struct_name.as_str(), "'"));
        }
        self.structs_table.insert(stct.struct_name.clone(), stct.clone());
        self.type_table.add_struct_type(stct);
        proof {
            self.reveal_view();
            assert(self@.structs =~= old(self)@.structs.insert(stct.struct_name@, crate::type_system::typing::struct_view(*stct)));
        }
        Ok(ValueType::Struct(stct.struct_name.clone()))
    }
}

} // verus!
