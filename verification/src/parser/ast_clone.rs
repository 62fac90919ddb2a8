use vstd::prelude::*;
use crate::parser::visitors::{
    AddressOf, ArrayAccess, Binary, BinaryLogic, Bool, BlockStatement, BreakStatement, Call, Char, DeReference,
    Expression, ForStatement, FunctionStatement, Group, Identifier, IfStatement, ImportStatement, Literal,
    MemberAccess, Null, Number, Real, ReturnStatement, Statement, StringLiteral, StructLiteral, Unary,
    VariableAssignment, VariableDeclaration, WhileStatement, block_view, clone_fields, decl_view, expr_view,
    exprs_view, lemma_exprs_view_len, lemma_stmts_view_len, stmt_view, stmts_view,
};
use crate::type_system::typing::{
    block_size, expr_size, exprs_size, lemma_exprs_size, lemma_stmts_size, stmt_size, stmts_size,
};
use crate::value_type::ValueType;

verus! {

/// A copy of an optional type.
pub fn clone_opt_type(t: &Option<ValueType>) -> (r: Option<ValueType>)
    ensures
        r == *t,
{
    match t {
        Some(v) => Some(v.clone()),
        None => None,
    }
}

/// A copy of an expression.
pub fn clone_expr(e: &Expression) -> (r: Expression)
    ensures
        r@ == e@,
    decreases expr_size(e@), 1nat,
{
    proof {
        reveal(expr_view);
        reveal(exprs_view);
    }
    match e {
        Expression::Literal(l) => Expression::Literal(clone_literal(l)),
        Expression::Binary(b) => Expression::Binary(
            match b {
                Binary::Plus(l, r) => Binary::Plus(Box::new(clone_expr(l)), Box::new(clone_expr(r))),
                Binary::Minus(l, r) => Binary::Minus(Box::new(clone_expr(l)), Box::new(clone_expr(r))),
                Binary::Multiply(l, r) => Binary::Multiply(Box::new(clone_expr(l)), Box::new(clone_expr(r))),
                Binary::Divide(l, r) => Binary::Divide(Box::new(clone_expr(l)), Box::new(clone_expr(r))),
                Binary::Modulo(l, r) => Binary::Modulo(Box::new(clone_expr(l)), Box::new(clone_expr(r))),
            },
        ),
        Expression::Group(g) => Expression::Group(
            Group {
                inner_expression: Box::new(clone_expr(&g.inner_expression)),
                line: g.line,
                column: g.column,
                filename: g.filename.clone(),
            },
        ),
        Expression::BinaryLogic(b) => Expression::BinaryLogic(
            match b {
                BinaryLogic::And(l, r) => BinaryLogic::And(Box::new(clone_expr(l)), Box::new(clone_expr(r))),
                BinaryLogic::Or(l, r) => BinaryLogic::Or(Box::new(clone_expr(l)), Box::new(clone_expr(r))),
                BinaryLogic::Equal(l, r) => BinaryLogic::Equal(Box::new(clone_expr(l)), Box::new(clone_expr(r))),
                BinaryLogic::NotEqual(l, r) => BinaryLogic::NotEqual(Box::new(clone_expr(l)), Box::new(clone_expr(r))),
                BinaryLogic::More(l, r) => BinaryLogic::More(Box::new(clone_expr(l)), Box::new(clone_expr(r))),
                BinaryLogic::Less(l, r) => BinaryLogic::Less(Box::new(clone_expr(l)), Box::new(clone_expr(r))),
                BinaryLogic::MoreEqual(l, r) => BinaryLogic::MoreEqual(Box::new(clone_expr(l)), Box::new(clone_expr(r))),
                BinaryLogic::LessEqual(l, r) => BinaryLogic::LessEqual(Box::new(clone_expr(l)), Box::new(clone_expr(r))),
            },
        ),
        Expression::Unary(u) => Expression::Unary(
            match u {
                Unary::Not(x) => Unary::Not(Box::new(clone_expr(x))),
                Unary::Negate(x) => Unary::Negate(Box::new(clone_expr(x))),
            },
        ),
        Expression::Call(c) => Expression::Call(
            Call {
                name: c.name.clone(),
                ty: clone_opt_type(&c.ty),
                args: match &c.args {
                    Some(v) => Some(clone_exprs(v)),
                    None => None,
                },
                line: c.line,
                column: c.column,
                filename: c.filename.clone(),
            },
        ),
        Expression::ArrayAccess(a) => Expression::ArrayAccess(
            ArrayAccess {
                ty: clone_opt_type(&a.ty),
                identifier: Box::new(clone_expr(&a.identifier)),
                is_lvalue: a.is_lvalue,
                index: Box::new(clone_expr(&a.index)),
                line: a.line,
                column: a.column,
                filename: a.filename.clone(),
            },
        ),
        Expression::AddressOf(a) => Expression::AddressOf(
            AddressOf {
                identifier: Box::new(clone_expr(&a.identifier)),
                ty: clone_opt_type(&a.ty),
                line: a.line,
                column: a.column,
                filename: a.filename.clone(),
            },
        ),
        Expression::DeReference(d) => Expression::DeReference(
            DeReference {
                identifier: Box::new(clone_expr(&d.identifier)),
                is_lvalue: d.is_lvalue,
                ty: clone_opt_type(&d.ty),
                line: d.line,
                column: d.column,
                filename: d.filename.clone(),
            },
        ),
        Expression::MemberAccess(m) => Expression::MemberAccess(
            MemberAccess {
                object: Box::new(clone_expr(&m.object)),
                member: m.member.clone(),
                ty: clone_opt_type(&m.ty),
                line: m.line,
                column: m.column,
                filename: m.filename.clone(),
            },
        ),
        Expression::Null(n) => Expression::Null(Null { line: n.line, column: n.column, filename: n.filename.clone() }),
    }
}

/// A copy of a literal.
pub fn clone_literal(l: &Literal) -> (r: Literal)
    ensures
        expr_view(Expression::Literal(r)) == expr_view(Expression::Literal(*l)),
    decreases expr_size(expr_view(Expression::Literal(*l))), 0nat,
{
    proof {
        reveal(expr_view);
        reveal(exprs_view);
    }
    match l {
        Literal::Number(n) => Literal::Number(
            Number { value: n.value, line: n.line, column: n.column, filename: n.filename.clone() },
        ),
        Literal::Real(n) => Literal::Real(
            Real { value: n.value.clone(), line: n.line, column: n.column, filename: n.filename.clone() },
        ),
        Literal::Bool(n) => Literal::Bool(
            Bool { value: n.value, line: n.line, column: n.column, filename: n.filename.clone() },
        ),
        Literal::Char(n) => Literal::Char(
            Char { value: n.value, line: n.line, column: n.column, filename: n.filename.clone() },
        ),
        Literal::StringLiteral(n) => Literal::StringLiteral(
            StringLiteral { value: n.value.clone(), line: n.line, column: n.column, filename: n.filename.clone() },
        ),
        Literal::StructLiteral(s) => Literal::StructLiteral(
            StructLiteral {
                literal_type: clone_opt_type(&s.literal_type),
                struct_name: s.struct_name.clone(),
                expressions: clone_exprs(&s.expressions),
                line: s.line,
                column: s.column,
                filename: s.filename.clone(),
            },
        ),
        Literal::Identifier(i) => Literal::Identifier(
            Identifier {
                name: i.name.clone(),
                is_lvalue: i.is_lvalue,
                ty: clone_opt_type(&i.ty),
                line: i.line,
                column: i.column,
                filename: i.filename.clone(),
            },
        ),
    }
}

/// A copy of a list of expressions.
pub fn clone_exprs(v: &Vec<Expression>) -> (r: Vec<Expression>)
    ensures
        exprs_view(r@) == exprs_view(v@),
    decreases exprs_size(exprs_view(v@)), 2nat,
{
    proof {
        lemma_exprs_view_len(v@);
    }
    let mut r: Vec<Expression> = Vec::new();
    let mut i: usize = 0;
    while i < v.len()
        invariant
            i <= v@.len(),
            r@.len() == i,
            exprs_view(v@).len() == v@.len(),
            forall|j: int| 0 <= j < v@.len() ==> exprs_view(v@)[j] == expr_view(#[trigger] v@[j]),
            forall|j: int| 0 <= j < i ==> expr_view(#[trigger] r@[j]) == expr_view(v@[j]),
        decreases v@.len() - i,
    {
        proof {
            lemma_exprs_size(exprs_view(v@), i as int);
        }
        r.push(clone_expr(&v[i]));
        i = i + 1;
    }
    proof {
        lemma_exprs_view_len(r@);
        assert(exprs_view(r@) =~= exprs_view(v@));
    }
    r
}

/// A copy of a declaration.
pub fn clone_decl(d: &VariableDeclaration) -> (r: VariableDeclaration)
    ensures
        decl_view(r) == decl_view(*d),
{
    VariableDeclaration {
        identifier: d.identifier.clone(),
        variable_type: d.variable_type.clone(),
        init_expr: clone_expr(&d.init_expr),
        line: d.line,
        column: d.column,
        filename: d.filename.clone(),
    }
}

/// A copy of a statement.
pub fn clone_stmt(s: &Statement) -> (r: Statement)
    ensures
        r@ == s@,
    decreases stmt_size(s@), 2nat,
{
    match s {
        Statement::Expression(e) => Statement::Expression(clone_expr(e)),
        Statement::VariableDeclaration(d) => Statement::VariableDeclaration(clone_decl(d)),
        Statement::VariableAssignment(a) => Statement::VariableAssignment(
            VariableAssignment {
                identifier: clone_expr(&a.identifier),
                new_value: clone_expr(&a.new_value),
                line: a.line,
                column: a.column,
                filename: a.filename.clone(),
            },
        ),
        Statement::Function(f) => Statement::Function(clone_function(f)),
        Statement::Struct(st) => Statement::Struct(st.clone()),
        Statement::Block(b) => Statement::Block(clone_block(b)),
        Statement::Return(r) => Statement::Return(
            ReturnStatement { expr: clone_expr(&r.expr), line: r.line, column: r.column, filename: r.filename.clone() },
        ),
        Statement::IfStatement(i) => Statement::IfStatement(
            IfStatement {
                condition: clone_expr(&i.condition),
                then_branch: clone_block(&i.then_branch),
                else_branch: match &i.else_branch {
                    Some(b) => Some(clone_block(b)),
                    None => None,
                },
                line: i.line,
                column: i.column,
                filename: i.filename.clone(),
            },
        ),
        Statement::WhileStatement(w) => Statement::WhileStatement(
            WhileStatement {
                condition: clone_expr(&w.condition),
                loop_block: clone_block(&w.loop_block),
                line: w.line,
                column: w.column,
                filename: w.filename.clone(),
            },
        ),
        Statement::ForStatement(f) => Statement::ForStatement(
            ForStatement {
                init_expr: clone_decl(&f.init_expr),
                loop_condition: clone_expr(&f.loop_condition),
                next_expr: Box::new(clone_stmt(&f.next_expr)),
                block_stmt: clone_block(&f.block_stmt),
                line: f.line,
                column: f.column,
                filename: f.filename.clone(),
            },
        ),
        Statement::BreakStatement(b) => Statement::BreakStatement(
            BreakStatement { line: b.line, column: b.column, filename: b.filename.clone() },
        ),
        Statement::Import(i) => Statement::Import(
            ImportStatement {
                file_path: i.file_path.clone(),
                module_file: i.module_file.clone(),
                line: i.line,
                column: i.column,
                filename: i.filename.clone(),
            },
        ),
    }
}

/// A copy of a function.
pub fn clone_function(f: &FunctionStatement) -> (r: FunctionStatement)
    ensures
        stmt_view(Statement::Function(r)) == stmt_view(Statement::Function(*f)),
    decreases stmt_size(stmt_view(Statement::Function(*f))), 1nat,
{
    FunctionStatement {
        callee: f.callee.clone(),
        args: match &f.args {
            Some(a) => Some(clone_fields(a)),
            None => None,
        },
        block: match &f.block {
            Some(b) => Some(clone_block(b)),
            None => None,
        },
        return_type: f.return_type.clone(),
        is_exported: f.is_exported,
        line: f.line,
        column: f.column,
        filename: f.filename.clone(),
    }
}

/// A copy of a block.
pub fn clone_block(b: &BlockStatement) -> (r: BlockStatement)
    ensures
        block_view(r) == block_view(*b),
    decreases block_size(block_view(*b)), 2nat,
{
    BlockStatement {
        statements: clone_stmts(&b.statements),
        line: b.line,
        column: b.column,
        filename: b.filename.clone(),
    }
}

/// A copy of a list of statements.
pub fn clone_stmts(v: &Vec<Statement>) -> (r: Vec<Statement>)
    ensures
        stmts_view(r@) == stmts_view(v@),
    decreases stmts_size(stmts_view(v@)), 3nat,
{
    proof {
        lemma_stmts_view_len(v@);
    }
    let mut r: Vec<Statement> = Vec::new();
    let mut i: usize = 0;
    while i < v.len()
        invariant
            i <= v@.len(),
            r@.len() == i,
            stmts_view(v@).len() == v@.len(),
            forall|j: int| 0 <= j < v@.len() ==> stmts_view(v@)[j] == stmt_view(#[trigger] v@[j]),
            forall|j: int| 0 <= j < i ==> stmt_view(#[trigger] r@[j]) == stmt_view(v@[j]),
        decreases v@.len() - i,
    {
        proof {
            lemma_stmts_size(stmts_view(v@), i as int);
        }
        r.push(clone_stmt(&v[i]));
        i = i + 1;
    }
    proof {
        lemma_stmts_view_len(r@);
        assert(stmts_view(r@) =~= stmts_view(v@));
    }
    r
}

impl Clone for Expression {
    fn clone(&self) -> (r: Self)
        ensures
            r@ == self@,
    {
        clone_expr(self)
    }
}

impl Clone for Statement {
    fn clone(&self) -> (r: Self)
        ensures
            r@ == self@,
    {
        clone_stmt(self)
    }
}

} // verus!
