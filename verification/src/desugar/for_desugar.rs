use vstd::prelude::*;
use crate::parser::ast_clone::{clone_decl, clone_expr, clone_stmt};
use crate::parser::visitors::{
    BlockStatement, ForStatement, FunctionStatement, IfStatement, Loc, SBlock, SDecl, SExpr, SStmt, Statement,
    VariableDeclaration, WhileStatement, block_view, decl_view, expr_view, loc, lemma_stmts_view_len,
    lemma_stmts_view_update, stmt_view, stmts_view,
};
use crate::type_system::typing::{block_size, lemma_stmts_size, stmt_size, stmts_size};

verus! {

/// `for init; cond; next; { body }` written as
/// `{ init; while cond { body next } }`, every new block and loop being
/// located at the `for`.
pub open spec fn for_as_while(init: SDecl, cond: SExpr, next: SStmt, body: SBlock, l: Loc) -> SStmt {
    SStmt::Block(
        SBlock {
            stmts: seq![SStmt::Declaration(init), SStmt::While { cond, body: SBlock { stmts: body.stmts.push(next), loc: l }, loc: l }],
            loc: l,
        },
    )
}

/// A statement with its `for` loops written as `while` loops, at any depth:
/// the bodies of functions, blocks, conditionals and loops are rewritten, and
/// so are the body and the step of a `for` loop before they move into the new
/// loop.
pub open spec fn desugared(s: SStmt) -> SStmt
    decreases stmt_size(s), 2nat,
{
    match s {
        SStmt::For { init, cond, next, body, loc } => for_as_while(
            init,
            cond,
            desugared(*next),
            desugared_block(body),
            loc,
        ),
        SStmt::Function { callee, args, block, return_type, exported, loc } => SStmt::Function {
            callee,
            args,
            block: match block {
                Some(b) => Some(desugared_block(b)),
                None => None,
            },
            return_type,
            exported,
            loc,
        },
        SStmt::Block(b) => SStmt::Block(desugared_block(b)),
        SStmt::If { cond, then_branch, else_branch, loc } => SStmt::If {
            cond,
            then_branch: desugared_block(then_branch),
            else_branch: match else_branch {
                Some(b) => Some(desugared_block(b)),
                None => None,
            },
            loc,
        },
        SStmt::While { cond, body, loc } => SStmt::While { cond, body: desugared_block(body), loc },
        _ => s,
    }
}

/// A block with its statements rewritten.
pub open spec fn desugared_block(b: SBlock) -> SBlock
    decreases block_size(b), 2nat,
{
    SBlock { stmts: desugared_stmts(b.stmts), loc: b.loc }
}

/// Statements rewritten one by one.
pub open spec fn desugared_stmts(stmts: Seq<SStmt>) -> Seq<SStmt>
    decreases stmts_size(stmts), 3nat,
{
    if stmts.len() == 0 {
        stmts
    } else {
        proof {
            crate::type_system::typing::lemma_stmt_size_positive(stmts[0]);
        }
        seq![desugared(stmts[0])] + desugared_stmts(stmts.subrange(1, stmts.len() as int))
    }
}

/// Rewritten statements are rewritten one by one: the list keeps its length
/// and its `i`-th statement is the rewritten `i`-th one.
pub proof fn lemma_desugared_stmts(stmts: Seq<SStmt>)
    ensures
        desugared_stmts(stmts).len() == stmts.len(),
        forall|i: int| 0 <= i < stmts.len() ==> #[trigger] desugared_stmts(stmts)[i] == desugared(stmts[i]),
    decreases stmts.len(),
{
    if stmts.len() > 0 {
        let t = stmts.subrange(1, stmts.len() as int);
        lemma_desugared_stmts(t);
        assert forall|i: int| 0 <= i < stmts.len() implies #[trigger] desugared_stmts(stmts)[i] == desugared(stmts[i]) by {
            if i > 0 {
                assert(t[i - 1] == stmts[i]);
            }
        }
    }
}

/// Whether a `for` loop occurs in a statement.
pub open spec fn has_for(s: SStmt) -> bool
    decreases stmt_size(s), 2nat,
{
    match s {
        SStmt::For { .. } => true,
        SStmt::Function { block, .. } => match block {
            Some(b) => block_has_for(b),
            None => false,
        },
        SStmt::Block(b) => block_has_for(b),
        SStmt::If { then_branch, else_branch, .. } => block_has_for(then_branch) || match else_branch {
            Some(b) => block_has_for(b),
            None => false,
        },
        SStmt::While { body, .. } => block_has_for(body),
        _ => false,
    }
}

/// Whether a `for` loop occurs in a block.
pub open spec fn block_has_for(b: SBlock) -> bool
    decreases block_size(b), 2nat,
{
    stmts_have_for(b.stmts)
}

/// Whether a `for` loop occurs in a list of statements.
pub open spec fn stmts_have_for(stmts: Seq<SStmt>) -> bool
    decreases stmts_size(stmts), 3nat,
{
    if stmts.len() == 0 {
        false
    } else {
        proof {
            crate::type_system::typing::lemma_stmt_size_positive(stmts[0]);
        }
        has_for(stmts[0]) || stmts_have_for(stmts.subrange(1, stmts.len() as int))
    }
}

proof fn lemma_have_for_push(stmts: Seq<SStmt>, x: SStmt)
    ensures
        stmts_have_for(stmts.push(x)) == (stmts_have_for(stmts) || has_for(x)),
    decreases stmts.len(),
{
    let p = stmts.push(x);
    assert(p[0] == if stmts.len() == 0 { x } else { stmts[0] });
    if stmts.len() == 0 {
        assert(p.subrange(1, p.len() as int) =~= Seq::<SStmt>::empty());
        assert(!stmts_have_for(Seq::<SStmt>::empty()));
        assert(stmts_have_for(p) == (has_for(x) || stmts_have_for(p.subrange(1, p.len() as int))));
    } else {
        assert(p.subrange(1, p.len() as int) =~= stmts.subrange(1, stmts.len() as int).push(x));
        lemma_have_for_push(stmts.subrange(1, stmts.len() as int), x);
        assert(stmts_have_for(p) == (has_for(p[0]) || stmts_have_for(p.subrange(1, p.len() as int))));
        assert(stmts_have_for(stmts) == (has_for(stmts[0]) || stmts_have_for(stmts.subrange(1, stmts.len() as int))));
    }
}

/// Once rewritten, a statement holds no `for` loop.
pub proof fn law_desugar_removes_for(s: SStmt)
    ensures
        !has_for(desugared(s)),
    decreases stmt_size(s), 2nat,
{
    match s {
        SStmt::For { init, cond, next, body, loc } => {
            law_desugar_removes_for(*next);
            law_desugar_removes_for_block(body);
            let b = desugared_block(body);
            let n = desugared(*next);
            let body2 = SBlock { stmts: b.stmts.push(n), loc };
            let w = SStmt::While { cond, body: body2, loc };
            let stmts = seq![SStmt::Declaration(init), w];
            lemma_have_for_push(b.stmts, n);
            assert(!block_has_for(b));
            assert(!has_for(n));
            assert(!block_has_for(body2));
            assert(!has_for(w));
            assert(stmts.subrange(1, stmts.len() as int) =~= seq![w]);
            assert(seq![w].subrange(1, 1) =~= Seq::<SStmt>::empty());
            assert(!stmts_have_for(Seq::<SStmt>::empty()));
            assert(!stmts_have_for(seq![w]));
            assert(!has_for(SStmt::Declaration(init)));
            assert(!stmts_have_for(stmts));
            assert(desugared(s) == SStmt::Block(SBlock { stmts, loc }));
        },
        SStmt::Function { block, .. } => match block {
            Some(b) => law_desugar_removes_for_block(b),
            None => {},
        },
        SStmt::Block(b) => law_desugar_removes_for_block(b),
        SStmt::If { then_branch, else_branch, .. } => {
            law_desugar_removes_for_block(then_branch);
            match else_branch {
                Some(b) => law_desugar_removes_for_block(b),
                None => {},
            }
        },
        SStmt::While { body, .. } => law_desugar_removes_for_block(body),
        _ => {},
    }
}

/// The block form of `law_desugar_removes_for`.
pub proof fn law_desugar_removes_for_block(b: SBlock)
    ensures
        !block_has_for(desugared_block(b)),
    decreases block_size(b), 2nat,
{
    law_desugar_removes_for_stmts(b.stmts);
}

/// The program form of `law_desugar_removes_for`: a program holds no `for`
/// loop once rewritten.
pub proof fn law_desugar_removes_for_stmts(stmts: Seq<SStmt>)
    ensures
        !stmts_have_for(desugared_stmts(stmts)),
    decreases stmts_size(stmts), 3nat,
{
    if stmts.len() > 0 {
        crate::type_system::typing::lemma_stmt_size_positive(stmts[0]);
        let t = stmts.subrange(1, stmts.len() as int);
        law_desugar_removes_for(stmts[0]);
        law_desugar_removes_for_stmts(t);
        let d = desugared_stmts(stmts);
        assert(d[0] == desugared(stmts[0]));
        assert(d.subrange(1, d.len() as int) =~= desugared_stmts(t));
    }
}

/// A statement without `for` loops is left as it is.
pub proof fn law_desugar_keeps_for_free(s: SStmt)
    requires
        !has_for(s),
    ensures
        desugared(s) == s,
    decreases stmt_size(s), 2nat,
{
    match s {
        SStmt::Function { block, .. } => match block {
            Some(b) => law_desugar_keeps_for_free_block(b),
            None => {},
        },
        SStmt::Block(b) => law_desugar_keeps_for_free_block(b),
        SStmt::If { then_branch, else_branch, .. } => {
            law_desugar_keeps_for_free_block(then_branch);
            match else_branch {
                Some(b) => law_desugar_keeps_for_free_block(b),
                None => {},
            }
        },
        SStmt::While { body, .. } => law_desugar_keeps_for_free_block(body),
        _ => {},
    }
}

/// The block form of `law_desugar_keeps_for_free`.
pub proof fn law_desugar_keeps_for_free_block(b: SBlock)
    requires
        !block_has_for(b),
    ensures
        desugared_block(b) == b,
    decreases block_size(b), 2nat,
{
    law_desugar_keeps_for_free_stmts(b.stmts);
}

/// The program form of `law_desugar_keeps_for_free`: a program without `for`
/// loops is left as it is.
pub proof fn law_desugar_keeps_for_free_stmts(stmts: Seq<SStmt>)
    requires
        !stmts_have_for(stmts),
    ensures
        desugared_stmts(stmts) == stmts,
    decreases stmts_size(stmts), 3nat,
{
    if stmts.len() > 0 {
        crate::type_system::typing::lemma_stmt_size_positive(stmts[0]);
        let t = stmts.subrange(1, stmts.len() as int);
        law_desugar_keeps_for_free(stmts[0]);
        law_desugar_keeps_for_free_stmts(t);
        assert(seq![stmts[0]] + t =~= stmts);
    }
}

/// Rewriting a program a second time changes nothing.
pub proof fn law_desugar_idempotent(stmts: Seq<SStmt>)
    ensures
        desugared_stmts(desugared_stmts(stmts)) == desugared_stmts(stmts),
{
    law_desugar_removes_for_stmts(stmts);
    law_desugar_keeps_for_free_stmts(desugared_stmts(stmts));
}

/// The rewriter of `for` loops.
pub struct ForDesugar;

impl ForDesugar {
    /// Rewrites a statement: a `for` loop comes back as its replacement (the
    /// loop keeps its header, its body is emptied); any other statement is
    /// rewritten in place and `None` comes back.
    pub fn visit_stmt(&mut self, stmt: &mut Statement) -> (r: Option<Statement>)
        ensures
            match old(stmt)@ {
                SStmt::For { init, cond, next, body, loc } => r is Some && r->Some_0@ == desugared(old(stmt)@)
                    && final(stmt)@ == (SStmt::For {
                    init,
                    cond,
                    next,
                    body: SBlock { stmts: Seq::empty(), loc: body.loc },
                    loc,
                }),
                _ => r is None && final(stmt)@ == desugared(old(stmt)@),
            },
        decreases stmt_size(old(stmt)@), 3nat,
    {
        match stmt {
            Statement::Function(f) => self.visit_function_statement(f),
            Statement::Block(b) => self.visit_block_statement(b),
            Statement::IfStatement(i) => self.visit_if_statement(i),
            Statement::WhileStatement(w) => self.visit_while_statement(w),
            Statement::ForStatement(f) => {
                let d = self.desugar_for(f);
                proof {
                    assert(stmts_view(Seq::<Statement>::empty()) =~= Seq::<SStmt>::empty());
                    assert(d@ == desugared(old(stmt)@));
                    assert(block_view(f.block_stmt) == SBlock { stmts: Seq::<SStmt>::empty(), loc: block_view(old(stmt)->ForStatement_0.block_stmt).loc });
                    assert(stmt_view(Statement::ForStatement(*f)) == SStmt::For {
                        init: old(stmt)@->For_init,
                        cond: old(stmt)@->For_cond,
                        next: old(stmt)@->For_next,
                        body: SBlock { stmts: Seq::empty(), loc: old(stmt)@->For_body.loc },
                        loc: old(stmt)@->For_loc,
                    });
                }
                return Some(d);
            },
            _ => {},
        }
        None
    }

    /// The replacement of a `for` loop; the loop's body, rewritten, is moved
    /// into it.
    fn desugar_for(&mut self, for_stmt: &mut ForStatement) -> (r: Statement)
        ensures
            r@ == desugared(stmt_view(Statement::ForStatement(*old(for_stmt)))),
            decl_view(final(for_stmt).init_expr) == decl_view(old(for_stmt).init_expr),
            expr_view(final(for_stmt).loop_condition) == expr_view(old(for_stmt).loop_condition),
            stmt_view(*final(for_stmt).next_expr) == stmt_view(*old(for_stmt).next_expr),
            block_view(final(for_stmt).block_stmt) == (SBlock {
                stmts: Seq::empty(),
                loc: block_view(old(for_stmt).block_stmt).loc,
            }),
            final(for_stmt).line == old(for_stmt).line,
            final(for_stmt).column == old(for_stmt).column,
            final(for_stmt).filename == old(for_stmt).filename,
        decreases stmt_size(stmt_view(Statement::ForStatement(*old(for_stmt)))), 2nat,
    {
        let ghost l = loc(old(for_stmt).line, old(for_stmt).column, old(for_stmt).filename);
        let ghost old_body = block_view(old(for_stmt).block_stmt);
        let ghost old_next = stmt_view(*old(for_stmt).next_expr);
        proof {
            assert(stmt_size(old_next) < stmt_size(stmt_view(Statement::ForStatement(*old(for_stmt)))));
            assert(block_size(old_body) < stmt_size(stmt_view(Statement::ForStatement(*old(for_stmt)))));
        }
        self.visit_block_statement(&mut for_stmt.block_stmt);
        let mut next = clone_stmt(&for_stmt.next_expr);
        let next = match self.visit_stmt(&mut next) {
            Some(d) => d,
            None => next,
        };
        let ghost next_v = next;
        assert(stmt_view(next_v) == desugared(old_next));
        let mut block = BlockStatement {
            statements: Vec::new(),
            line: for_stmt.line,
            column: for_stmt.column,
            filename: for_stmt.filename.clone(),
        };
        let mut while_block = BlockStatement {
            statements: Vec::new(),
            line: for_stmt.line,
            column: for_stmt.column,
            filename: for_stmt.filename.clone(),
        };
        let ghost body = for_stmt.block_stmt.statements@;
        assert(stmts_view(body) == desugared_block(old_body).stmts);
        while_block.statements.append(&mut for_stmt.block_stmt.statements);
        while_block.statements.push(next);
        proof {
            assert(while_block.statements@ =~= body.push(next_v));
            crate::parser::visitors::lemma_stmts_view_push(body, next_v);
            assert(block_view(while_block) == SBlock {
                stmts: desugared_block(old_body).stmts.push(desugared(old_next)),
                loc: l,
            });
        }
        let decl = Statement::VariableDeclaration(clone_decl(&for_stmt.init_expr));
        let ghost decl_v = decl;
        block.statements.push(decl);
        let desugar_while = WhileStatement {
            condition: clone_expr(&for_stmt.loop_condition),
            loop_block: while_block,
            line: for_stmt.line,
            column: for_stmt.column,
            filename: for_stmt.filename.clone(),
        };
        let w = Statement::WhileStatement(desugar_while);
        let ghost w_v = w;
        proof {
            assert(stmt_view(w_v) == (SStmt::While {
                cond: expr_view(old(for_stmt).loop_condition),
                body: SBlock { stmts: desugared_block(old_body).stmts.push(desugared(old_next)), loc: l },
                loc: l,
            }));
            assert(stmt_view(decl_v) == SStmt::Declaration(decl_view(old(for_stmt).init_expr)));
        }
        block.statements.push(w);
        proof {
            assert(block.statements@ =~= seq![decl_v].push(w_v));
            assert(seq![decl_v] =~= Seq::<Statement>::empty().push(decl_v));
            crate::parser::visitors::lemma_stmts_view_push(Seq::empty(), decl_v);
            crate::parser::visitors::lemma_stmts_view_push(seq![decl_v], w_v);
            assert(stmts_view(Seq::<Statement>::empty()) =~= Seq::<SStmt>::empty());
            assert(stmts_view(block.statements@) =~= seq![stmt_view(decl_v), stmt_view(w_v)]);
            assert(block_view(block) == SBlock { stmts: stmts_view(block.statements@), loc: l });
            assert(stmt_view(Statement::Block(block)) == SStmt::Block(block_view(block)));
            assert(stmts_view(for_stmt.block_stmt.statements@) =~= Seq::<SStmt>::empty());
        }
        Statement::Block(block)
    }

    /// Rewrites the body of a function.
    pub fn visit_function_statement(&mut self, expr: &mut FunctionStatement)
        ensures
            stmt_view(Statement::Function(*final(expr))) == desugared(stmt_view(Statement::Function(*old(expr)))),
        decreases stmt_size(stmt_view(Statement::Function(*old(expr)))), 2nat,
    {
        match &mut expr.block {
            Some(b) => self.visit_block_statement(b),
            None => {},
        }
    }

    /// Rewrites the statements of a block: its `for` loops are replaced, the
    /// others rewritten in place.
    pub fn visit_block_statement(&mut self, expr: &mut BlockStatement)
        ensures
            block_view(*final(expr)) == desugared_block(block_view(*old(expr))),
        decreases block_size(block_view(*old(expr))), 2nat,
    {
        proof {
            lemma_stmts_view_len(expr.statements@);
        }
        let n = expr.statements.len();
        let ghost orig_stmts = expr.statements@;
        let ghost orig = stmts_view(orig_stmts);
        let mut i: usize = 0;
        while i < n
            invariant
                n == orig_stmts.len(),
                orig_stmts == old(expr).statements@,
                orig == stmts_view(orig_stmts),
                expr.statements@.len() == n,
                expr.line == old(expr).line,
                expr.column == old(expr).column,
                expr.filename == old(expr).filename,
                i <= n,
                forall|j: int| i <= j < n ==> #[trigger] expr.statements@[j] == orig_stmts[j],
                forall|j: int| 0 <= j < i ==> stmt_view(#[trigger] expr.statements@[j]) == desugared(orig[j]),
            decreases n - i,
        {
            proof {
                lemma_stmts_view_len(orig_stmts);
                lemma_stmts_size(orig, i as int);
            }
            let ghost before = expr.statements@;
            let replacement = match &mut expr.statements[i] {
                Statement::ForStatement(f) => Some(self.desugar_for(f)),
                Statement::Function(f) => {
                    self.visit_function_statement(f);
                    None
                },
                Statement::Block(b) => {
                    self.visit_block_statement(b);
                    None
                },
                Statement::IfStatement(s) => {
                    self.visit_if_statement(s);
                    None
                },
                Statement::WhileStatement(w) => {
                    self.visit_while_statement(w);
                    None
                },
                _ => None,
            };
            match replacement {
                Some(d) => {
                    expr.statements.set(i, d);
                },
                None => {},
            }
            proof {
                assert forall|j: int| 0 <= j < i + 1 implies stmt_view(#[trigger] expr.statements@[j]) == desugared(orig[j]) by {
                    if j < i {
                        assert(expr.statements@[j] == before[j]);
                    }
                }
            }
            i = i + 1;
        }
        proof {
            lemma_stmts_view_len(expr.statements@);
            lemma_stmts_view_len(orig_stmts);
            lemma_desugared_stmts(orig);
            assert(stmts_view(expr.statements@) =~= desugared_stmts(orig));
        }
    }

    /// Rewrites the branches of a conditional.
    pub fn visit_if_statement(&mut self, if_stmt: &mut IfStatement)
        ensures
            stmt_view(Statement::IfStatement(*final(if_stmt))) == desugared(stmt_view(Statement::IfStatement(*old(if_stmt)))),
        decreases stmt_size(stmt_view(Statement::IfStatement(*old(if_stmt)))), 2nat,
    {
        self.visit_block_statement(&mut if_stmt.then_branch);
        match &mut if_stmt.else_branch {
            Some(else_br) => self.visit_block_statement(else_br),
            None => {},
        }
    }

    /// Rewrites the body of a `while` loop.
    pub fn visit_while_statement(&mut self, while_stmt: &mut WhileStatement)
        ensures
            stmt_view(Statement::WhileStatement(*final(while_stmt))) == desugared(
                stmt_view(Statement::WhileStatement(*old(while_stmt))),
            ),
        decreases stmt_size(stmt_view(Statement::WhileStatement(*old(while_stmt)))), 2nat,
    {
        self.visit_block_statement(&mut while_stmt.loop_block)
    }
}

/// A `for` loop whose body and step hold no `for` loop becomes a block that
/// declares its variable and then runs a `while` loop on its condition, whose
/// body is the loop's body followed by the step; the new block and loop stand
/// where the `for` stood.
pub proof fn law_for_becomes_while(init: SDecl, cond: SExpr, next: SStmt, body: SBlock, l: Loc)
    requires
        !has_for(next),
        !block_has_for(body),
    ensures
        ({
            let inner = SBlock { stmts: body.stmts.push(next), loc: l };
            let outer = SBlock { stmts: seq![SStmt::Declaration(init), SStmt::While { cond, body: inner, loc: l }], loc: l };
            desugared(SStmt::For { init, cond, next: Box::new(next), body, loc: l }) == SStmt::Block(outer)
        }),
{
    law_desugar_keeps_for_free(next);
    law_desugar_keeps_for_free_block(body);
}

} // verus!
