use vstd::prelude::*;
use crate::lexer::LogosToken;
use crate::parser::grammar::{PRes, PState, Src, token_string, token_text};
use crate::parser::parser::Parser;
use crate::parser::statement_grammar::nonempty;
use crate::parser::visitors::{
    Argument, BlockStatement, Bool, BreakStatement, Expression, ForStatement, FunctionStatement,
    IfStatement, ImportStatement, Literal, ReturnStatement, SBlock, SStmt, Statement, StructField,
    StructStatement, VariableAssignment, VariableDeclaration, WhileStatement, args_view, block_view,
    decl_view, stmt_view, stmts_view, lemma_stmts_view_push, expr_view, exprs_view,
};
use crate::value_type::ValueType;

verus! {

/// `r` and the state `after` are what `spec` describes, for a statement.
pub open spec fn stmt_outcome(spec: PRes<SStmt>, r: Result<Statement, ()>, after: PState) -> bool {
    match spec {
        PRes::Done(e, s) => r matches Ok(v) && v@ == e && after == s,
        PRes::Failed(s) => r is Err && after == s,
        PRes::Stuck => false,
    }
}

/// `r` and the state `after` are what `spec` describes, for a block.
pub open spec fn block_outcome(spec: PRes<SBlock>, r: Result<BlockStatement, ()>, after: PState) -> bool {
    match spec {
        PRes::Done(e, s) => r matches Ok(v) && block_view(v) == e && after == s,
        PRes::Failed(s) => r is Err && after == s,
        PRes::Stuck => false,
    }
}

/// `r` and the state `after` are what `spec` describes, for a list of
/// names with their types.
pub open spec fn args_outcome(spec: PRes<Seq<(Seq<char>, ValueType)>>, r: Result<Vec<Argument>, ()>, after: PState) -> bool {
    match spec {
        PRes::Done(e, s) => r matches Ok(v) && args_view(v@) == e && after == s,
        PRes::Failed(s) => r is Err && after == s,
        PRes::Stuck => false,
    }
}

/// The names and types of optional arguments.
pub open spec fn opt_args_view(args: Option<Vec<Argument>>) -> Option<Seq<(Seq<char>, ValueType)>> {
    match args {
        Some(v) => Some(args_view(v@)),
        None => None,
    }
}

pub proof fn lemma_stmt_view_kind(s: Statement)
    ensures
        (stmt_view(s) is Block) <==> (s is Block),
        s matches Statement::Block(b) ==> stmt_view(s) == SStmt::Block(block_view(b)),
        (stmt_view(s) is Declaration) <==> (s is VariableDeclaration),
        s matches Statement::VariableDeclaration(d) ==> stmt_view(s) == SStmt::Declaration(decl_view(d)),
{
}

pub proof fn lemma_args_view_push(v: Seq<Argument>, a: Argument)
    ensures
        args_view(v.push(a)) == args_view(v).push((a.0@, a.1)),
{
    assert(args_view(v.push(a)) =~= args_view(v).push((a.0@, a.1)));
}

impl Parser {
    /// The text of the identifier or string token at index `k`.
    fn text_at(&self, k: usize) -> (r: String)
        requires
            k < self.lexer.len(),
        ensures
            r@ == token_text(self.lexer@[k as int].logos_tk),
            (self.lexer@[k as int].logos_tk is Identifier || self.lexer@[k as int].logos_tk is Quote) ==> r
                == token_string(self.lexer@[k as int].logos_tk),
    {
        match &self.lexer[k].logos_tk {
            LogosToken::Identifier(s) => s.clone(),
            LogosToken::Quote(s) => s.clone(),
            _ => String::new(),
        }
    }

    /// Parses a whole module: `None` at the first statement that fails.
    #[verifier::rlimit(100)]
    pub fn parse(&mut self) -> (r: Option<Vec<Statement>>)
        requires
            old(self).wf(),
            exists|f: nat| !(#[trigger] old(self).src().program(old(self).pstate(), Seq::empty(), f) is Stuck),
        ensures
            final(self).wf(),
            final(self).lexer == old(self).lexer,
            final(self).module_file == old(self).module_file,
            match old(self).src().program(
                old(self).pstate(),
                Seq::empty(),
                choose|f: nat| !(#[trigger] old(self).src().program(old(self).pstate(), Seq::empty(), f) is Stuck),
            ) {
                PRes::Done(stmts, s) => r matches Some(v) && stmts_view(v@) == stmts && final(self).pstate() == s,
                PRes::Failed(s) => r is None && final(self).pstate() == s,
                PRes::Stuck => false,
            },
    {
        proof {
            reveal_with_fuel(Src::program, 1);
        }
        let ghost fuel = choose|f: nat| !(#[trigger] old(self).src().program(old(self).pstate(), Seq::empty(), f) is Stuck);
        let ghost goal = old(self).src().program(old(self).pstate(), Seq::empty(), fuel);
        let ghost src = old(self).src();
        let mut stmts: Vec<Statement> = Vec::new();
        let ghost mut f: nat = fuel;
        loop
            invariant
                self.wf(),
                self.src() == src,
                self.lexer == old(self).lexer,
                self.module_file == old(self).module_file,
                fuel == choose|f: nat| !(#[trigger] old(self).src().program(old(self).pstate(), Seq::empty(), f) is Stuck),
                goal == old(self).src().program(old(self).pstate(), Seq::empty(), fuel),
                src.program(self.pstate(), stmts_view(stmts@), f) == goal,
                !(goal is Stuck),
            decreases f,
        {
            proof {
                reveal_with_fuel(Src::program, 1);
            }
            if self.is_at_the_end() {
                return Some(stmts);
            }
            match self.parse_import_statement(Ghost((f - 1) as nat)) {
                Ok(ret) => {
                    proof {
                        lemma_stmts_view_push(stmts@, ret);
                    }
                    stmts.push(ret);
                    proof {
                        f = (f - 1) as nat;
                    }
                },
                Err(()) => return None,
            }
        }
    }

    /// Parses `import "module";`, or a function statement.
    pub fn parse_import_statement(&mut self, Ghost(fuel): Ghost<nat>) -> (r: Result<Statement, ()>)
        requires
            old(self).wf(),
            !(old(self).src().import_statement(old(self).pstate(), fuel) is Stuck),
        ensures
            final(self).wf(),
            final(self).lexer == old(self).lexer,
            final(self).module_file == old(self).module_file,
            stmt_outcome(old(self).src().import_statement(old(self).pstate(), fuel), r, final(self).pstate()),
        decreases fuel,
    {
        proof {
            reveal_with_fuel(Src::import_statement, 1);
        }
        if self.match_expr(&[LogosToken::Import]) {
            let k = match self.consume_index(
                &LogosToken::Quote(String::new()),
                "Expected a string literal after 'import' keyword.",
            ) {
                Some(k) => k,
                None => return Err(()),
            };
            let name = self.text_at(k);
            if self.consume_index(&LogosToken::Semicolon, "Expected ';' after import statement.").is_some() {
                let (line, column) = self.get_current_token_postion();
                Ok(Statement::Import(ImportStatement {
                    file_path: self.module_file.clone(),
                    module_file: name,
                    line,
                    column,
                    filename: self.module_file.clone(),
                }))
            } else {
                Err(())
            }
        } else {
            self.parse_function_statement(Ghost((fuel - 1) as nat))
        }
    }

    fn parse_function_statement(&mut self, Ghost(fuel): Ghost<nat>) -> (r: Result<Statement, ()>)
        requires
            old(self).wf(),
            !(old(self).src().function_statement(old(self).pstate(), fuel) is Stuck),
        ensures
            final(self).wf(),
            final(self).lexer == old(self).lexer,
            final(self).module_file == old(self).module_file,
            stmt_outcome(old(self).src().function_statement(old(self).pstate(), fuel), r, final(self).pstate()),
        decreases fuel,
    {
        proof {
            reveal_with_fuel(Src::function_statement, 1);
        }
        let exported = self.match_expr(&[LogosToken::Export]);
        self.parse_function(exported, Ghost((fuel - 1) as nat))
    }

    fn parse_function(&mut self, exported: bool, Ghost(fuel): Ghost<nat>) -> (r: Result<Statement, ()>)
        requires
            old(self).wf(),
            !(old(self).src().function(old(self).pstate(), exported, fuel) is Stuck),
        ensures
            final(self).wf(),
            final(self).lexer == old(self).lexer,
            final(self).module_file == old(self).module_file,
            stmt_outcome(old(self).src().function(old(self).pstate(), exported, fuel), r, final(self).pstate()),
        decreases fuel,
    {
        proof {
            reveal_with_fuel(Src::function, 1);
        }
        let ghost f = (fuel - 1) as nat;
        if self.match_expr(&[LogosToken::Function]) {
            return self.parse_function_rest(exported, Ghost(f));
        }
        if self.match_expr(&[LogosToken::Struct]) {
            self.parse_struct_statement(exported, Ghost(f))
        } else {
            if exported {
                self.put_error_at_current_token("Expected 'fn' keyword after 'export'.");
                return Err(());
            }
            self.parse_if_statement(Ghost(f))
        }
    }

    fn parse_function_rest(&mut self, exported: bool, Ghost(fuel): Ghost<nat>) -> (r: Result<Statement, ()>)
        requires
            old(self).wf(),
            !(old(self).src().function_rest(old(self).pstate(), exported, fuel) is Stuck),
        ensures
            final(self).wf(),
            final(self).lexer == old(self).lexer,
            final(self).module_file == old(self).module_file,
            stmt_outcome(old(self).src().function_rest(old(self).pstate(), exported, fuel), r, final(self).pstate()),
        decreases fuel,
    {
        proof {
            reveal_with_fuel(Src::function_rest, 1);
        }
        let ghost f = (fuel - 1) as nat;
        let k = match self.consume_index(&LogosToken::Identifier(String::new()), "Expected identifier after fn.") {
            Some(k) => k,
            None => return Err(()),
        };
        let callee = self.text_at(k);
        if let None = self.consume_index(&LogosToken::LeftParenthesis, "Expected '(' after function identifier") {
            return Err(());
        }
        let args = self.fn_args(Ghost(f))?;
        if let None = self.consume_index(&LogosToken::RightParenthesis, "Expected ')' after args.") {
            return Err(());
        }
        let ghost parsed = args@;
        let args = if args.len() > 0 {
            Some(args)
        } else {
            None
        };
        proof {
            assert(args_view(parsed).len() == parsed.len());
            assert(opt_args_view(args) == nonempty(args_view(parsed)));
        }
        self.parse_function_body(callee, args, exported, Ghost(f))
    }

    fn parse_function_body(
        &mut self,
        callee: String,
        args: Option<Vec<Argument>>,
        exported: bool,
        Ghost(fuel): Ghost<nat>,
    ) -> (r: Result<Statement, ()>)
        requires
            old(self).wf(),
            !(old(self).src().function_body(old(self).pstate(), callee@, opt_args_view(args), exported, fuel) is Stuck),
        ensures
            final(self).wf(),
            final(self).lexer == old(self).lexer,
            final(self).module_file == old(self).module_file,
            stmt_outcome(
                old(self).src().function_body(old(self).pstate(), callee@, opt_args_view(args), exported, fuel),
                r,
                final(self).pstate(),
            ),
        decreases fuel,
    {
        proof {
            reveal_with_fuel(Src::function_body, 1);
        }
        let ghost f = (fuel - 1) as nat;
        if let None = self.consume_index(
            &LogosToken::Colon,
            "Expected ':' after ')', function return type must be declared.",
        ) {
            return Err(());
        }
        let return_type = self.value_type(Ghost(f))?;
        if !self.match_expr(&[LogosToken::LeftBrace]) {
            if let None = self.consume_index(&LogosToken::Semicolon, "Expected ';' after function declaration") {
                return Err(());
            }
            let (line, column) = self.get_current_token_postion();
            return Ok(Statement::Function(FunctionStatement {
                callee,
                args,
                block: None,
                return_type,
                is_exported: exported,
                line,
                column,
                filename: self.module_file.clone(),
            }));
        }
        let block = self.parse_block(Ghost(f))?;
        let (line, column) = self.get_current_token_postion();
        Ok(Statement::Function(FunctionStatement {
            callee,
            args,
            block: Some(block),
            return_type,
            is_exported: exported,
            line,
            column,
            filename: self.module_file.clone(),
        }))
    }

    fn fn_args(&mut self, Ghost(fuel): Ghost<nat>) -> (r: Result<Vec<Argument>, ()>)
        requires
            old(self).wf(),
            !(old(self).src().fn_args(old(self).pstate(), Seq::empty(), fuel) is Stuck),
        ensures
            final(self).wf(),
            final(self).lexer == old(self).lexer,
            final(self).module_file == old(self).module_file,
            args_outcome(old(self).src().fn_args(old(self).pstate(), Seq::empty(), fuel), r, final(self).pstate()),
        decreases fuel,
    {
        proof {
            reveal_with_fuel(Src::fn_args, 1);
        }
        let ghost goal = old(self).src().fn_args(old(self).pstate(), Seq::empty(), fuel);
        let ghost src = old(self).src();
        let mut args: Vec<Argument> = Vec::new();
        let ghost mut f: nat = fuel;
        proof {
            assert(args_view(args@) =~= Seq::<(Seq<char>, ValueType)>::empty());
        }
        loop
            invariant
                self.wf(),
                self.src() == src,
                self.lexer == old(self).lexer,
                self.module_file == old(self).module_file,
                goal == old(self).src().fn_args(old(self).pstate(), Seq::empty(), fuel),
                src.fn_args(self.pstate(), args_view(args@), f) == goal,
                !(goal is Stuck),
            decreases f,
        {
            proof {
                reveal_with_fuel(Src::fn_args, 1);
            }
            if !self.check(&LogosToken::Identifier(String::new())) {
                return Ok(args);
            }
            let k = self.advance_index();
            let id = self.text_at(k);
            if let None = self.consume_index(&LogosToken::Colon, "Expected ':' after argument identifier.") {
                return Err(());
            }
            let arg_type = self.value_type(Ghost((f - 1) as nat))?;
            proof {
                lemma_args_view_push(args@, (id, arg_type));
            }
            args.push((id, arg_type));
            if !self.match_expr(&[LogosToken::Comma]) {
                return Ok(args);
            }
            proof {
                f = (f - 1) as nat;
            }
        }
    }

    fn parse_struct_statement(&mut self, exported: bool, Ghost(fuel): Ghost<nat>) -> (r: Result<Statement, ()>)
        requires
            old(self).wf(),
            !(old(self).src().struct_statement(old(self).pstate(), exported, fuel) is Stuck),
        ensures
            final(self).wf(),
            final(self).lexer == old(self).lexer,
            final(self).module_file == old(self).module_file,
            stmt_outcome(old(self).src().struct_statement(old(self).pstate(), exported, fuel), r, final(self).pstate()),
        decreases fuel,
    {
        proof {
            reveal_with_fuel(Src::struct_statement, 1);
        }
        let k = match self.consume_index(
            &LogosToken::Identifier(String::new()),
            "Expected <type identifier> after 'struct'.",
        ) {
            Some(k) => k,
            None => return Err(()),
        };
        let struct_name = self.text_at(k);
        if let None = self.consume_index(&LogosToken::LeftBrace, "Expected '{' after struct type identifier.") {
            return Err(());
        }
        let fields = self.struct_fields(Ghost((fuel - 1) as nat))?;
        let (line, column) = self.get_current_token_postion();
        Ok(Statement::Struct(StructStatement {
            struct_name,
            fields,
            exported,
            line,
            column,
            filename: self.module_file.clone(),
        }))
    }

    fn struct_fields(&mut self, Ghost(fuel): Ghost<nat>) -> (r: Result<Vec<StructField>, ()>)
        requires
            old(self).wf(),
            !(old(self).src().struct_fields(old(self).pstate(), Seq::empty(), fuel) is Stuck),
        ensures
            final(self).wf(),
            final(self).lexer == old(self).lexer,
            final(self).module_file == old(self).module_file,
            args_outcome(old(self).src().struct_fields(old(self).pstate(), Seq::empty(), fuel), r, final(self).pstate()),
        decreases fuel,
    {
        proof {
            reveal_with_fuel(Src::struct_fields, 1);
        }
        let ghost goal = old(self).src().struct_fields(old(self).pstate(), Seq::empty(), fuel);
        let ghost src = old(self).src();
        let mut fields: Vec<StructField> = Vec::new();
        let ghost mut f: nat = fuel;
        proof {
            assert(args_view(fields@) =~= Seq::<(Seq<char>, ValueType)>::empty());
        }
        loop
            invariant
                self.wf(),
                self.src() == src,
                self.lexer == old(self).lexer,
                self.module_file == old(self).module_file,
                goal == old(self).src().struct_fields(old(self).pstate(), Seq::empty(), fuel),
                src.struct_fields(self.pstate(), args_view(fields@), f) == goal,
                !(goal is Stuck),
            decreases f,
        {
            proof {
                reveal_with_fuel(Src::struct_fields, 1);
            }
            let k = self.advance_index();
            if !matches!(self.lexer[k].logos_tk, LogosToken::Identifier(_)) {
                return Ok(fields);
            }
            let field_name = self.text_at(k);
            if let None = self.consume_index(&LogosToken::Colon, "Expected ':' after field identifier.") {
                return Err(());
            }
            let field_type = self.value_type(Ghost((f - 1) as nat))?;
            if let None = self.consume_index(&LogosToken::Semicolon, "Expected ';' after field type name.") {
                return Err(());
            }
            proof {
                lemma_args_view_push(fields@, (field_name, field_type));
            }
            fields.push((field_name, field_type));
            proof {
                f = (f - 1) as nat;
            }
        }
    }

    /// Parses statements up to the closing brace, the opening one being taken.
    fn parse_block(&mut self, Ghost(fuel): Ghost<nat>) -> (r: Result<BlockStatement, ()>)
        requires
            old(self).wf(),
            !(old(self).src().block(old(self).pstate(), fuel) is Stuck),
        ensures
            final(self).wf(),
            final(self).lexer == old(self).lexer,
            final(self).module_file == old(self).module_file,
            block_outcome(old(self).src().block(old(self).pstate(), fuel), r, final(self).pstate()),
        decreases fuel,
    {
        let ghost goal = old(self).src().block(old(self).pstate(), fuel);
        let ghost src = old(self).src();
        let mut statements: Vec<Statement> = Vec::new();
        let ghost mut f: nat = (fuel - 1) as nat;
        loop
            invariant
                self.wf(),
                self.src() == src,
                self.lexer == old(self).lexer,
                self.module_file == old(self).module_file,
                goal == old(self).src().block(old(self).pstate(), fuel),
                src.block_items(self.pstate(), stmts_view(statements@), f) == goal,
                f < fuel,
                !(goal is Stuck),
            decreases f,
        {
            if self.match_expr(&[LogosToken::RightBrace]) {
                let (line, column) = self.get_current_token_postion();
                return Ok(BlockStatement { statements, line, column, filename: self.module_file.clone() });
            }
            let s = self.parse_if_statement(Ghost((f - 1) as nat))?;
            proof {
                lemma_stmts_view_push(statements@, s);
            }
            statements.push(s);
            proof {
                f = (f - 1) as nat;
            }
        }
    }

    fn parse_if_statement(&mut self, Ghost(fuel): Ghost<nat>) -> (r: Result<Statement, ()>)
        requires
            old(self).wf(),
            !(old(self).src().if_statement(old(self).pstate(), fuel) is Stuck),
        ensures
            final(self).wf(),
            final(self).lexer == old(self).lexer,
            final(self).module_file == old(self).module_file,
            stmt_outcome(old(self).src().if_statement(old(self).pstate(), fuel), r, final(self).pstate()),
        decreases fuel,
    {
        let ghost f = (fuel - 1) as nat;
        if self.match_expr(&[LogosToken::If]) {
            let condition = self.expression(Ghost(f))?;
            let then_stmt = self.parse_block_statement(Ghost(f))?;
            proof {
                lemma_stmt_view_kind(then_stmt);
            }
            let then_branch = match then_stmt {
                Statement::Block(b) => b,
                _ => {
                    self.put_error_at_current_token("Expected block after if condition.");
                    return Err(());
                },
            };
            if self.check(&LogosToken::Else) {
                self.advance_index();
                let else_stmt = self.parse_block_statement(Ghost(f))?;
                proof {
                    lemma_stmt_view_kind(else_stmt);
                }
                let else_branch = match else_stmt {
                    Statement::Block(b) => b,
                    _ => {
                        self.put_error_at_current_token("Expected block after if condition.");
                        return Err(());
                    },
                };
                let (line, column) = self.get_current_token_postion();
                return Ok(Statement::IfStatement(IfStatement {
                    condition,
                    then_branch,
                    else_branch: Some(else_branch),
                    line,
                    column,
                    filename: self.module_file.clone(),
                }));
            }
            let (line, column) = self.get_current_token_postion();
            return Ok(Statement::IfStatement(IfStatement {
                condition,
                then_branch,
                else_branch: None,
                line,
                column,
                filename: self.module_file.clone(),
            }));
        }
        self.parse_for_statement(Ghost(f))
    }

    fn parse_for_statement(&mut self, Ghost(fuel): Ghost<nat>) -> (r: Result<Statement, ()>)
        requires
            old(self).wf(),
            !(old(self).src().for_statement(old(self).pstate(), fuel) is Stuck),
        ensures
            final(self).wf(),
            final(self).lexer == old(self).lexer,
            final(self).module_file == old(self).module_file,
            stmt_outcome(old(self).src().for_statement(old(self).pstate(), fuel), r, final(self).pstate()),
        decreases fuel,
    {
        let ghost f = (fuel - 1) as nat;
        if self.match_expr(&[LogosToken::For]) {
            let init_stmt = self.parse_declaration_statement(Ghost(f))?;
            proof {
                lemma_stmt_view_kind(init_stmt);
            }
            let init_expr = match init_stmt {
                Statement::VariableDeclaration(dec) => dec,
                _ => {
                    self.put_error_at_current_token("Expected variable declaration atfer for.");
                    return Err(());
                },
            };
            let loop_condition = self.expression(Ghost(f))?;
            if !self.check(&LogosToken::Semicolon) {
                self.put_error_at_current_token("Expected ';' after loop condition.");
                return Err(());
            }
            self.advance_index();
            let next_expr = self.parse_expression_statement(Ghost(f))?;
            let block = self.parse_block_statement(Ghost(f))?;
            proof {
                lemma_stmt_view_kind(block);
            }
            let block_stmt = match block {
                Statement::Block(b) => b,
                _ => {
                    self.put_error_at_current_token("Expected block statement in for statement.");
                    return Err(());
                },
            };
            let (line, column) = self.get_current_token_postion();
            return Ok(Statement::ForStatement(ForStatement {
                init_expr,
                loop_condition,
                next_expr: Box::new(next_expr),
                block_stmt,
                line,
                column,
                filename: self.module_file.clone(),
            }));
        }
        self.parse_while_statement(Ghost(f))
    }

    fn parse_while_statement(&mut self, Ghost(fuel): Ghost<nat>) -> (r: Result<Statement, ()>)
        requires
            old(self).wf(),
            !(old(self).src().while_statement(old(self).pstate(), fuel) is Stuck),
        ensures
            final(self).wf(),
            final(self).lexer == old(self).lexer,
            final(self).module_file == old(self).module_file,
            stmt_outcome(old(self).src().while_statement(old(self).pstate(), fuel), r, final(self).pstate()),
        decreases fuel,
    {
        let ghost f = (fuel - 1) as nat;
        if self.match_expr(&[LogosToken::While]) {
            let condition = self.expression(Ghost(f))?;
            let block = self.parse_block_statement(Ghost(f))?;
            proof {
                lemma_stmt_view_kind(block);
            }
            let loop_block = match block {
                Statement::Block(b) => b,
                _ => {
                    self.put_error_at_current_token("Expected block after 'while' condition.");
                    return Err(());
                },
            };
            let (line, column) = self.get_current_token_postion();
            return Ok(Statement::WhileStatement(WhileStatement {
                condition,
                loop_block,
                line,
                column,
                filename: self.module_file.clone(),
            }));
        }
        self.parse_loop_statement(Ghost(f))
    }

    fn parse_loop_statement(&mut self, Ghost(fuel): Ghost<nat>) -> (r: Result<Statement, ()>)
        requires
            old(self).wf(),
            !(old(self).src().loop_statement(old(self).pstate(), fuel) is Stuck),
        ensures
            final(self).wf(),
            final(self).lexer == old(self).lexer,
            final(self).module_file == old(self).module_file,
            stmt_outcome(old(self).src().loop_statement(old(self).pstate(), fuel), r, final(self).pstate()),
        decreases fuel,
    {
        proof {
            reveal(expr_view);
            reveal(exprs_view);
        }
        let ghost f = (fuel - 1) as nat;
        if self.match_expr(&[LogosToken::Loop]) {
            self.consume_index(&LogosToken::LeftBrace, "Expected '{' after 'loop'");
            let loop_block = self.parse_block(Ghost(f))?;
            let (line, column) = self.get_current_token_postion();
            // A loop is just a `while true {}`
            return Ok(Statement::WhileStatement(WhileStatement {
                condition: Expression::Literal(Literal::Bool(Bool {
                    value: true,
                    line,
                    column,
                    filename: self.module_file.clone(),
                })),
                loop_block,
                line,
                column,
                filename: self.module_file.clone(),
            }));
        }
        self.parse_block_statement(Ghost(f))
    }

    fn parse_block_statement(&mut self, Ghost(fuel): Ghost<nat>) -> (r: Result<Statement, ()>)
        requires
            old(self).wf(),
            !(old(self).src().block_statement(old(self).pstate(), fuel) is Stuck),
        ensures
            final(self).wf(),
            final(self).lexer == old(self).lexer,
            final(self).module_file == old(self).module_file,
            stmt_outcome(old(self).src().block_statement(old(self).pstate(), fuel), r, final(self).pstate()),
        decreases fuel,
    {
        if self.match_expr(&[LogosToken::LeftBrace]) {
            return Ok(Statement::Block(self.parse_block(Ghost((fuel - 1) as nat))?));
        }
        self.parse_return_statement(Ghost((fuel - 1) as nat))
    }

    fn parse_return_statement(&mut self, Ghost(fuel): Ghost<nat>) -> (r: Result<Statement, ()>)
        requires
            old(self).wf(),
            !(old(self).src().return_statement(old(self).pstate(), fuel) is Stuck),
        ensures
            final(self).wf(),
            final(self).lexer == old(self).lexer,
            final(self).module_file == old(self).module_file,
            stmt_outcome(old(self).src().return_statement(old(self).pstate(), fuel), r, final(self).pstate()),
        decreases fuel,
    {
        if self.match_expr(&[LogosToken::Return]) {
            let expr = self.expression(Ghost((fuel - 1) as nat))?;
            if let None = self.consume_index(&LogosToken::Semicolon, "Expected ';' after return expression.") {
                return Err(());
            }
            let (line, column) = self.get_current_token_postion();
            return Ok(Statement::Return(ReturnStatement { expr, line, column, filename: self.module_file.clone() }));
        }
        self.parse_declaration_statement(Ghost((fuel - 1) as nat))
    }

    fn parse_declaration_statement(&mut self, Ghost(fuel): Ghost<nat>) -> (r: Result<Statement, ()>)
        requires
            old(self).wf(),
            !(old(self).src().declaration(old(self).pstate(), fuel) is Stuck),
        ensures
            final(self).wf(),
            final(self).lexer == old(self).lexer,
            final(self).module_file == old(self).module_file,
            stmt_outcome(old(self).src().declaration(old(self).pstate(), fuel), r, final(self).pstate()),
        decreases fuel,
    {
        let ghost f = (fuel - 1) as nat;
        if self.match_expr(&[LogosToken::Let]) {
            let k = match self.consume_index(&LogosToken::Identifier(String::new()), "Expected identifier after Let") {
                Some(k) => k,
                None => return Err(()),
            };
            let identifier = self.text_at(k);
            if let None = self.consume_index(&LogosToken::Colon, "Expected ':' after identifier.") {
                return Err(());
            }
            let variable_type = self.value_type(Ghost(f))?;
            if let None = self.consume_index(&LogosToken::Equal, "Expected '=' after typename.") {
                return Err(());
            }
            let init_expr = self.expression(Ghost(f))?;
            if let None = self.consume_index(&LogosToken::Semicolon, "Expected ';' after <init_expr>.") {
                return Err(());
            }
            let (line, column) = self.get_current_token_postion();
            return Ok(Statement::VariableDeclaration(VariableDeclaration {
                identifier,
                variable_type,
                init_expr,
                line,
                column,
                filename: self.module_file.clone(),
            }));
        }
        self.parse_expression_statement(Ghost(f))
    }

    fn parse_expression_statement(&mut self, Ghost(fuel): Ghost<nat>) -> (r: Result<Statement, ()>)
        requires
            old(self).wf(),
            !(old(self).src().expression_statement(old(self).pstate(), fuel) is Stuck),
        ensures
            final(self).wf(),
            final(self).lexer == old(self).lexer,
            final(self).module_file == old(self).module_file,
            stmt_outcome(old(self).src().expression_statement(old(self).pstate(), fuel), r, final(self).pstate()),
        decreases fuel,
    {
        let ghost f = (fuel - 1) as nat;
        if self.match_expr(&[LogosToken::Break]) {
            if let None = self.consume_index(&LogosToken::Semicolon, "Expected ';' after assigment.") {
                return Err(());
            }
            let (line, column) = self.get_current_token_postion();
            return Ok(Statement::BreakStatement(BreakStatement { line, column, filename: self.module_file.clone() }));
        }
        let expr = self.expression(Ghost(f))?;
        if self.match_expr(&[LogosToken::Equal]) {
            let rhs = self.expression(Ghost(f))?;
            if let None = self.consume_index(&LogosToken::Semicolon, "Expected ';' after assigment.") {
                return Err(());
            }
            let (line, column) = self.get_current_token_postion();
            return Ok(Statement::VariableAssignment(VariableAssignment {
                identifier: expr,
                new_value: rhs,
                line,
                column,
                filename: self.module_file.clone(),
            }));
        }
        if let None = self.consume_index(&LogosToken::Semicolon, "Expected ';' after <expression>") {
            return Err(());
        }
        Ok(Statement::Expression(expr))
    }
}

} // verus!
