use vstd::prelude::*;
use crate::lexer::LogosToken;
use crate::parser::grammar::{PRes, PState, Src, token_string, token_text};
use crate::parser::visitors::{SBlock, SDecl, SExpr, SLiteral, SStmt};
use crate::value_type::{StaticArray, ValueType};

verus! {

/// `Some(v)` unless `v` is empty.
pub open spec fn nonempty<T>(v: Seq<T>) -> Option<Seq<T>> {
    if v.len() > 0 {
        Some(v)
    } else {
        None
    }
}

impl Src {
    /// A type: `number` and the other type names, `ptr t`, `[t; n]`, or a
    /// struct name.
    #[verifier::opaque]
    pub open spec fn value_type(self, st: PState, fuel: nat) -> PRes<ValueType>
        decreases fuel,
    {
        if fuel == 0 {
            PRes::Stuck
        } else if self.check(st.pos, LogosToken::LeftBracket) {
            let f = (fuel - 1) as nat;
            match self.value_type(st.at(st.pos + 1), f) {
                PRes::Done(t, s1) => match self.consume(s1, LogosToken::Semicolon, "Expected ';' after array type."@) {
                    PRes::Done(_, s2) => match self.consume(
                        s2,
                        LogosToken::Number(0),
                        "Expected constant number size"@,
                    ) {
                        PRes::Done(k, s3) => match self.consume(
                            s3,
                            LogosToken::RightBracket,
                            "Unclosed ']' after array size."@,
                        ) {
                            PRes::Done(_, s4) => PRes::Done(
                                ValueType::Array(
                                    StaticArray {
                                        size: match self.tok(k) {
                                            LogosToken::Number(n) => n as usize,
                                            _ => 0,
                                        },
                                        array_type: Box::new(t),
                                    },
                                ),
                                s4,
                            ),
                            PRes::Failed(s) => PRes::Failed(s),
                            PRes::Stuck => PRes::Stuck,
                        },
                        PRes::Failed(s) => PRes::Failed(s),
                        PRes::Stuck => PRes::Stuck,
                    },
                    PRes::Failed(s) => PRes::Failed(s),
                    PRes::Stuck => PRes::Stuck,
                },
                PRes::Failed(s) => PRes::Failed(s),
                PRes::Stuck => PRes::Stuck,
            }
        } else {
            let p1 = self.advanced(st.pos);
            if p1 <= 0 || p1 > self.toks.len() {
                PRes::Stuck
            } else {
                let s1 = st.at(p1);
                match self.tok(p1 - 1) {
                    LogosToken::Type(t) => PRes::Done(t, s1),
                    LogosToken::Pointer => match self.value_type(s1, (fuel - 1) as nat) {
                        PRes::Done(t, s2) => PRes::Done(ValueType::Pointer(Box::new(t)), s2),
                        PRes::Failed(s) => PRes::Failed(s),
                        PRes::Stuck => PRes::Stuck,
                    },
                    LogosToken::Identifier(name) => PRes::Done(ValueType::Struct(name), s1),
                    _ => PRes::Failed(s1.say("Expected type hints."@)),
                }
            }
        }
    }

    /// Top-level statements up to the end of the tokens, after `acc`.
    #[verifier::opaque]
    pub open spec fn program(self, st: PState, acc: Seq<SStmt>, fuel: nat) -> PRes<Seq<SStmt>>
        decreases fuel,
    {
        if fuel == 0 {
            PRes::Stuck
        } else if self.end(st.pos) {
            PRes::Done(acc, st)
        } else {
            match self.import_statement(st, (fuel - 1) as nat) {
                PRes::Done(s, s1) => self.program(s1, acc.push(s), (fuel - 1) as nat),
                PRes::Failed(s) => PRes::Failed(s),
                PRes::Stuck => PRes::Stuck,
            }
        }
    }

    /// `import "module";` or a function statement.
    #[verifier::opaque]
    pub open spec fn import_statement(self, st: PState, fuel: nat) -> PRes<SStmt>
        decreases fuel,
    {
        if fuel == 0 {
            PRes::Stuck
        } else if self.check(st.pos, LogosToken::Import) {
            match self.consume(
                st.at(st.pos + 1),
                LogosToken::Quote(arbitrary()),
                "Expected a string literal after 'import' keyword."@,
            ) {
                PRes::Done(k, s2) => match self.consume(s2, LogosToken::Semicolon, "Expected ';' after import statement."@) {
                    PRes::Done(_, s3) => match self.info(s3.pos) {
                        Some((l, c)) => PRes::Done(
                            SStmt::Import { file_path: self.path@, module: token_text(self.tok(k)), loc: self.here(l, c) },
                            s3,
                        ),
                        None => PRes::Stuck,
                    },
                    PRes::Failed(s) => PRes::Failed(s),
                    PRes::Stuck => PRes::Stuck,
                },
                PRes::Failed(s) => PRes::Failed(s),
                PRes::Stuck => PRes::Stuck,
            }
        } else {
            self.function_statement(st, (fuel - 1) as nat)
        }
    }

    /// An optional `export` before a function or struct.
    #[verifier::opaque]
    pub open spec fn function_statement(self, st: PState, fuel: nat) -> PRes<SStmt>
        decreases fuel,
    {
        if fuel == 0 {
            PRes::Stuck
        } else if self.check(st.pos, LogosToken::Export) {
            self.function(st.at(st.pos + 1), true, (fuel - 1) as nat)
        } else {
            self.function(st, false, (fuel - 1) as nat)
        }
    }

    /// A function (declared or defined), a struct, or an inner statement.
    #[verifier::opaque]
    pub open spec fn function(self, st: PState, exported: bool, fuel: nat) -> PRes<SStmt>
        decreases fuel,
    {
        if fuel == 0 {
            PRes::Stuck
        } else {
            let f = (fuel - 1) as nat;
            if self.check(st.pos, LogosToken::Function) {
                self.function_rest(st.at(st.pos + 1), exported, f)
            } else if self.check(st.pos, LogosToken::Struct) {
                self.struct_statement(st.at(st.pos + 1), exported, f)
            } else if exported {
                self.fail(st, "Expected 'fn' keyword after 'export'."@)
            } else {
                self.if_statement(st, f)
            }
        }
    }

    /// After `fn`: the name and the arguments in brackets, then the rest.
    #[verifier::opaque]
    pub open spec fn function_rest(self, st: PState, exported: bool, fuel: nat) -> PRes<SStmt>
        decreases fuel,
    {
        if fuel == 0 {
            PRes::Stuck
        } else {
            let f = (fuel - 1) as nat;
            match self.consume(st, LogosToken::Identifier(arbitrary()), "Expected identifier after fn."@) {
                PRes::Done(k, s2) => match self.consume(
                    s2,
                    LogosToken::LeftParenthesis,
                    "Expected '(' after function identifier"@,
                ) {
                    PRes::Done(_, s3) => match self.fn_args(s3, Seq::empty(), f) {
                        PRes::Done(args, s4) => match self.consume(s4, LogosToken::RightParenthesis, "Expected ')' after args."@) {
                            PRes::Done(_, s5) => self.function_body(s5, token_text(self.tok(k)), nonempty(args), exported, f),
                            PRes::Failed(s) => PRes::Failed(s),
                            PRes::Stuck => PRes::Stuck,
                        },
                        PRes::Failed(s) => PRes::Failed(s),
                        PRes::Stuck => PRes::Stuck,
                    },
                    PRes::Failed(s) => PRes::Failed(s),
                    PRes::Stuck => PRes::Stuck,
                },
                PRes::Failed(s) => PRes::Failed(s),
                PRes::Stuck => PRes::Stuck,
            }
        }
    }

    /// `: type`, then `;` for a declaration or a block for a definition.
    #[verifier::opaque]
    pub open spec fn function_body(
        self,
        st: PState,
        callee: Seq<char>,
        args: Option<Seq<(Seq<char>, ValueType)>>,
        exported: bool,
        fuel: nat,
    ) -> PRes<SStmt>
        decreases fuel,
    {
        if fuel == 0 {
            PRes::Stuck
        } else {
            let f = (fuel - 1) as nat;
            match self.consume(
                st,
                LogosToken::Colon,
                "Expected ':' after ')', function return type must be declared."@,
            ) {
                PRes::Done(_, s6) => match self.value_type(s6, f) {
                    PRes::Done(rt, s7) => if !self.check(s7.pos, LogosToken::LeftBrace) {
                        match self.consume(s7, LogosToken::Semicolon, "Expected ';' after function declaration"@) {
                            PRes::Done(_, s8) => match self.info(s8.pos) {
                                Some((l, c)) => PRes::Done(
                                    SStmt::Function { callee, args, block: None, return_type: rt, exported, loc: self.here(l, c) },
                                    s8,
                                ),
                                None => PRes::Stuck,
                            },
                            PRes::Failed(s) => PRes::Failed(s),
                            PRes::Stuck => PRes::Stuck,
                        }
                    } else {
                        match self.block(s7.at(s7.pos + 1), f) {
                            PRes::Done(b, s8) => match self.info(s8.pos) {
                                Some((l, c)) => PRes::Done(
                                    SStmt::Function { callee, args, block: Some(b), return_type: rt, exported, loc: self.here(l, c) },
                                    s8,
                                ),
                                None => PRes::Stuck,
                            },
                            PRes::Failed(s) => PRes::Failed(s),
                            PRes::Stuck => PRes::Stuck,
                        }
                    },
                    PRes::Failed(s) => PRes::Failed(s),
                    PRes::Stuck => PRes::Stuck,
                },
                PRes::Failed(s) => PRes::Failed(s),
                PRes::Stuck => PRes::Stuck,
            }
        }
    }

    /// `name: type` arguments separated by commas, after `acc`.
    #[verifier::opaque]
    pub open spec fn fn_args(self, st: PState, acc: Seq<(Seq<char>, ValueType)>, fuel: nat) -> PRes<Seq<(Seq<char>, ValueType)>>
        decreases fuel,
    {
        if fuel == 0 {
            PRes::Stuck
        } else if !self.check(st.pos, LogosToken::Identifier(arbitrary())) {
            PRes::Done(acc, st)
        } else {
            let name = token_text(self.tok(st.pos));
            match self.consume(st.at(st.pos + 1), LogosToken::Colon, "Expected ':' after argument identifier."@) {
                PRes::Done(_, s2) => match self.value_type(s2, (fuel - 1) as nat) {
                    PRes::Done(t, s3) => if self.check(s3.pos, LogosToken::Comma) {
                        self.fn_args(s3.at(s3.pos + 1), acc.push((name, t)), (fuel - 1) as nat)
                    } else {
                        PRes::Done(acc.push((name, t)), s3)
                    },
                    PRes::Failed(s) => PRes::Failed(s),
                    PRes::Stuck => PRes::Stuck,
                },
                PRes::Failed(s) => PRes::Failed(s),
                PRes::Stuck => PRes::Stuck,
            }
        }
    }

    /// `Name { field: type; ... }` after `struct`.
    #[verifier::opaque]
    pub open spec fn struct_statement(self, st: PState, exported: bool, fuel: nat) -> PRes<SStmt>
        decreases fuel,
    {
        if fuel == 0 {
            PRes::Stuck
        } else {
            match self.consume(st, LogosToken::Identifier(arbitrary()), "Expected <type identifier> after 'struct'."@) {
                PRes::Done(k, s1) => match self.consume(s1, LogosToken::LeftBrace, "Expected '{' after struct type identifier."@) {
                    PRes::Done(_, s2) => match self.struct_fields(s2, Seq::empty(), (fuel - 1) as nat) {
                        PRes::Done(fields, s3) => match self.info(s3.pos) {
                            Some((l, c)) => PRes::Done(
                                SStmt::Struct { name: token_string(self.tok(k)), fields, exported, loc: self.here(l, c) },
                                s3,
                            ),
                            None => PRes::Stuck,
                        },
                        PRes::Failed(s) => PRes::Failed(s),
                        PRes::Stuck => PRes::Stuck,
                    },
                    PRes::Failed(s) => PRes::Failed(s),
                    PRes::Stuck => PRes::Stuck,
                },
                PRes::Failed(s) => PRes::Failed(s),
                PRes::Stuck => PRes::Stuck,
            }
        }
    }

    /// Fields `name: type;`, after `acc`; the token that ends them is taken.
    #[verifier::opaque]
    pub open spec fn struct_fields(self, st: PState, acc: Seq<(Seq<char>, ValueType)>, fuel: nat) -> PRes<Seq<(Seq<char>, ValueType)>>
        decreases fuel,
    {
        if fuel == 0 {
            PRes::Stuck
        } else {
            let p1 = self.advanced(st.pos);
            if p1 <= 0 || p1 > self.toks.len() {
                PRes::Stuck
            } else if self.tok(p1 - 1) is Identifier {
                let name = token_text(self.tok(p1 - 1));
                match self.consume(st.at(p1), LogosToken::Colon, "Expected ':' after field identifier."@) {
                    PRes::Done(_, s2) => match self.value_type(s2, (fuel - 1) as nat) {
                        PRes::Done(t, s3) => match self.consume(s3, LogosToken::Semicolon, "Expected ';' after field type name."@) {
                            PRes::Done(_, s4) => self.struct_fields(s4, acc.push((name, t)), (fuel - 1) as nat),
                            PRes::Failed(s) => PRes::Failed(s),
                            PRes::Stuck => PRes::Stuck,
                        },
                        PRes::Failed(s) => PRes::Failed(s),
                        PRes::Stuck => PRes::Stuck,
                    },
                    PRes::Failed(s) => PRes::Failed(s),
                    PRes::Stuck => PRes::Stuck,
                }
            } else {
                PRes::Done(acc, st.at(p1))
            }
        }
    }

    /// Statements up to the closing brace (taken), the opening one being taken.
    pub open spec fn block(self, st: PState, fuel: nat) -> PRes<SBlock>
        decreases fuel,
    {
        if fuel == 0 {
            PRes::Stuck
        } else {
            self.block_items(st, Seq::empty(), (fuel - 1) as nat)
        }
    }

    pub open spec fn block_items(self, st: PState, acc: Seq<SStmt>, fuel: nat) -> PRes<SBlock>
        decreases fuel,
    {
        if fuel == 0 {
            PRes::Stuck
        } else if self.check(st.pos, LogosToken::RightBrace) {
            let s1 = st.at(st.pos + 1);
            match self.info(s1.pos) {
                Some((l, c)) => PRes::Done(SBlock { stmts: acc, loc: self.here(l, c) }, s1),
                None => PRes::Stuck,
            }
        } else {
            match self.if_statement(st, (fuel - 1) as nat) {
                PRes::Done(s, s1) => self.block_items(s1, acc.push(s), (fuel - 1) as nat),
                PRes::Failed(s) => PRes::Failed(s),
                PRes::Stuck => PRes::Stuck,
            }
        }
    }

    /// `if cond { } [else { }]`, or a `for` statement.
    pub open spec fn if_statement(self, st: PState, fuel: nat) -> PRes<SStmt>
        decreases fuel,
    {
        if fuel == 0 {
            PRes::Stuck
        } else if self.check(st.pos, LogosToken::If) {
            let f = (fuel - 1) as nat;
            match self.expression(st.at(st.pos + 1), f) {
                PRes::Done(cond, s2) => match self.block_statement(s2, f) {
                    PRes::Done(SStmt::Block(then_branch), s3) => if self.check(s3.pos, LogosToken::Else) {
                        match self.block_statement(s3.at(s3.pos + 1), f) {
                            PRes::Done(SStmt::Block(else_branch), s5) => match self.info(s5.pos) {
                                Some((l, c)) => PRes::Done(
                                    SStmt::If { cond, then_branch, else_branch: Some(else_branch), loc: self.here(l, c) },
                                    s5,
                                ),
                                None => PRes::Stuck,
                            },
                            PRes::Done(_, s5) => self.fail(s5, "Expected block after if condition."@),
                            PRes::Failed(s) => PRes::Failed(s),
                            PRes::Stuck => PRes::Stuck,
                        }
                    } else {
                        match self.info(s3.pos) {
                            Some((l, c)) => PRes::Done(
                                SStmt::If { cond, then_branch, else_branch: None, loc: self.here(l, c) },
                                s3,
                            ),
                            None => PRes::Stuck,
                        }
                    },
                    PRes::Done(_, s3) => self.fail(s3, "Expected block after if condition."@),
                    PRes::Failed(s) => PRes::Failed(s),
                    PRes::Stuck => PRes::Stuck,
                },
                PRes::Failed(s) => PRes::Failed(s),
                PRes::Stuck => PRes::Stuck,
            }
        } else {
            self.for_statement(st, (fuel - 1) as nat)
        }
    }

    /// `for let i: t = e; cond; next; { }`, or a `while` statement.
    pub open spec fn for_statement(self, st: PState, fuel: nat) -> PRes<SStmt>
        decreases fuel,
    {
        if fuel == 0 {
            PRes::Stuck
        } else if self.check(st.pos, LogosToken::For) {
            let f = (fuel - 1) as nat;
            match self.declaration(st.at(st.pos + 1), f) {
                PRes::Done(SStmt::Declaration(init), s2) => match self.expression(s2, f) {
                    PRes::Done(cond, s3) => if !self.check(s3.pos, LogosToken::Semicolon) {
                        self.fail(s3, "Expected ';' after loop condition."@)
                    } else {
                        match self.expression_statement(s3.at(s3.pos + 1), f) {
                            PRes::Done(next, s5) => match self.block_statement(s5, f) {
                                PRes::Done(SStmt::Block(body), s6) => match self.info(s6.pos) {
                                    Some((l, c)) => PRes::Done(
                                        SStmt::For { init, cond, next: Box::new(next), body, loc: self.here(l, c) },
                                        s6,
                                    ),
                                    None => PRes::Stuck,
                                },
                                PRes::Done(_, s6) => self.fail(s6, "Expected block statement in for statement."@),
                                PRes::Failed(s) => PRes::Failed(s),
                                PRes::Stuck => PRes::Stuck,
                            },
                            PRes::Failed(s) => PRes::Failed(s),
                            PRes::Stuck => PRes::Stuck,
                        }
                    },
                    PRes::Failed(s) => PRes::Failed(s),
                    PRes::Stuck => PRes::Stuck,
                },
                PRes::Done(_, s2) => self.fail(s2, "Expected variable declaration atfer for."@),
                PRes::Failed(s) => PRes::Failed(s),
                PRes::Stuck => PRes::Stuck,
            }
        } else {
            self.while_statement(st, (fuel - 1) as nat)
        }
    }

    /// `while cond { }`, or a `loop` statement.
    pub open spec fn while_statement(self, st: PState, fuel: nat) -> PRes<SStmt>
        decreases fuel,
    {
        if fuel == 0 {
            PRes::Stuck
        } else if self.check(st.pos, LogosToken::While) {
            let f = (fuel - 1) as nat;
            match self.expression(st.at(st.pos + 1), f) {
                PRes::Done(cond, s2) => match self.block_statement(s2, f) {
                    PRes::Done(SStmt::Block(body), s3) => match self.info(s3.pos) {
                        Some((l, c)) => PRes::Done(SStmt::While { cond, body, loc: self.here(l, c) }, s3),
                        None => PRes::Stuck,
                    },
                    PRes::Done(_, s3) => self.fail(s3, "Expected block after 'while' condition."@),
                    PRes::Failed(s) => PRes::Failed(s),
                    PRes::Stuck => PRes::Stuck,
                },
                PRes::Failed(s) => PRes::Failed(s),
                PRes::Stuck => PRes::Stuck,
            }
        } else {
            self.loop_statement(st, (fuel - 1) as nat)
        }
    }

    /// `loop { }`, read as `while true { }`, or a block statement. A missing
    /// `{` after `loop` is reported and parsing goes on.
    pub open spec fn loop_statement(self, st: PState, fuel: nat) -> PRes<SStmt>
        decreases fuel,
    {
        if fuel == 0 {
            PRes::Stuck
        } else if self.check(st.pos, LogosToken::Loop) {
            let s2 = match self.consume(st.at(st.pos + 1), LogosToken::LeftBrace, "Expected '{' after 'loop'"@) {
                PRes::Done(_, s) => s,
                PRes::Failed(s) => s,
                PRes::Stuck => st,
            };
            match self.block(s2, (fuel - 1) as nat) {
                PRes::Done(body, s3) => match self.info(s3.pos) {
                    Some((l, c)) => PRes::Done(
                        SStmt::While {
                            cond: SExpr::Literal(SLiteral::Bool(true), self.here(l, c)),
                            body,
                            loc: self.here(l, c),
                        },
                        s3,
                    ),
                    None => PRes::Stuck,
                },
                PRes::Failed(s) => PRes::Failed(s),
                PRes::Stuck => PRes::Stuck,
            }
        } else {
            self.block_statement(st, (fuel - 1) as nat)
        }
    }

    /// `{ statements }`, or a `return` statement.
    pub open spec fn block_statement(self, st: PState, fuel: nat) -> PRes<SStmt>
        decreases fuel,
    {
        if fuel == 0 {
            PRes::Stuck
        } else if self.check(st.pos, LogosToken::LeftBrace) {
            match self.block(st.at(st.pos + 1), (fuel - 1) as nat) {
                PRes::Done(b, s) => PRes::Done(SStmt::Block(b), s),
                PRes::Failed(s) => PRes::Failed(s),
                PRes::Stuck => PRes::Stuck,
            }
        } else {
            self.return_statement(st, (fuel - 1) as nat)
        }
    }

    /// `return e;`, or a declaration.
    pub open spec fn return_statement(self, st: PState, fuel: nat) -> PRes<SStmt>
        decreases fuel,
    {
        if fuel == 0 {
            PRes::Stuck
        } else if self.check(st.pos, LogosToken::Return) {
            match self.expression(st.at(st.pos + 1), (fuel - 1) as nat) {
                PRes::Done(e, s2) => match self.consume(s2, LogosToken::Semicolon, "Expected ';' after return expression."@) {
                    PRes::Done(_, s3) => match self.info(s3.pos) {
                        Some((l, c)) => PRes::Done(SStmt::Return(e, self.here(l, c)), s3),
                        None => PRes::Stuck,
                    },
                    PRes::Failed(s) => PRes::Failed(s),
                    PRes::Stuck => PRes::Stuck,
                },
                PRes::Failed(s) => PRes::Failed(s),
                PRes::Stuck => PRes::Stuck,
            }
        } else {
            self.declaration(st, (fuel - 1) as nat)
        }
    }

    /// `let name: type = e;`, or an expression statement.
    pub open spec fn declaration(self, st: PState, fuel: nat) -> PRes<SStmt>
        decreases fuel,
    {
        if fuel == 0 {
            PRes::Stuck
        } else if self.check(st.pos, LogosToken::Let) {
            let f = (fuel - 1) as nat;
            match self.consume(st.at(st.pos + 1), LogosToken::Identifier(arbitrary()), "Expected identifier after Let"@) {
                PRes::Done(k, s2) => match self.consume(s2, LogosToken::Colon, "Expected ':' after identifier."@) {
                    PRes::Done(_, s3) => match self.value_type(s3, f) {
                        PRes::Done(ty, s4) => match self.consume(s4, LogosToken::Equal, "Expected '=' after typename."@) {
                            PRes::Done(_, s5) => match self.expression(s5, f) {
                                PRes::Done(init, s6) => match self.consume(s6, LogosToken::Semicolon, "Expected ';' after <init_expr>."@) {
                                    PRes::Done(_, s7) => match self.info(s7.pos) {
                                        Some((l, c)) => PRes::Done(
                                            SStmt::Declaration(
                                                SDecl { name: token_text(self.tok(k)), ty, init, loc: self.here(l, c) },
                                            ),
                                            s7,
                                        ),
                                        None => PRes::Stuck,
                                    },
                                    PRes::Failed(s) => PRes::Failed(s),
                                    PRes::Stuck => PRes::Stuck,
                                },
                                PRes::Failed(s) => PRes::Failed(s),
                                PRes::Stuck => PRes::Stuck,
                            },
                            PRes::Failed(s) => PRes::Failed(s),
                            PRes::Stuck => PRes::Stuck,
                        },
                        PRes::Failed(s) => PRes::Failed(s),
                        PRes::Stuck => PRes::Stuck,
                    },
                    PRes::Failed(s) => PRes::Failed(s),
                    PRes::Stuck => PRes::Stuck,
                },
                PRes::Failed(s) => PRes::Failed(s),
                PRes::Stuck => PRes::Stuck,
            }
        } else {
            self.expression_statement(st, (fuel - 1) as nat)
        }
    }

    /// `break;`, `target = value;` or `e;`.
    pub open spec fn expression_statement(self, st: PState, fuel: nat) -> PRes<SStmt>
        decreases fuel,
    {
        if fuel == 0 {
            PRes::Stuck
        } else if self.check(st.pos, LogosToken::Break) {
            match self.consume(st.at(st.pos + 1), LogosToken::Semicolon, "Expected ';' after assigment."@) {
                PRes::Done(_, s2) => match self.info(s2.pos) {
                    Some((l, c)) => PRes::Done(SStmt::Break(self.here(l, c)), s2),
                    None => PRes::Stuck,
                },
                PRes::Failed(s) => PRes::Failed(s),
                PRes::Stuck => PRes::Stuck,
            }
        } else {
            let f = (fuel - 1) as nat;
            match self.expression(st, f) {
                PRes::Done(e, s1) => if self.check(s1.pos, LogosToken::Equal) {
                    match self.expression(s1.at(s1.pos + 1), f) {
                        PRes::Done(rhs, s2) => match self.consume(s2, LogosToken::Semicolon, "Expected ';' after assigment."@) {
                            PRes::Done(_, s3) => match self.info(s3.pos) {
                                Some((l, c)) => PRes::Done(
                                    SStmt::Assignment { target: e, value: rhs, loc: self.here(l, c) },
                                    s3,
                                ),
                                None => PRes::Stuck,
                            },
                            PRes::Failed(s) => PRes::Failed(s),
                            PRes::Stuck => PRes::Stuck,
                        },
                        PRes::Failed(s) => PRes::Failed(s),
                        PRes::Stuck => PRes::Stuck,
                    }
                } else {
                    match self.consume(s1, LogosToken::Semicolon, "Expected ';' after <expression>"@) {
                        PRes::Done(_, s2) => PRes::Done(SStmt::Expression(e), s2),
                        PRes::Failed(s) => PRes::Failed(s),
                        PRes::Stuck => PRes::Stuck,
                    }
                },
                PRes::Failed(s) => PRes::Failed(s),
                PRes::Stuck => PRes::Stuck,
            }
        }
    }
}

} // verus!
