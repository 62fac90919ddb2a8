use vstd::prelude::*;
use crate::lexer::{LogosToken, Token, token_eq, token_kind};
use crate::parser::visitors::{ArithOp, Loc, LogicOp, SExpr, SLiteral, UnaryOp};
use crate::text::decimal;
use crate::value_type::{StaticArray, ValueType};

verus! {

/// Where the parser stands: the index of the current token and the error
/// messages reported so far.
pub struct PState {
    pub pos: int,
    pub msgs: Seq<Seq<char>>,
}

impl PState {
    pub open spec fn at(self, pos: int) -> PState {
        PState { pos, msgs: self.msgs }
    }

    pub open spec fn say(self, m: Seq<char>) -> PState {
        PState { pos: self.pos, msgs: self.msgs.push(m) }
    }
}

/// Outcome of a parsing function: a value and the state after it, a failure
/// and the state after it, or no outcome (the parser would recurse forever or
/// stop on a panic).
pub enum PRes<T> {
    Done(T, PState),
    Failed(PState),
    Stuck,
}

/// The tokens being parsed and the path of their module.
pub struct Src {
    pub toks: Seq<Token>,
    pub path: String,
}

/// Text of `path:line:column Error: msg`.
pub open spec fn located(path: Seq<char>, line: usize, column: usize, msg: Seq<char>) -> Seq<char> {
    path + ":"@ + decimal(line as nat) + ":"@ + decimal(column as nat) + " Error: "@ + msg
}

/// The name of a token as `{:?}` writes it, for the tokens that can reach the
/// "unexpected token" error (a `Type` token writes its type elsewhere).
pub open spec fn token_debug(t: LogosToken) -> Seq<char> {
    match t {
        LogosToken::If => "If"@,
        LogosToken::Else => "Else"@,
        LogosToken::While => "While"@,
        LogosToken::For => "For"@,
        LogosToken::Loop => "Loop"@,
        LogosToken::Let => "Let"@,
        LogosToken::Break => "Break"@,
        LogosToken::Continue => "Continue"@,
        LogosToken::Function => "Function"@,
        LogosToken::Struct => "Struct"@,
        LogosToken::Export => "Export"@,
        LogosToken::Return => "Return"@,
        LogosToken::Import => "Import"@,
        LogosToken::Equal => "Equal"@,
        LogosToken::Plus => "Plus"@,
        LogosToken::Minus => "Minus"@,
        LogosToken::Multiply => "Multiply"@,
        LogosToken::Divide => "Divide"@,
        LogosToken::Modulo => "Modulo"@,
        LogosToken::Dot => "Dot"@,
        LogosToken::Not => "Not"@,
        LogosToken::And => "And"@,
        LogosToken::Or => "Or"@,
        LogosToken::Equality => "Equality"@,
        LogosToken::NegEquality => "NegEquality"@,
        LogosToken::Less => "Less"@,
        LogosToken::More => "More"@,
        LogosToken::LessEqual => "LessEqual"@,
        LogosToken::MoreEqual => "MoreEqual"@,
        LogosToken::LeftBrace => "LeftBrace"@,
        LogosToken::RightBrace => "RightBrace"@,
        LogosToken::LeftBracket => "LeftBracket"@,
        LogosToken::RightBracket => "RightBracket"@,
        LogosToken::LeftParenthesis => "LeftParenthesis"@,
        LogosToken::RightParenthesis => "RightParenthesis"@,
        LogosToken::Comma => "Comma"@,
        LogosToken::Semicolon => "Semicolon"@,
        LogosToken::Colon => "Colon"@,
        LogosToken::DoubleColon => "DoubleColon"@,
        LogosToken::True => "True"@,
        LogosToken::False => "False"@,
        LogosToken::Pointer => "Pointer"@,
        LogosToken::Dereference => "Dereference"@,
        LogosToken::AddressOf => "AddressOf"@,
        LogosToken::Null => "Null"@,
        LogosToken::Type(_) => "Type()"@,
        LogosToken::EndOfFile => "EndOfFile"@,
        LogosToken::Comment => "Comment"@,
        LogosToken::NewLine => "NewLine"@,
        LogosToken::Error => "Error"@,
        LogosToken::Quote(_) => "Quote"@,
        LogosToken::CharLiteral(_) => "CharLiteral"@,
        LogosToken::Number(_) => "Number"@,
        LogosToken::Real(_) => "Real"@,
        LogosToken::Identifier(_) => "Identifier"@,
    }
}

impl Src {
    pub open spec fn tok(self, pos: int) -> LogosToken {
        self.toks[pos].logos_tk
    }

    /// No token is left: the end of the tokens, or an end-of-file token.
    pub open spec fn end(self, pos: int) -> bool {
        pos >= self.toks.len() || self.tok(pos) is EndOfFile
    }

    /// The current token compares equal to `t`.
    pub open spec fn check(self, pos: int, t: LogosToken) -> bool {
        !self.end(pos) && token_eq(self.tok(pos), t)
    }

    /// Position after `advance`: one token further unless at the end.
    pub open spec fn advanced(self, pos: int) -> int {
        if self.end(pos) {
            pos
        } else {
            pos + 1
        }
    }

    /// The token used for positions: the current one, or the last one at the end.
    pub open spec fn info(self, pos: int) -> Option<(usize, usize)> {
        if !self.end(pos) {
            Some((self.toks[pos].line_number, self.toks[pos].column_number))
        } else if 0 < pos <= self.toks.len() {
            Some((self.toks[pos - 1].line_number, self.toks[pos - 1].column_number))
        } else {
            None
        }
    }

    /// The message `consume` reports when the expected token is missing.
    pub open spec fn consume_error(self, pos: int, msg: Seq<char>) -> Seq<char> {
        if !self.end(pos) {
            located(self.path@, self.toks[pos].line_number, self.toks[pos].column_number, msg)
        } else {
            self.path@ + ": Error: "@ + msg
        }
    }

    /// `consume`: takes the current token if it compares equal to `t`
    /// (returning its index), else reports `msg`.
    pub open spec fn consume(self, st: PState, t: LogosToken, msg: Seq<char>) -> PRes<int> {
        if self.check(st.pos, t) {
            PRes::Done(st.pos, st.at(st.pos + 1))
        } else {
            PRes::Failed(st.say(self.consume_error(st.pos, msg)))
        }
    }

    /// `put_error_at_current_token`.
    pub open spec fn put_error(self, st: PState, msg: Seq<char>) -> PRes<()> {
        match self.info(st.pos) {
            Some((l, c)) => PRes::Done((), st.say(located(self.path@, l, c, msg))),
            None => PRes::Stuck,
        }
    }

    /// Fails after reporting `msg` at the current token.
    pub open spec fn fail<T>(self, st: PState, msg: Seq<char>) -> PRes<T> {
        match self.put_error(st, msg) {
            PRes::Done(_, s) => PRes::Failed(s),
            _ => PRes::Stuck,
        }
    }
}

/// Precedence levels of binary operators, loosest first.
pub enum Level {
    Or,
    And,
    Equality,
    Comparison,
    Term,
    Factor,
}

/// The operator of `level` that token `t` denotes, if any.
pub open spec fn level_operator(level: Level, t: LogosToken) -> bool {
    match level {
        Level::Or => t is Or,
        Level::And => t is And,
        Level::Equality => t is Equality || t is NegEquality,
        Level::Comparison => t is Less || t is More || t is LessEqual || t is MoreEqual,
        Level::Term => t is Plus || t is Minus,
        Level::Factor => t is Multiply || t is Divide || t is Modulo,
    }
}

/// The expression `left op right` for operator token `op`.
pub open spec fn combine(op: LogosToken, left: SExpr, right: SExpr) -> SExpr {
    let l = Box::new(left);
    let r = Box::new(right);
    match op {
        LogosToken::Or => SExpr::Logic(LogicOp::Or, l, r),
        LogosToken::And => SExpr::Logic(LogicOp::And, l, r),
        LogosToken::Equality => SExpr::Logic(LogicOp::Equal, l, r),
        LogosToken::NegEquality => SExpr::Logic(LogicOp::NotEqual, l, r),
        LogosToken::Less => SExpr::Logic(LogicOp::Less, l, r),
        LogosToken::More => SExpr::Logic(LogicOp::More, l, r),
        LogosToken::LessEqual => SExpr::Logic(LogicOp::LessEqual, l, r),
        LogosToken::MoreEqual => SExpr::Logic(LogicOp::MoreEqual, l, r),
        LogosToken::Plus => SExpr::Arith(ArithOp::Plus, l, r),
        LogosToken::Minus => SExpr::Arith(ArithOp::Minus, l, r),
        LogosToken::Multiply => SExpr::Arith(ArithOp::Multiply, l, r),
        LogosToken::Divide => SExpr::Arith(ArithOp::Divide, l, r),
        _ => SExpr::Arith(ArithOp::Modulo, l, r),
    }
}

/// The level whose expressions are the operands of `level`.
pub open spec fn next_level(level: Level) -> Level {
    match level {
        Level::Or => Level::And,
        Level::And => Level::Equality,
        Level::Equality => Level::Comparison,
        Level::Comparison => Level::Term,
        Level::Term => Level::Factor,
        Level::Factor => Level::Factor,
    }
}

/// The name carried by an identifier token.
pub open spec fn token_text(t: LogosToken) -> Seq<char> {
    match t {
        LogosToken::Identifier(s) => s@,
        LogosToken::Quote(s) => s@,
        _ => Seq::empty(),
    }
}

/// The string carried by an identifier or string token.
pub open spec fn token_string(t: LogosToken) -> String {
    match t {
        LogosToken::Identifier(s) => s,
        LogosToken::Quote(s) => s,
        _ => arbitrary(),
    }
}

impl Src {
    pub open spec fn here(self, line: usize, column: usize) -> Loc {
        Loc { line, column, file: self.path@ }
    }

    /// An expression (`or`, the loosest level).
    pub open spec fn expression(self, st: PState, fuel: nat) -> PRes<SExpr>
        decreases fuel,
    {
        if fuel == 0 {
            PRes::Stuck
        } else {
            self.level(Level::Or, st, (fuel - 1) as nat)
        }
    }

    /// The operand of a binary operator of `level`.
    pub open spec fn operand(self, level: Level, st: PState, fuel: nat) -> PRes<SExpr>
        decreases fuel,
    {
        if fuel == 0 {
            PRes::Stuck
        } else {
            match level {
                Level::Factor => self.unary(st, (fuel - 1) as nat),
                _ => self.level(next_level(level), st, (fuel - 1) as nat),
            }
        }
    }

    /// Operands of `level` joined by its operators, to the left.
    pub open spec fn level(self, level: Level, st: PState, fuel: nat) -> PRes<SExpr>
        decreases fuel,
    {
        if fuel == 0 {
            PRes::Stuck
        } else {
            match self.operand(level, st, (fuel - 1) as nat) {
                PRes::Done(left, s1) => self.level_loop(level, left, s1, (fuel - 1) as nat),
                PRes::Failed(s) => PRes::Failed(s),
                PRes::Stuck => PRes::Stuck,
            }
        }
    }

    /// The operators of `level` that follow `left`; the right operand of an
    /// equality is itself an equality.
    pub open spec fn level_loop(self, level: Level, left: SExpr, st: PState, fuel: nat) -> PRes<SExpr>
        decreases fuel,
    {
        if fuel == 0 {
            PRes::Stuck
        } else if !self.end(st.pos) && level_operator(level, self.tok(st.pos)) {
            let op = self.tok(st.pos);
            let s1 = st.at(st.pos + 1);
            let right = match level {
                Level::Equality => self.level(Level::Equality, s1, (fuel - 1) as nat),
                _ => self.operand(level, s1, (fuel - 1) as nat),
            };
            match right {
                PRes::Done(r, s2) => self.level_loop(level, combine(op, left, r), s2, (fuel - 1) as nat),
                PRes::Failed(s) => PRes::Failed(s),
                PRes::Stuck => PRes::Stuck,
            }
        } else {
            PRes::Done(left, st)
        }
    }

    /// `-e`, `not e`, or a call.
    pub open spec fn unary(self, st: PState, fuel: nat) -> PRes<SExpr>
        decreases fuel,
    {
        if fuel == 0 {
            PRes::Stuck
        } else if !self.end(st.pos) && (self.tok(st.pos) is Minus || self.tok(st.pos) is Not) {
            let negate = self.tok(st.pos) is Minus;
            match self.call(st.at(st.pos + 1), (fuel - 1) as nat) {
                PRes::Done(e, s) => PRes::Done(
                    SExpr::Unary(if negate { UnaryOp::Negate } else { UnaryOp::Not }, Box::new(e)),
                    s,
                ),
                PRes::Failed(s) => PRes::Failed(s),
                PRes::Stuck => PRes::Stuck,
            }
        } else {
            self.call(st, (fuel - 1) as nat)
        }
    }

    /// A primary expression followed by a call `(args)`, a member access
    /// `.member`, or an index `[e]`.
    pub open spec fn call(self, st: PState, fuel: nat) -> PRes<SExpr>
        decreases fuel,
    {
        if fuel == 0 {
            PRes::Stuck
        } else {
            let f = (fuel - 1) as nat;
            match self.primary(st, f) {
                PRes::Done(prim, s1) => {
                    if self.check(s1.pos, LogosToken::LeftParenthesis) {
                        match self.call_args(s1.at(s1.pos + 1), Seq::empty(), f) {
                            PRes::Done(args, s2) => match self.consume(
                                s2,
                                LogosToken::RightParenthesis,
                                "Unclosed '(' in function call."@,
                            ) {
                                PRes::Done(_, s3) => match prim {
                                    SExpr::Literal(SLiteral::Ident { name, .. }, _) => match self.info(s3.pos) {
                                        Some((l, c)) => PRes::Done(
                                            SExpr::Call {
                                                name,
                                                ty: None,
                                                args: if args.len() > 0 { Some(args) } else { None },
                                                loc: self.here(l, c),
                                            },
                                            s3,
                                        ),
                                        None => PRes::Stuck,
                                    },
                                    _ => self.fail(s3, "Error: Expected identifier before function call."@),
                                },
                                PRes::Failed(s) => PRes::Failed(s),
                                PRes::Stuck => PRes::Stuck,
                            },
                            PRes::Failed(s) => PRes::Failed(s),
                            PRes::Stuck => PRes::Stuck,
                        }
                    } else if self.check(s1.pos, LogosToken::Dot) {
                        match self.expression(s1.at(s1.pos + 1), f) {
                            PRes::Done(rhs, s2) => match rhs {
                                SExpr::Literal(SLiteral::Ident { name, .. }, _) => match self.info(s2.pos) {
                                    Some((l, c)) => PRes::Done(
                                        SExpr::MemberAccess {
                                            object: Box::new(prim),
                                            member: name,
                                            ty: None,
                                            loc: self.here(l, c),
                                        },
                                        s2,
                                    ),
                                    None => PRes::Stuck,
                                },
                                _ => self.fail(s2, "Expected identifier after Dot member access."@),
                            },
                            PRes::Failed(s) => PRes::Failed(s),
                            PRes::Stuck => PRes::Stuck,
                        }
                    } else if self.check(s1.pos, LogosToken::LeftBracket) {
                        match self.expression(s1.at(s1.pos + 1), f) {
                            PRes::Done(index, s2) => match self.consume(
                                s2,
                                LogosToken::RightBracket,
                                "Unclosed ']' in array access."@,
                            ) {
                                PRes::Done(_, s3) => match self.info(s3.pos) {
                                    Some((l, c)) => PRes::Done(
                                        SExpr::ArrayAccess {
                                            ty: None,
                                            array: Box::new(prim),
                                            is_lvalue: false,
                                            index: Box::new(index),
                                            loc: self.here(l, c),
                                        },
                                        s3,
                                    ),
                                    None => PRes::Stuck,
                                },
                                PRes::Failed(s) => PRes::Failed(s),
                                PRes::Stuck => PRes::Stuck,
                            },
                            PRes::Failed(s) => PRes::Failed(s),
                            PRes::Stuck => PRes::Stuck,
                        }
                    } else {
                        PRes::Done(prim, s1)
                    }
                },
                PRes::Failed(s) => PRes::Failed(s),
                PRes::Stuck => PRes::Stuck,
            }
        }
    }

    /// Comma-separated expressions up to `)` (not consumed), after `acc`.
    pub open spec fn call_args(self, st: PState, acc: Seq<SExpr>, fuel: nat) -> PRes<Seq<SExpr>>
        decreases fuel,
    {
        if fuel == 0 {
            PRes::Stuck
        } else if self.check(st.pos, LogosToken::RightParenthesis) {
            PRes::Done(acc, st)
        } else {
            match self.expression(st, (fuel - 1) as nat) {
                PRes::Done(e, s1) => if self.check(s1.pos, LogosToken::Comma) {
                    self.call_args(s1.at(s1.pos + 1), acc.push(e), (fuel - 1) as nat)
                } else {
                    PRes::Done(acc.push(e), s1)
                },
                PRes::Failed(s) => PRes::Failed(s),
                PRes::Stuck => PRes::Stuck,
            }
        }
    }

    /// Comma-separated expressions up to `}` (not consumed), after `acc`.
    pub open spec fn struct_exprs(self, st: PState, acc: Seq<SExpr>, fuel: nat) -> PRes<Seq<SExpr>>
        decreases fuel,
    {
        if fuel == 0 {
            PRes::Stuck
        } else if self.check(st.pos, LogosToken::RightBrace) {
            PRes::Done(acc, st)
        } else {
            match self.expression(st, (fuel - 1) as nat) {
                PRes::Done(e, s1) => if self.check(s1.pos, LogosToken::Comma) {
                    self.struct_exprs(s1.at(s1.pos + 1), acc.push(e), (fuel - 1) as nat)
                } else {
                    PRes::Done(acc.push(e), s1)
                },
                PRes::Failed(s) => PRes::Failed(s),
                PRes::Stuck => PRes::Stuck,
            }
        }
    }

    /// Literals, names, `(e)`, `addrof e`, `deref e`, `null`, `struct S { ... }`.
    /// At the end of the tokens the last token is read again.
    pub open spec fn primary(self, st: PState, fuel: nat) -> PRes<SExpr>
        decreases fuel,
    {
        if fuel == 0 {
            PRes::Stuck
        } else {
            let f = (fuel - 1) as nat;
            match self.info(st.pos) {
                None => PRes::Stuck,
                Some((line, column)) => {
                    let p1 = self.advanced(st.pos);
                    if p1 <= 0 || p1 > self.toks.len() {
                        PRes::Stuck
                    } else {
                        let s1 = st.at(p1);
                        let tk = self.tok(p1 - 1);
                        let here = self.here(line, column);
                        match tk {
                            LogosToken::True => PRes::Done(SExpr::Literal(SLiteral::Bool(true), here), s1),
                            LogosToken::False => PRes::Done(SExpr::Literal(SLiteral::Bool(false), here), s1),
                            LogosToken::Number(v) => PRes::Done(SExpr::Literal(SLiteral::Number(v), here), s1),
                            LogosToken::CharLiteral(v) => PRes::Done(SExpr::Literal(SLiteral::Char(v), here), s1),
                            LogosToken::Real(v) => PRes::Done(SExpr::Literal(SLiteral::Real(v@), here), s1),
                            LogosToken::Quote(v) => PRes::Done(SExpr::Literal(SLiteral::Str(v@), here), s1),
                            LogosToken::Null => PRes::Done(SExpr::Null(here), s1),
                            LogosToken::AddressOf => match self.expression(s1, f) {
                                PRes::Done(e, s2) => match self.info(s2.pos) {
                                    Some((l, c)) => PRes::Done(
                                        SExpr::AddressOf { target: Box::new(e), ty: None, loc: self.here(l, c) },
                                        s2,
                                    ),
                                    None => PRes::Stuck,
                                },
                                PRes::Failed(s) => PRes::Failed(s),
                                PRes::Stuck => PRes::Stuck,
                            },
                            LogosToken::Dereference => match self.expression(s1, f) {
                                PRes::Done(e, s2) => PRes::Done(
                                    SExpr::DeReference { target: Box::new(e), is_lvalue: false, ty: None, loc: here },
                                    s2,
                                ),
                                PRes::Failed(s) => PRes::Failed(s),
                                PRes::Stuck => PRes::Stuck,
                            },
                            LogosToken::Identifier(v) => PRes::Done(
                                SExpr::Literal(SLiteral::Ident { name: v@, is_lvalue: false, ty: None }, here),
                                s1,
                            ),
                            LogosToken::LeftParenthesis => match self.expression(s1, f) {
                                PRes::Done(e, s2) => match self.consume(
                                    s2,
                                    LogosToken::RightParenthesis,
                                    "Unclosed parenthesis."@,
                                ) {
                                    PRes::Done(_, s3) => PRes::Done(SExpr::Group(Box::new(e), here), s3),
                                    PRes::Failed(s) => PRes::Failed(s),
                                    PRes::Stuck => PRes::Stuck,
                                },
                                PRes::Failed(s) => PRes::Failed(s),
                                PRes::Stuck => PRes::Stuck,
                            },
                            LogosToken::Struct => match self.consume(
                                s1,
                                LogosToken::Identifier(arbitrary()),
                                "Expected type name after 'struct' keyword in expression"@,
                            ) {
                                PRes::Done(k, s2) => match self.consume(
                                    s2,
                                    LogosToken::LeftBrace,
                                    "Expected '{' in struct initialization"@,
                                ) {
                                    PRes::Done(_, s3) => match self.struct_exprs(s3, Seq::empty(), f) {
                                        PRes::Done(es, s4) => match self.consume(
                                            s4,
                                            LogosToken::RightBrace,
                                            "Unclosed '}' in struct initialization"@,
                                        ) {
                                            PRes::Done(_, s5) => PRes::Done(
                                                SExpr::Literal(
                                                    SLiteral::Struct {
                                                        literal_type: None,
                                                        name: token_text(self.tok(k)),
                                                        exprs: es,
                                                    },
                                                    here,
                                                ),
                                                s5,
                                            ),
                                            PRes::Failed(s) => PRes::Failed(s),
                                            PRes::Stuck => PRes::Stuck,
                                        },
                                        PRes::Failed(s) => PRes::Failed(s),
                                        PRes::Stuck => PRes::Stuck,
                                    },
                                    PRes::Failed(s) => PRes::Failed(s),
                                    PRes::Stuck => PRes::Stuck,
                                },
                                PRes::Failed(s) => PRes::Failed(s),
                                PRes::Stuck => PRes::Stuck,
                            },
                            _ => self.fail(s1, "Error: Unexpected "@ + token_debug(tk)),
                        }
                    }
                },
            }
        }
    }
}

} // verus!
