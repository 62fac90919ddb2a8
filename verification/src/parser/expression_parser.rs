use vstd::prelude::*;
use crate::lexer::LogosToken;
use crate::parser::grammar::{PRes, PState, Src, Level, level_operator, combine, token_debug, token_text};
use crate::parser::parser::Parser;
use crate::parser::visitors::{
    AddressOf, ArrayAccess, Binary, BinaryLogic, Bool, Call, Char, DeReference, Expression, Group,
    Identifier, Literal, MemberAccess, Null, Number, Real, SExpr, SLiteral, StringLiteral, StructLiteral, Unary,
    lemma_exprs_view_push, expr_view, exprs_view,
};
use crate::text::push_str;

verus! {

/// `r` and the state `after` are what `spec` describes.
pub open spec fn expr_outcome(spec: PRes<SExpr>, r: Result<Expression, ()>, after: PState) -> bool {
    match spec {
        PRes::Done(e, s) => r matches Ok(v) && v@ == e && after == s,
        PRes::Failed(s) => r is Err && after == s,
        PRes::Stuck => false,
    }
}

/// `r` and the state `after` are what `spec` describes, for a list.
pub open spec fn exprs_outcome(spec: PRes<Seq<SExpr>>, r: Result<Vec<Expression>, ()>, after: PState) -> bool {
    match spec {
        PRes::Done(e, s) => r matches Ok(v) && crate::parser::visitors::exprs_view(v@) == e && after == s,
        PRes::Failed(s) => r is Err && after == s,
        PRes::Stuck => false,
    }
}

fn token_debug_text(t: &LogosToken) -> (s: &'static str)
    ensures
        s@ == token_debug(*t),
{
    match t {
        LogosToken::If => "If",
        LogosToken::Else => "Else",
        LogosToken::While => "While",
        LogosToken::For => "For",
        LogosToken::Loop => "Loop",
        LogosToken::Let => "Let",
        LogosToken::Break => "Break",
        LogosToken::Continue => "Continue",
        LogosToken::Function => "Function",
        LogosToken::Struct => "Struct",
        LogosToken::Export => "Export",
        LogosToken::Return => "Return",
        LogosToken::Import => "Import",
        LogosToken::Equal => "Equal",
        LogosToken::Plus => "Plus",
        LogosToken::Minus => "Minus",
        LogosToken::Multiply => "Multiply",
        LogosToken::Divide => "Divide",
        LogosToken::Modulo => "Modulo",
        LogosToken::Dot => "Dot",
        LogosToken::Not => "Not",
        LogosToken::And => "And",
        LogosToken::Or => "Or",
        LogosToken::Equality => "Equality",
        LogosToken::NegEquality => "NegEquality",
        LogosToken::Less => "Less",
        LogosToken::More => "More",
        LogosToken::LessEqual => "LessEqual",
        LogosToken::MoreEqual => "MoreEqual",
        LogosToken::LeftBrace => "LeftBrace",
        LogosToken::RightBrace => "RightBrace",
        LogosToken::LeftBracket => "LeftBracket",
        LogosToken::RightBracket => "RightBracket",
        LogosToken::LeftParenthesis => "LeftParenthesis",
        LogosToken::RightParenthesis => "RightParenthesis",
        LogosToken::Comma => "Comma",
        LogosToken::Semicolon => "Semicolon",
        LogosToken::Colon => "Colon",
        LogosToken::DoubleColon => "DoubleColon",
        LogosToken::True => "True",
        LogosToken::False => "False",
        LogosToken::Pointer => "Pointer",
        LogosToken::Dereference => "Dereference",
        LogosToken::AddressOf => "AddressOf",
        LogosToken::Null => "Null",
        LogosToken::EndOfFile => "EndOfFile",
        LogosToken::Comment => "Comment",
        LogosToken::NewLine => "NewLine",
        LogosToken::Error => "Error",
        LogosToken::Type(_) => "Type()",
        LogosToken::Quote(_) => "Quote",
        LogosToken::CharLiteral(_) => "CharLiteral",
        LogosToken::Number(_) => "Number",
        LogosToken::Real(_) => "Real",
        LogosToken::Identifier(_) => "Identifier",
    }
}

fn level_operator_exec(level: &Level, t: &LogosToken) -> (r: bool)
    ensures
        r == level_operator(*level, *t),
{
    match level {
        Level::Or => matches!(t, LogosToken::Or),
        Level::And => matches!(t, LogosToken::And),
        Level::Equality => matches!(t, LogosToken::Equality) || matches!(t, LogosToken::NegEquality),
        Level::Comparison => matches!(t, LogosToken::Less) || matches!(t, LogosToken::More)
            || matches!(t, LogosToken::LessEqual) || matches!(t, LogosToken::MoreEqual),
        Level::Term => matches!(t, LogosToken::Plus) || matches!(t, LogosToken::Minus),
        Level::Factor => matches!(t, LogosToken::Multiply) || matches!(t, LogosToken::Divide)
            || matches!(t, LogosToken::Modulo),
    }
}

fn combine_exec(op: &LogosToken, left: Expression, right: Expression) -> (r: Expression)
    ensures
        r@ == combine(*op, left@, right@),
{
    proof {
        reveal(expr_view);
        reveal(exprs_view);
    }
    let l = Box::new(left);
    let r = Box::new(right);
    match op {
        LogosToken::Or => Expression::BinaryLogic(BinaryLogic::Or(l, r)),
        LogosToken::And => Expression::BinaryLogic(BinaryLogic::And(l, r)),
        LogosToken::Equality => Expression::BinaryLogic(BinaryLogic::Equal(l, r)),
        LogosToken::NegEquality => Expression::BinaryLogic(BinaryLogic::NotEqual(l, r)),
        LogosToken::Less => Expression::BinaryLogic(BinaryLogic::Less(l, r)),
        LogosToken::More => Expression::BinaryLogic(BinaryLogic::More(l, r)),
        LogosToken::LessEqual => Expression::BinaryLogic(BinaryLogic::LessEqual(l, r)),
        LogosToken::MoreEqual => Expression::BinaryLogic(BinaryLogic::MoreEqual(l, r)),
        LogosToken::Plus => Expression::Binary(Binary::Plus(l, r)),
        LogosToken::Minus => Expression::Binary(Binary::Minus(l, r)),
        LogosToken::Multiply => Expression::Binary(Binary::Multiply(l, r)),
        LogosToken::Divide => Expression::Binary(Binary::Divide(l, r)),
        _ => Expression::Binary(Binary::Modulo(l, r)),
    }
}

pub proof fn lemma_ident_view(e: Expression)
    ensures
        (e@ matches SExpr::Literal(SLiteral::Ident { .. }, _)) <==> (e matches Expression::Literal(Literal::Identifier(_))),
        e matches Expression::Literal(Literal::Identifier(i)) ==> (e@ matches SExpr::Literal(SLiteral::Ident { name, .. }, _) && name == i.name@),
{
    reveal(expr_view);
    reveal(exprs_view);
    match e {
        Expression::Literal(l) => match l {
            Literal::Identifier(_) => {},
            _ => {},
        },
        _ => {},
    }
}

impl Parser {
    /// Parses an expression.
    pub fn or(&mut self) -> (r: Result<Expression, ()>)
        requires
            old(self).wf(),
            exists|f: nat| !(#[trigger] old(self).src().expression(old(self).pstate(), f) is Stuck),
        ensures
            final(self).wf(),
            final(self).lexer == old(self).lexer,
            final(self).module_file == old(self).module_file,
            expr_outcome(
                old(self).src().expression(
                    old(self).pstate(),
                    choose|f: nat| !(#[trigger] old(self).src().expression(old(self).pstate(), f) is Stuck),
                ),
                r,
                final(self).pstate(),
            ),
    {
        proof {
            reveal(expr_view);
            reveal(exprs_view);
        }
        let ghost f = choose|f: nat| !(#[trigger] old(self).src().expression(old(self).pstate(), f) is Stuck);
        self.expression(Ghost(f))
    }

    pub fn expression(&mut self, Ghost(fuel): Ghost<nat>) -> (r: Result<Expression, ()>)
        requires
            old(self).wf(),
            !(old(self).src().expression(old(self).pstate(), fuel) is Stuck),
        ensures
            final(self).wf(),
            final(self).lexer == old(self).lexer,
            final(self).module_file == old(self).module_file,
            expr_outcome(old(self).src().expression(old(self).pstate(), fuel), r, final(self).pstate()),
        decreases fuel,
    {
        proof {
            reveal(expr_view);
            reveal(exprs_view);
        }
        self.level(&Level::Or, Ghost((fuel - 1) as nat))
    }

    fn operand(&mut self, level: &Level, Ghost(fuel): Ghost<nat>) -> (r: Result<Expression, ()>)
        requires
            old(self).wf(),
            !(old(self).src().operand(*level, old(self).pstate(), fuel) is Stuck),
        ensures
            final(self).wf(),
            final(self).lexer == old(self).lexer,
            final(self).module_file == old(self).module_file,
            expr_outcome(old(self).src().operand(*level, old(self).pstate(), fuel), r, final(self).pstate()),
        decreases fuel,
    {
        proof {
            reveal(expr_view);
            reveal(exprs_view);
        }
        match level {
            Level::Or => self.level(&Level::And, Ghost((fuel - 1) as nat)),
            Level::And => self.level(&Level::Equality, Ghost((fuel - 1) as nat)),
            Level::Equality => self.level(&Level::Comparison, Ghost((fuel - 1) as nat)),
            Level::Comparison => self.level(&Level::Term, Ghost((fuel - 1) as nat)),
            Level::Term => self.level(&Level::Factor, Ghost((fuel - 1) as nat)),
            Level::Factor => self.unary(Ghost((fuel - 1) as nat)),
        }
    }

    fn level(&mut self, level: &Level, Ghost(fuel): Ghost<nat>) -> (r: Result<Expression, ()>)
        requires
            old(self).wf(),
            !(old(self).src().level(*level, old(self).pstate(), fuel) is Stuck),
        ensures
            final(self).wf(),
            final(self).lexer == old(self).lexer,
            final(self).module_file == old(self).module_file,
            expr_outcome(old(self).src().level(*level, old(self).pstate(), fuel), r, final(self).pstate()),
        decreases fuel,
    {
        proof {
            reveal(expr_view);
            reveal(exprs_view);
        }
        let ghost goal = old(self).src().level(*level, old(self).pstate(), fuel);
        let ghost src = old(self).src();
        let mut left = match self.operand(level, Ghost((fuel - 1) as nat)) {
            Ok(e) => e,
            Err(()) => return Err(()),
        };
        let ghost mut f: nat = (fuel - 1) as nat;
        loop
            invariant
                self.wf(),
                self.src() == src,
                self.lexer == old(self).lexer,
                self.module_file == old(self).module_file,
                goal == old(self).src().level(*level, old(self).pstate(), fuel),
                src.level_loop(*level, left@, self.pstate(), f) == goal,
                !(goal is Stuck),
                f < fuel,
            decreases f,
        {
            proof {
                reveal(expr_view);
                reveal(exprs_view);
            }
            let at_op = !self.is_at_the_end() && level_operator_exec(level, &self.lexer[self.current_token].logos_tk);
            if !at_op {
                return Ok(left);
            }
            let k = self.advance_index();
            let right = match level {
                Level::Equality => self.level(&Level::Equality, Ghost((f - 1) as nat)),
                _ => self.operand(level, Ghost((f - 1) as nat)),
            };
            match right {
                Ok(r) => {
                    left = combine_exec(&self.lexer[k].logos_tk, left, r);
                    proof {
                        f = (f - 1) as nat;
                    }
                },
                Err(()) => return Err(()),
            }
        }
    }

    fn unary(&mut self, Ghost(fuel): Ghost<nat>) -> (r: Result<Expression, ()>)
        requires
            old(self).wf(),
            !(old(self).src().unary(old(self).pstate(), fuel) is Stuck),
        ensures
            final(self).wf(),
            final(self).lexer == old(self).lexer,
            final(self).module_file == old(self).module_file,
            expr_outcome(old(self).src().unary(old(self).pstate(), fuel), r, final(self).pstate()),
        decreases fuel,
    {
        proof {
            reveal(expr_view);
            reveal(exprs_view);
        }
        let negate = !self.is_at_the_end() && matches!(self.lexer[self.current_token].logos_tk, LogosToken::Minus);
        let not = !self.is_at_the_end() && matches!(self.lexer[self.current_token].logos_tk, LogosToken::Not);
        if negate || not {
            self.advance_index();
            let e = self.call(Ghost((fuel - 1) as nat))?;
            if negate {
                Ok(Expression::Unary(Unary::Negate(Box::new(e))))
            } else {
                Ok(Expression::Unary(Unary::Not(Box::new(e))))
            }
        } else {
            self.call(Ghost((fuel - 1) as nat))
        }
    }

    fn call(&mut self, Ghost(fuel): Ghost<nat>) -> (r: Result<Expression, ()>)
        requires
            old(self).wf(),
            !(old(self).src().call(old(self).pstate(), fuel) is Stuck),
        ensures
            final(self).wf(),
            final(self).lexer == old(self).lexer,
            final(self).module_file == old(self).module_file,
            expr_outcome(old(self).src().call(old(self).pstate(), fuel), r, final(self).pstate()),
        decreases fuel,
    {
        proof {
            reveal(expr_view);
            reveal(exprs_view);
        }
        let ghost f = (fuel - 1) as nat;
        let primary_expr = self.primary(Ghost(f))?;
        if self.match_expr(&[LogosToken::LeftParenthesis]) {
            let args = self.call_args(Ghost(f))?;
            if let None = self.consume_index(&LogosToken::RightParenthesis, "Unclosed '(' in function call.") {
                return Err(());
            }
            proof {
                lemma_ident_view(primary_expr);
                crate::parser::visitors::lemma_exprs_view_len(args@);
            }
            let identifier = match primary_expr {
                Expression::Literal(Literal::Identifier(n)) => n,
                _ => {
                    self.put_error_at_current_token("Error: Expected identifier before function call.");
                    return Err(());
                },
            };
            let (line, column) = self.get_current_token_postion();
            let has_args = args.len() > 0;
            return Ok(Expression::Call(Call {
                name: identifier.name,
                ty: None,
                args: if has_args { Some(args) } else { None },
                line,
                column,
                filename: self.module_file.clone(),
            }));
        }
        if self.match_expr(&[LogosToken::Dot]) {
            let rhs_expr = self.expression(Ghost(f))?;
            proof {
                lemma_ident_view(rhs_expr);
            }
            let rhs = match rhs_expr {
                Expression::Literal(Literal::Identifier(id)) => id.name,
                _ => {
                    self.put_error_at_current_token("Expected identifier after Dot member access.");
                    return Err(());
                },
            };
            let (line, column) = self.get_current_token_postion();
            return Ok(Expression::MemberAccess(MemberAccess {
                object: Box::new(primary_expr),
                member: rhs,
                ty: None,
                line,
                column,
                filename: self.module_file.clone(),
            }));
        }
        if self.match_expr(&[LogosToken::LeftBracket]) {
            let index = self.expression(Ghost(f))?;
            if let None = self.consume_index(&LogosToken::RightBracket, "Unclosed ']' in array access.") {
                return Err(());
            }
            let (line, column) = self.get_current_token_postion();
            return Ok(Expression::ArrayAccess(ArrayAccess {
                ty: None,
                identifier: Box::new(primary_expr),
                is_lvalue: false,
                index: Box::new(index),
                line,
                column,
                filename: self.module_file.clone(),
            }));
        }
        Ok(primary_expr)
    }

    /// Arguments of a call, up to the closing parenthesis (not taken).
    fn call_args(&mut self, Ghost(fuel): Ghost<nat>) -> (r: Result<Vec<Expression>, ()>)
        requires
            old(self).wf(),
            !(old(self).src().call_args(old(self).pstate(), Seq::empty(), fuel) is Stuck),
        ensures
            final(self).wf(),
            final(self).lexer == old(self).lexer,
            final(self).module_file == old(self).module_file,
            exprs_outcome(old(self).src().call_args(old(self).pstate(), Seq::empty(), fuel), r, final(self).pstate()),
        decreases fuel,
    {
        proof {
            reveal(expr_view);
            reveal(exprs_view);
        }
        let ghost goal = old(self).src().call_args(old(self).pstate(), Seq::empty(), fuel);
        let ghost src = old(self).src();
        let mut args: Vec<Expression> = Vec::new();
        let ghost mut f: nat = fuel;
        loop
            invariant
                self.wf(),
                self.src() == src,
                self.lexer == old(self).lexer,
                self.module_file == old(self).module_file,
                goal == old(self).src().call_args(old(self).pstate(), Seq::empty(), fuel),
                src.call_args(self.pstate(), crate::parser::visitors::exprs_view(args@), f) == goal,
                !(goal is Stuck),
                f <= fuel,
            decreases f,
        {
            proof {
                reveal(expr_view);
                reveal(exprs_view);
            }
            if self.check(&LogosToken::RightParenthesis) {
                return Ok(args);
            }
            let e = self.expression(Ghost((f - 1) as nat))?;
            proof {
                lemma_exprs_view_push(args@, e);
            }
            args.push(e);
            if !self.match_expr(&[LogosToken::Comma]) {
                return Ok(args);
            }
            proof {
                f = (f - 1) as nat;
            }
        }
    }

    /// Expressions of a struct literal, up to the closing brace (not taken).
    fn struct_exprs(&mut self, Ghost(fuel): Ghost<nat>) -> (r: Result<Vec<Expression>, ()>)
        requires
            old(self).wf(),
            !(old(self).src().struct_exprs(old(self).pstate(), Seq::empty(), fuel) is Stuck),
        ensures
            final(self).wf(),
            final(self).lexer == old(self).lexer,
            final(self).module_file == old(self).module_file,
            exprs_outcome(old(self).src().struct_exprs(old(self).pstate(), Seq::empty(), fuel), r, final(self).pstate()),
        decreases fuel,
    {
        proof {
            reveal(expr_view);
            reveal(exprs_view);
        }
        let ghost goal = old(self).src().struct_exprs(old(self).pstate(), Seq::empty(), fuel);
        let ghost src = old(self).src();
        let mut exprs: Vec<Expression> = Vec::new();
        let ghost mut f: nat = fuel;
        loop
            invariant
                self.wf(),
                self.src() == src,
                self.lexer == old(self).lexer,
                self.module_file == old(self).module_file,
                goal == old(self).src().struct_exprs(old(self).pstate(), Seq::empty(), fuel),
                src.struct_exprs(self.pstate(), crate::parser::visitors::exprs_view(exprs@), f) == goal,
                !(goal is Stuck),
                f <= fuel,
            decreases f,
        {
            proof {
                reveal(expr_view);
                reveal(exprs_view);
            }
            if self.check(&LogosToken::RightBrace) {
                return Ok(exprs);
            }
            let e = self.expression(Ghost((f - 1) as nat))?;
            proof {
                lemma_exprs_view_push(exprs@, e);
            }
            exprs.push(e);
            if !self.match_expr(&[LogosToken::Comma]) {
                return Ok(exprs);
            }
            proof {
                f = (f - 1) as nat;
            }
        }
    }

    /// The literal (or name, or `null`) that token `k` stands for, if it is one.
    fn literal_at(&self, k: usize, line: usize, column: usize) -> (r: Option<Expression>)
        requires
            k < self.lexer.len(),
        ensures
            match self.lexer@[k as int].logos_tk {
                LogosToken::True => r matches Some(e) && e@ == SExpr::Literal(SLiteral::Bool(true), self.src().here(line, column)),
                LogosToken::False => r matches Some(e) && e@ == SExpr::Literal(SLiteral::Bool(false), self.src().here(line, column)),
                LogosToken::Number(v) => r matches Some(e) && e@ == SExpr::Literal(SLiteral::Number(v), self.src().here(line, column)),
                LogosToken::CharLiteral(v) => r matches Some(e) && e@ == SExpr::Literal(SLiteral::Char(v), self.src().here(line, column)),
                LogosToken::Real(v) => r matches Some(e) && e@ == SExpr::Literal(SLiteral::Real(v@), self.src().here(line, column)),
                LogosToken::Quote(v) => r matches Some(e) && e@ == SExpr::Literal(SLiteral::Str(v@), self.src().here(line, column)),
                LogosToken::Null => r matches Some(e) && e@ == SExpr::Null(self.src().here(line, column)),
                LogosToken::Identifier(v) => r matches Some(e) && e@ == SExpr::Literal(
                    SLiteral::Ident { name: v@, is_lvalue: false, ty: None },
                    self.src().here(line, column),
                ),
                _ => r is None,
            },
    {
        proof {
            reveal(expr_view);
            reveal(exprs_view);
        }
        let filename = self.module_file.clone();
        match &self.lexer[k].logos_tk {
            LogosToken::True => Some(Expression::Literal(Literal::Bool(Bool { value: true, line, column, filename }))),
            LogosToken::False => Some(Expression::Literal(Literal::Bool(Bool { value: false, line, column, filename }))),
            LogosToken::Number(value) => Some(Expression::Literal(Literal::Number(Number { value: *value, line, column, filename }))),
            LogosToken::CharLiteral(value) => Some(Expression::Literal(Literal::Char(Char { value: *value, line, column, filename }))),
            LogosToken::Real(value) => Some(Expression::Literal(Literal::Real(Real { value: value.clone(), line, column, filename }))),
            LogosToken::Quote(s) => Some(Expression::Literal(Literal::StringLiteral(StringLiteral { value: s.clone(), line, column, filename }))),
            LogosToken::Null => Some(Expression::Null(Null { line, column, filename })),
            LogosToken::Identifier(value) => Some(Expression::Literal(Literal::Identifier(Identifier {
                name: value.clone(),
                is_lvalue: false,
                ty: None,
                line,
                column,
                filename,
            }))),
            _ => None,
        }
    }

    fn primary(&mut self, Ghost(fuel): Ghost<nat>) -> (r: Result<Expression, ()>)
        requires
            old(self).wf(),
            !(old(self).src().primary(old(self).pstate(), fuel) is Stuck),
        ensures
            final(self).wf(),
            final(self).lexer == old(self).lexer,
            final(self).module_file == old(self).module_file,
            expr_outcome(old(self).src().primary(old(self).pstate(), fuel), r, final(self).pstate()),
        decreases fuel,
    {
        proof {
            reveal(expr_view);
            reveal(exprs_view);
        }
        let ghost f = (fuel - 1) as nat;
        let (line, column) = self.get_current_token_postion();
        let k = self.advance_index();
        if let Some(e) = self.literal_at(k, line, column) {
            return Ok(e);
        }
        let what: u8 = match &self.lexer[k].logos_tk {
            LogosToken::AddressOf => 1,
            LogosToken::Dereference => 2,
            LogosToken::LeftParenthesis => 3,
            LogosToken::Struct => 4,
            _ => 5,
        };
        if what == 1 {
            let identifier = self.expression(Ghost(f))?;
            let (l, c) = self.get_current_token_postion();
            Ok(Expression::AddressOf(AddressOf {
                identifier: Box::new(identifier),
                ty: None,
                line: l,
                column: c,
                filename: self.module_file.clone(),
            }))
        } else if what == 2 {
            let identifier = self.expression(Ghost(f))?;
            Ok(Expression::DeReference(DeReference {
                identifier: Box::new(identifier),
                is_lvalue: false,
                ty: None,
                line,
                column,
                filename: self.module_file.clone(),
            }))
        } else if what == 3 {
            let inner_expr = self.expression(Ghost(f))?;
            if let None = self.consume_index(&LogosToken::RightParenthesis, "Unclosed parenthesis.") {
                return Err(());
            }
            Ok(Expression::Group(Group {
                inner_expression: Box::new(inner_expr),
                line,
                column,
                filename: self.module_file.clone(),
            }))
        } else if what == 4 {
            let name_index = match self.consume_index(
                &LogosToken::Identifier(String::new()),
                "Expected type name after 'struct' keyword in expression",
            ) {
                Some(i) => i,
                None => return Err(()),
            };
            let struct_name = match &self.lexer[name_index].logos_tk {
                LogosToken::Identifier(name) => name.clone(),
                _ => String::new(),
            };
            if let None = self.consume_index(&LogosToken::LeftBrace, "Expected '{' in struct initialization") {
                return Err(());
            }
            let expressions = self.struct_exprs(Ghost(f))?;
            if let None = self.consume_index(&LogosToken::RightBrace, "Unclosed '}' in struct initialization") {
                return Err(());
            }
            Ok(Expression::Literal(Literal::StructLiteral(StructLiteral {
                literal_type: None,
                struct_name,
                expressions,
                line,
                column,
                filename: self.module_file.clone(),
            })))
        } else {
            let mut msg = String::new();
            push_str(&mut msg, "Error: Unexpected ");
            push_str(&mut msg, token_debug_text(&self.lexer[k].logos_tk));
            self.put_error_at_current_token(msg.as_str());
            Err(())
        }
    }
}

} // verus!
