use vstd::prelude::*;
use crate::lexer::LogosToken;
use crate::parser::grammar::{Level, PRes, PState, Src, combine, level_operator, next_level};
use crate::parser::visitors::{ArithOp, LogicOp, SExpr, UnaryOp};

verus! {

/// A program parses with success only up to the end of its tokens.
pub proof fn law_parse_ends_at_the_end(src: Src, st: PState, acc: Seq<crate::parser::visitors::SStmt>, fuel: nat)
    ensures
        src.program(st, acc, fuel) matches PRes::Done(_, s) ==> src.end(s.pos),
    decreases fuel,
{
    reveal_with_fuel(Src::program, 1);
    if fuel > 0 && !src.end(st.pos) {
        match src.import_statement(st, (fuel - 1) as nat) {
            PRes::Done(s, s1) => law_parse_ends_at_the_end(src, s1, acc.push(s), (fuel - 1) as nat),
            _ => {},
        }
    }
}

/// The tokens of the source `(`: one opening parenthesis.
pub open spec fn lone_parenthesis(src: Src) -> bool {
    src.toks.len() == 1 && src.toks[0].logos_tk is LeftParenthesis
}

/// After the lone `(`, every expression function reads the `(` again and
/// never finishes.
proof fn lemma_expressions_after_parenthesis(src: Src, st: PState, fuel: nat)
    requires
        lone_parenthesis(src),
        st.pos == 1,
    ensures
        src.expression(st, fuel) is Stuck,
        forall|l: Level| #[trigger] src.level(l, st, fuel) is Stuck,
        forall|l: Level| #[trigger] src.operand(l, st, fuel) is Stuck,
        src.unary(st, fuel) is Stuck,
        src.call(st, fuel) is Stuck,
        src.primary(st, fuel) is Stuck,
    decreases fuel,
{
    if fuel > 0 {
        let f = (fuel - 1) as nat;
        lemma_expressions_after_parenthesis(src, st, f);
        assert(src.level(Level::Or, st, f) is Stuck);
        assert(st.at(1) == st);
        assert(src.end(1));
        assert forall|l: Level| #[trigger] src.level(l, st, fuel) is Stuck by {
            assert(src.operand(l, st, f) is Stuck);
        }
        assert forall|l: Level| #[trigger] src.operand(l, st, fuel) is Stuck by {
            match l {
                Level::Factor => {},
                _ => {
                    assert(src.level(crate::parser::grammar::next_level(l), st, f) is Stuck);
                },
            }
        }
    }
}

/// At the lone `(`, every expression function never finishes.
proof fn lemma_expressions_at_parenthesis(src: Src, st: PState, fuel: nat)
    requires
        lone_parenthesis(src),
        st.pos == 0,
    ensures
        src.expression(st, fuel) is Stuck,
        forall|l: Level| #[trigger] src.level(l, st, fuel) is Stuck,
        forall|l: Level| #[trigger] src.operand(l, st, fuel) is Stuck,
        src.unary(st, fuel) is Stuck,
        src.call(st, fuel) is Stuck,
        src.primary(st, fuel) is Stuck,
    decreases fuel,
{
    if fuel > 0 {
        let f = (fuel - 1) as nat;
        lemma_expressions_at_parenthesis(src, st, f);
        lemma_expressions_after_parenthesis(src, st.at(1), f);
        assert(src.level(Level::Or, st, f) is Stuck);
        assert(!src.end(0));
        assert(src.advanced(0) == 1);
        assert(!(src.tok(0) is Minus || src.tok(0) is Not));
        assert forall|l: Level| #[trigger] src.level(l, st, fuel) is Stuck by {
            assert(src.operand(l, st, f) is Stuck);
        }
        assert forall|l: Level| #[trigger] src.operand(l, st, fuel) is Stuck by {
            match l {
                Level::Factor => {},
                _ => {
                    assert(src.level(crate::parser::grammar::next_level(l), st, f) is Stuck);
                },
            }
        }
    }
}

/// At the lone `(`, every statement function never finishes.
proof fn lemma_statements_at_parenthesis(src: Src, st: PState, fuel: nat)
    requires
        lone_parenthesis(src),
        st.pos == 0,
    ensures
        src.expression_statement(st, fuel) is Stuck,
        src.declaration(st, fuel) is Stuck,
        src.return_statement(st, fuel) is Stuck,
        src.block_statement(st, fuel) is Stuck,
        src.loop_statement(st, fuel) is Stuck,
        src.while_statement(st, fuel) is Stuck,
        src.for_statement(st, fuel) is Stuck,
        src.if_statement(st, fuel) is Stuck,
        src.function(st, false, fuel) is Stuck,
        src.function_statement(st, fuel) is Stuck,
        src.import_statement(st, fuel) is Stuck,
    decreases fuel,
{
    reveal(Src::function);
    reveal(Src::function_statement);
    reveal(Src::import_statement);
    if fuel > 0 {
        let f = (fuel - 1) as nat;
        lemma_statements_at_parenthesis(src, st, f);
        lemma_expressions_at_parenthesis(src, st, f);
        assert(!src.end(0));
        assert(!src.check(0, LogosToken::Break));
        assert(!src.check(0, LogosToken::Let));
        assert(!src.check(0, LogosToken::Return));
        assert(!src.check(0, LogosToken::LeftBrace));
        assert(!src.check(0, LogosToken::Loop));
        assert(!src.check(0, LogosToken::While));
        assert(!src.check(0, LogosToken::For));
        assert(!src.check(0, LogosToken::If));
        assert(!src.check(0, LogosToken::Function));
        assert(!src.check(0, LogosToken::Struct));
        assert(!src.check(0, LogosToken::Export));
        assert(!src.check(0, LogosToken::Import));
    }
}

/// The parser never finishes on the source `(`: an expression that reaches
/// the end of the tokens reads the last token again, here the `(` that opens
/// a new expression, whatever fuel the grammar is given.
pub proof fn law_lone_parenthesis_never_parses(src: Src, fuel: nat)
    requires
        lone_parenthesis(src),
    ensures
        src.program(PState { pos: 0, msgs: Seq::empty() }, Seq::empty(), fuel) is Stuck,
{
    reveal_with_fuel(Src::program, 1);
    let st = PState { pos: 0, msgs: Seq::empty() };
    if fuel > 0 {
        lemma_statements_at_parenthesis(src, st, (fuel - 1) as nat);
        assert(!src.end(0));
    }
}

/// A leading `-` makes a negation and a leading `not` a logical negation, each
/// of the expression that follows the operator; any other token starts the
/// expression without a unary operator.
pub proof fn law_unary_operator(src: Src, st: PState, fuel: nat)
    ensures
        !src.end(st.pos) && src.tok(st.pos) is Minus ==> (src.unary(st, fuel) matches PRes::Done(e, s)
            ==> (e matches SExpr::Unary(op, inner) && op == UnaryOp::Negate && fuel > 0
                && src.call(st.at(st.pos + 1), (fuel - 1) as nat) == PRes::Done(*inner, s))),
        !src.end(st.pos) && src.tok(st.pos) is Not ==> (src.unary(st, fuel) matches PRes::Done(e, s)
            ==> (e matches SExpr::Unary(op, inner) && op == UnaryOp::Not && fuel > 0
                && src.call(st.at(st.pos + 1), (fuel - 1) as nat) == PRes::Done(*inner, s))),
        fuel > 0 && (src.end(st.pos) || !(src.tok(st.pos) is Minus || src.tok(st.pos) is Not))
            ==> src.unary(st, fuel) == src.call(st, (fuel - 1) as nat),
{
}

/// Each binary operator token joins its two operands into the operation it
/// names, the left operand first.
pub proof fn law_binary_operators(l: SExpr, r: SExpr)
    ensures
        combine(LogosToken::Or, l, r) == SExpr::Logic(LogicOp::Or, Box::new(l), Box::new(r)),
        combine(LogosToken::And, l, r) == SExpr::Logic(LogicOp::And, Box::new(l), Box::new(r)),
        combine(LogosToken::Equality, l, r) == SExpr::Logic(LogicOp::Equal, Box::new(l), Box::new(r)),
        combine(LogosToken::NegEquality, l, r) == SExpr::Logic(LogicOp::NotEqual, Box::new(l), Box::new(r)),
        combine(LogosToken::Less, l, r) == SExpr::Logic(LogicOp::Less, Box::new(l), Box::new(r)),
        combine(LogosToken::More, l, r) == SExpr::Logic(LogicOp::More, Box::new(l), Box::new(r)),
        combine(LogosToken::LessEqual, l, r) == SExpr::Logic(LogicOp::LessEqual, Box::new(l), Box::new(r)),
        combine(LogosToken::MoreEqual, l, r) == SExpr::Logic(LogicOp::MoreEqual, Box::new(l), Box::new(r)),
        combine(LogosToken::Plus, l, r) == SExpr::Arith(ArithOp::Plus, Box::new(l), Box::new(r)),
        combine(LogosToken::Minus, l, r) == SExpr::Arith(ArithOp::Minus, Box::new(l), Box::new(r)),
        combine(LogosToken::Multiply, l, r) == SExpr::Arith(ArithOp::Multiply, Box::new(l), Box::new(r)),
        combine(LogosToken::Divide, l, r) == SExpr::Arith(ArithOp::Divide, Box::new(l), Box::new(r)),
        combine(LogosToken::Modulo, l, r) == SExpr::Arith(ArithOp::Modulo, Box::new(l), Box::new(r)),
{
}

/// Operator precedence, loosest first: `or`, `and`, equality, comparisons,
/// `+ -`, `* / %`; the operands of each level are expressions of the next
/// one, and those of `* / %` are unary expressions.
pub proof fn law_operator_precedence(t: LogosToken, src: Src, st: PState, fuel: nat)
    ensures
        level_operator(Level::Or, t) <==> t is Or,
        level_operator(Level::And, t) <==> t is And,
        level_operator(Level::Equality, t) <==> (t is Equality || t is NegEquality),
        level_operator(Level::Comparison, t) <==> (t is Less || t is More || t is LessEqual || t is MoreEqual),
        level_operator(Level::Term, t) <==> (t is Plus || t is Minus),
        level_operator(Level::Factor, t) <==> (t is Multiply || t is Divide || t is Modulo),
        next_level(Level::Or) == Level::And,
        next_level(Level::And) == Level::Equality,
        next_level(Level::Equality) == Level::Comparison,
        next_level(Level::Comparison) == Level::Term,
        next_level(Level::Term) == Level::Factor,
        fuel > 0 ==> src.operand(Level::Factor, st, fuel) == src.unary(st, (fuel - 1) as nat),
        fuel > 0 ==> src.expression(st, fuel) == src.level(Level::Or, st, (fuel - 1) as nat),
{
}

} // verus!
