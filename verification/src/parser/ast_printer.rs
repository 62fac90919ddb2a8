use vstd::prelude::*;
use crate::parser::visitors::{
    ArithOp, Binary, BinaryLogic, BlockStatement, Expression, ForStatement, FunctionStatement, IfStatement, Literal, LogicOp, SBlock, SDecl, SExpr, SLiteral, SStmt,
    Statement, Unary, UnaryOp, VariableDeclaration, block_view, decl_view, expr_view, exprs_view, lemma_exprs_view_len,
    lemma_stmts_view_len, stmt_view, stmts_view,
};
use crate::text::{i64_to_string, push_char, push_str, signed_decimal};
use crate::type_system::typing::{
    block_size, expr_size, exprs_size, lemma_exprs_size, lemma_stmt_size_positive, lemma_stmts_size, stmt_size,
    stmts_size,
};
use crate::value_type::{push_type_text, type_text, ValueType};

verus! {

/// A boolean as `Display` writes it.
pub open spec fn bool_text(b: bool) -> Seq<char> {
    if b {
        "true"@
    } else {
        "false"@
    }
}

/// How a character is written inside a quoted name: quotes, backslashes and
/// the usual control characters are escaped; others are written as they are.
pub open spec fn escaped_char(c: char) -> Seq<char> {
    if c == '"' {
        seq!['\\', '"']
    } else if c == '\\' {
        seq!['\\', '\\']
    } else if c == '\n' {
        seq!['\\', 'n']
    } else if c == '\t' {
        seq!['\\', 't']
    } else if c == '\r' {
        seq!['\\', 'r']
    } else if c == '\0' {
        seq!['\\', '0']
    } else {
        seq![c]
    }
}

/// The characters of a name, escaped.
pub open spec fn escaped(s: Seq<char>) -> Seq<char>
    decreases s.len(),
{
    if s.len() == 0 {
        Seq::empty()
    } else {
        escaped(s.drop_last()) + escaped_char(s.last())
    }
}

/// `name: [ a, b, ] `, the way the printer writes an operation.
pub open spec fn operation_text(name: Seq<char>, operands: Seq<Seq<char>>) -> Seq<char>
    decreases operands.len(),
{
    if operands.len() == 0 {
        name + ": [ "@
    } else {
        operation_text(name, operands.drop_last()) + operands.last() + ", "@
    }
}

/// The name the printer gives to an arithmetic operation.
pub open spec fn arith_name(op: ArithOp) -> Seq<char> {
    match op {
        ArithOp::Plus => "Plus"@,
        ArithOp::Minus => "Minus"@,
        ArithOp::Multiply => "Multiply"@,
        ArithOp::Divide => "Divide"@,
        ArithOp::Modulo => "Modulo"@,
    }
}

/// The name the printer gives to a logical operation.
pub open spec fn logic_name(op: LogicOp) -> Seq<char> {
    match op {
        LogicOp::And => "And"@,
        LogicOp::Or => "Or"@,
        LogicOp::Equal => "Equal"@,
        LogicOp::NotEqual => "Not Equal"@,
        LogicOp::More => "More"@,
        LogicOp::Less => "Less"@,
        LogicOp::MoreEqual => "More Equal"@,
        LogicOp::LessEqual => "Less Equal"@,
    }
}

/// The text of an expression in the printed tree.
pub open spec fn expr_text(e: SExpr) -> Seq<char>
    decreases expr_size(e), 1nat,
{
    match e {
        SExpr::Literal(lit, _) => match lit {
            SLiteral::Number(n) => "Literal: Number "@ + signed_decimal(n as int),
            SLiteral::Real(r) => "Literal: Real "@ + r,
            SLiteral::Bool(b) => "Literal: Bool "@ + bool_text(b),
            SLiteral::Char(c) => "Literal: Char "@ + seq![c],
            SLiteral::Str(s) => "Literal: String "@ + s,
            SLiteral::Ident { name, .. } => "Literal: Identifier "@ + name,
            SLiteral::Struct { exprs, .. } => "Struct Literal ["@ + exprs_text(exprs) + "]"@,
        },
        SExpr::Arith(op, a, b) => operation_text(arith_name(op), seq![expr_text(*a), expr_text(*b)]) + "] "@,
        SExpr::Group(x, _) => "Group: ["@ + expr_text(*x) + " ]"@,
        SExpr::Logic(op, a, b) => operation_text(logic_name(op), seq![expr_text(*a), expr_text(*b)]) + "] "@,
        SExpr::Unary(op, x) => operation_text(
            match op {
                UnaryOp::Not => "Not"@,
                UnaryOp::Negate => "Negate"@,
            },
            seq![expr_text(*x)],
        ) + "] "@,
        SExpr::Call { name, args, .. } => "call "@ + name + "("@ + match args {
            Some(v) => exprs_text(v),
            None => Seq::empty(),
        } + ") "@,
        SExpr::ArrayAccess { array, index, .. } => expr_text(*array) + " ["@ + expr_text(*index) + "] "@,
        SExpr::AddressOf { target, .. } => "Address of "@ + expr_text(*target),
        SExpr::DeReference { target, .. } => "Dereference of "@ + expr_text(*target),
        SExpr::MemberAccess { object, member, .. } => " Access ["@ + expr_text(*object) + ", "@ + member + "] "@,
        SExpr::Null(_) => "Null"@,
    }
}

/// The texts of expressions, one after the other.
pub open spec fn exprs_text(s: Seq<SExpr>) -> Seq<char>
    decreases exprs_size(s), 2nat,
{
    if s.len() == 0 {
        Seq::empty()
    } else {
        proof {
            crate::type_system::typing::lemma_expr_size_positive(s[0]);
        }
        expr_text(s[0]) + exprs_text(s.subrange(1, s.len() as int))
    }
}

/// The text of a declaration.
pub open spec fn decl_text(d: SDecl) -> Seq<char> {
    "Declaration: [identifier: "@ + d.name + ", typename: "@ + type_text(d.ty) + ", init_expr: "@ + expr_text(d.init)
        + "] \n"@
}

/// The text of the arguments of a function: `("name", type), ` for each.
pub open spec fn args_text(args: Seq<(Seq<char>, ValueType)>) -> Seq<char>
    decreases args.len(),
{
    if args.len() == 0 {
        Seq::empty()
    } else {
        args_text(args.drop_last()) + "("@ + "\""@ + escaped(args.last().0) + "\""@ + ", "@ + type_text(args.last().1)
            + "), "@
    }
}

/// The text of the fields of a struct: a tab, `name: type;` and a new line
/// for each.
pub open spec fn fields_text(fields: Seq<(Seq<char>, ValueType)>) -> Seq<char>
    decreases fields.len(),
{
    if fields.len() == 0 {
        Seq::empty()
    } else {
        fields_text(fields.drop_last()) + "\t"@ + fields.last().0 + ": "@ + type_text(fields.last().1) + ";\n"@
    }
}

/// Two texts one after the other, when both exist.
pub open spec fn then_text(a: Option<Seq<char>>, b: Option<Seq<char>>) -> Option<Seq<char>> {
    match (a, b) {
        (Some(x), Some(y)) => Some(x + y),
        _ => None,
    }
}

/// The text of a statement in the printed tree; `None` when the printer
/// stops on it (it stops on an `import`).
pub open spec fn stmt_text(s: SStmt) -> Option<Seq<char>>
    decreases stmt_size(s), 2nat,
{
    match s {
        SStmt::Expression(e) => Some("Statement: ["@ + expr_text(e) + " ]\n"@),
        SStmt::Declaration(d) => Some(decl_text(d)),
        SStmt::Assignment { target, value, .. } => Some(expr_text(target) + expr_text(value) + "] \n"@),
        SStmt::Function { callee, args, block, .. } => {
            let head = "Function "@ + callee + "("@ + match args {
                Some(a) => args_text(a),
                None => Seq::empty(),
            } + ")\n"@;
            match block {
                Some(b) => then_text(Some(head), block_text(b)),
                None => Some(head),
            }
        },
        SStmt::Block(b) => block_text(b),
        SStmt::Return(e, _) => Some("Return: ["@ + expr_text(e) + "]\n"@),
        SStmt::If { cond, then_branch, else_branch, .. } => then_text(
            then_text(Some("If: "@ + expr_text(cond) + "then: "@), block_text(then_branch)),
            match else_branch {
                Some(b) => then_text(then_text(Some("else: "@), block_text(b)), Some(" endif\n"@)),
                None => Some(" endif\n"@),
            },
        ),
        SStmt::While { cond, body, .. } => then_text(
            then_text(Some(" while "@ + expr_text(cond) + " block: "@), block_text(body)),
            Some(" endwhile\n"@),
        ),
        SStmt::For { init, cond, next, .. } => then_text(
            Some("For ("@ + decl_text(init) + "; "@ + "Statement: ["@ + expr_text(cond) + " ]\n"@ + "; "@),
            then_text(stmt_text(*next), Some(") \n"@)),
        ),
        SStmt::Break(_) => Some("Break\n"@),
        SStmt::Struct { name, fields, .. } => Some("Struct "@ + name@ + " [\n"@ + fields_text(fields)),
        SStmt::Import { .. } => None,
    }
}

/// The text of a block.
pub open spec fn block_text(b: SBlock) -> Option<Seq<char>>
    decreases block_size(b), 2nat,
{
    then_text(then_text(Some("Block: ["@), stmts_text(b.stmts)), Some("]"@))
}

/// The texts of statements, one after the other.
pub open spec fn stmts_text(s: Seq<SStmt>) -> Option<Seq<char>>
    decreases stmts_size(s), 3nat,
{
    if s.len() == 0 {
        Some(Seq::empty())
    } else {
        proof {
            lemma_stmt_size_positive(s[0]);
        }
        then_text(stmt_text(s[0]), stmts_text(s.subrange(1, s.len() as int)))
    }
}

/// Appends an expression's text.
#[verifier::rlimit(60)]
fn push_expr(out: &mut String, e: &Expression)
    ensures
        final(out)@ == old(out)@ + expr_text(e@),
    decreases expr_size(e@), 1nat,
{
    proof {
        reveal(expr_view);
        reveal(exprs_view);
    }
    let ghost o = out@;
    match e {
        Expression::Literal(l) => match l {
            Literal::Number(n) => {
                push_str(out, "Literal: Number ");
                let t = i64_to_string(n.value);
                push_str(out, t.as_str());
            },
            Literal::Real(r) => {
                push_str(out, "Literal: Real ");
                push_str(out, r.value.as_str());
            },
            Literal::Bool(b) => {
                push_str(out, "Literal: Bool ");
                push_str(out, if b.value { "true" } else { "false" });
            },
            Literal::Char(c) => {
                push_str(out, "Literal: Char ");
                push_char(out, c.value);
            },
            Literal::StringLiteral(s) => {
                push_str(out, "Literal: String ");
                push_str(out, s.value.as_str());
            },
            Literal::Identifier(i) => {
                push_str(out, "Literal: Identifier ");
                push_str(out, i.name.as_str());
            },
            Literal::StructLiteral(s) => {
                push_str(out, "Struct Literal [");
                push_exprs(out, &s.expressions);
                push_str(out, "]");
            },
        },
        Expression::Binary(b) => match b {
            Binary::Plus(l, r) => push_operation(out, "Plus", l, r),
            Binary::Minus(l, r) => push_operation(out, "Minus", l, r),
            Binary::Multiply(l, r) => push_operation(out, "Multiply", l, r),
            Binary::Divide(l, r) => push_operation(out, "Divide", l, r),
            Binary::Modulo(l, r) => push_operation(out, "Modulo", l, r),
        },
        Expression::Group(g) => {
            push_str(out, "Group: [");
            push_expr(out, &g.inner_expression);
            push_str(out, " ]");
        },
        Expression::BinaryLogic(b) => match b {
            BinaryLogic::And(l, r) => push_operation(out, "And", l, r),
            BinaryLogic::Or(l, r) => push_operation(out, "Or", l, r),
            BinaryLogic::Equal(l, r) => push_operation(out, "Equal", l, r),
            BinaryLogic::NotEqual(l, r) => push_operation(out, "Not Equal", l, r),
            BinaryLogic::More(l, r) => push_operation(out, "More", l, r),
            BinaryLogic::Less(l, r) => push_operation(out, "Less", l, r),
            BinaryLogic::MoreEqual(l, r) => push_operation(out, "More Equal", l, r),
            BinaryLogic::LessEqual(l, r) => push_operation(out, "Less Equal", l, r),
        },
        Expression::Unary(u) => {
            let (name, x) = match u {
                Unary::Not(x) => ("Not", x),
                Unary::Negate(x) => ("Negate", x),
            };
            push_str(out, name);
            push_str(out, ": [ ");
            push_expr(out, x);
            push_str(out, ", ");
            push_str(out, "] ");
            proof {
                assert(seq![expr_text(x@)].drop_last() =~= Seq::<Seq<char>>::empty());
                assert(operation_text(name@, Seq::<Seq<char>>::empty()) == name@ + ": [ "@);
                assert(operation_text(name@, seq![expr_text(x@)]) == name@ + ": [ "@ + expr_text(x@) + ", "@);
            }
        },
        Expression::Call(c) => {
            push_str(out, "call ");
            push_str(out, c.name.as_str());
            push_str(out, "(");
            match &c.args {
                Some(v) => push_exprs(out, v),
                None => {},
            }
            push_str(out, ") ");
        },
        Expression::ArrayAccess(a) => {
            push_expr(out, &a.identifier);
            push_str(out, " [");
            push_expr(out, &a.index);
            push_str(out, "] ");
        },
        Expression::AddressOf(a) => {
            push_str(out, "Address of ");
            push_expr(out, &a.identifier);
        },
        Expression::DeReference(d) => {
            push_str(out, "Dereference of ");
            push_expr(out, &d.identifier);
        },
        Expression::MemberAccess(m) => {
            push_str(out, " Access [");
            push_expr(out, &m.object);
            push_str(out, ", ");
            push_str(out, m.member.as_str());
            push_str(out, "] ");
        },
        Expression::Null(_) => push_str(out, "Null"),
    }
    proof {
        assert(out@ =~= o + expr_text(e@));
    }
}

/// Appends `name: [ l, r, ] `.
fn push_operation(out: &mut String, name: &str, l: &Expression, r: &Expression)
    ensures
        final(out)@ == old(out)@ + operation_text(name@, seq![expr_text(l@), expr_text(r@)]) + "] "@,
    decreases expr_size(l@) + expr_size(r@), 3nat,
{
    let ghost o = out@;
    push_str(out, name);
    push_str(out, ": [ ");
    push_expr(out, l);
    push_str(out, ", ");
    push_expr(out, r);
    push_str(out, ", ");
    push_str(out, "] ");
    proof {
        let ops = seq![expr_text(l@), expr_text(r@)];
        assert(ops.drop_last() =~= seq![expr_text(l@)]);
        assert(seq![expr_text(l@)].drop_last() =~= Seq::<Seq<char>>::empty());
        assert(operation_text(name@, Seq::<Seq<char>>::empty()) == name@ + ": [ "@);
        assert(operation_text(name@, seq![expr_text(l@)]) == name@ + ": [ "@ + expr_text(l@) + ", "@);
        assert(operation_text(name@, ops) == name@ + ": [ "@ + expr_text(l@) + ", "@ + expr_text(r@) + ", "@);
        assert(out@ =~= o + operation_text(name@, ops) + "] "@);
    }
}

/// Appends the texts of expressions.
fn push_exprs(out: &mut String, v: &Vec<Expression>)
    ensures
        final(out)@ == old(out)@ + exprs_text(exprs_view(v@)),
    decreases exprs_size(exprs_view(v@)), 2nat,
{
    proof {
        lemma_exprs_view_len(v@);
    }
    let ghost o = out@;
    let ghost ev = exprs_view(v@);
    let mut i: usize = 0;
    assert(ev.subrange(0, ev.len() as int) =~= ev);
    assert(o + Seq::<char>::empty() =~= o);
    while i < v.len()
        invariant
            ev == exprs_view(v@),
            ev.len() == v@.len(),
            forall|j: int| 0 <= j < v@.len() ==> ev[j] == expr_view(#[trigger] v@[j]),
            i <= v@.len(),
            o + exprs_text(ev) == out@ + exprs_text(ev.subrange(i as int, ev.len() as int)),
        decreases v@.len() - i,
    {
        proof {
            lemma_exprs_size(ev, i as int);
            let rest = ev.subrange(i as int, ev.len() as int);
            assert(rest[0] == ev[i as int]);
            assert(rest.subrange(1, rest.len() as int) =~= ev.subrange(i + 1, ev.len() as int));
        }
        let ghost before = out@;
        push_expr(out, &v[i]);
        proof {
            let rest = ev.subrange(i as int, ev.len() as int);
            let tail = ev.subrange(i + 1, ev.len() as int);
            assert(before + (expr_text(ev[i as int]) + exprs_text(tail)) =~= out@ + exprs_text(tail));
        }
        i = i + 1;
    }
    proof {
        assert(ev.subrange(ev.len() as int, ev.len() as int) =~= Seq::<SExpr>::empty());
        assert(out@ + Seq::<char>::empty() =~= out@);
    }
}

/// Appends a name with its characters escaped, between quotes.
fn push_quoted(out: &mut String, name: &String)
    ensures
        final(out)@ == old(out)@ + "\""@ + escaped(name@) + "\""@,
{
    let ghost o = out@;
    let ghost s = name@;
    push_str(out, "\"");
    let ghost start = out@;
    let n = name.unicode_len();
    let mut i: usize = 0;
    assert(s.subrange(0, 0) =~= Seq::<char>::empty());
    assert(start + Seq::<char>::empty() =~= start);
    while i < n
        invariant
            n == s.len(),
            s == name@,
            i <= n,
            out@ == start + escaped(s.subrange(0, i as int)),
        decreases n - i,
    {
        let c = name.as_str().get_char(i);
        let ghost before = out@;
        if c == '"' {
            push_str(out, "\\\"");
        } else if c == '\\' {
            push_str(out, "\\\\");
        } else if c == '\n' {
            push_str(out, "\\n");
        } else if c == '\t' {
            push_str(out, "\\t");
        } else if c == '\r' {
            push_str(out, "\\r");
        } else if c == '\0' {
            push_str(out, "\\0");
        } else {
            push_char(out, c);
        }
        proof {
            reveal_strlit("\\\"");
            reveal_strlit("\\\\");
            reveal_strlit("\\n");
            reveal_strlit("\\t");
            reveal_strlit("\\r");
            reveal_strlit("\\0");
            assert(s.subrange(0, i + 1).drop_last() =~= s.subrange(0, i as int));
            assert(out@ =~= before + escaped_char(c));
        }
        i = i + 1;
    }
    assert(s.subrange(0, n as int) =~= s);
    push_str(out, "\"");
}

/// Appends a declaration's text.
fn push_decl(out: &mut String, d: &VariableDeclaration)
    ensures
        final(out)@ == old(out)@ + decl_text(decl_view(*d)),
{
    let ghost o = out@;
    push_str(out, "Declaration: [identifier: ");
    push_str(out, d.identifier.as_str());
    push_str(out, ", typename: ");
    push_type_text(out, &d.variable_type);
    push_str(out, ", init_expr: ");
    push_expr(out, &d.init_expr);
    push_str(out, "] \n");
    proof {
        assert(out@ =~= o + decl_text(decl_view(*d)));
    }
}

/// Appends the text of the arguments of a function.
fn push_args(out: &mut String, args: &Vec<(String, ValueType)>)
    ensures
        final(out)@ == old(out)@ + args_text(crate::parser::visitors::args_view(args@)),
{
    let ghost o = out@;
    let ghost av = crate::parser::visitors::args_view(args@);
    let mut i: usize = 0;
    assert(av.subrange(0, 0) =~= Seq::<(Seq<char>, ValueType)>::empty());
    assert(o + Seq::<char>::empty() =~= o);
    while i < args.len()
        invariant
            av == crate::parser::visitors::args_view(args@),
            i <= args@.len(),
            out@ == o + args_text(av.subrange(0, i as int)),
        decreases args@.len() - i,
    {
        let ghost before = out@;
        push_str(out, "(");
        push_quoted(out, &args[i].0);
        push_str(out, ", ");
        push_type_text(out, &args[i].1);
        push_str(out, "), ");
        proof {
            let sub = av.subrange(0, i + 1);
            assert(sub.drop_last() =~= av.subrange(0, i as int));
            assert(sub.last() == (args@[i as int].0@, args@[i as int].1));
            assert(out@ =~= o + args_text(sub));
        }
        i = i + 1;
    }
    assert(av.subrange(0, args@.len() as int) =~= av);
}

/// Appends the text of the fields of a struct.
fn push_fields(out: &mut String, fields: &Vec<(String, ValueType)>)
    ensures
        final(out)@ == old(out)@ + fields_text(crate::parser::visitors::args_view(fields@)),
{
    let ghost o = out@;
    let ghost fv = crate::parser::visitors::args_view(fields@);
    let mut i: usize = 0;
    assert(fv.subrange(0, 0) =~= Seq::<(Seq<char>, ValueType)>::empty());
    assert(o + Seq::<char>::empty() =~= o);
    while i < fields.len()
        invariant
            fv == crate::parser::visitors::args_view(fields@),
            i <= fields@.len(),
            out@ == o + fields_text(fv.subrange(0, i as int)),
        decreases fields@.len() - i,
    {
        push_str(out, "\t");
        push_str(out, fields[i].0.as_str());
        push_str(out, ": ");
        push_type_text(out, &fields[i].1);
        push_str(out, ";\n");
        proof {
            let sub = fv.subrange(0, i + 1);
            assert(sub.drop_last() =~= fv.subrange(0, i as int));
            assert(sub.last() == (fields@[i as int].0@, fields@[i as int].1));
            assert(out@ =~= o + fields_text(sub));
        }
        i = i + 1;
    }
    assert(fv.subrange(0, fields@.len() as int) =~= fv);
}

/// Appends a statement's text.
fn push_stmt(out: &mut String, s: &Statement)
    requires
        stmt_text(s@) is Some,
    ensures
        final(out)@ == old(out)@ + stmt_text(s@)->Some_0,
    decreases stmt_size(s@), 2nat,
{
    let ghost o = out@;
    match s {
        Statement::Expression(e) => {
            push_str(out, "Statement: [");
            push_expr(out, e);
            push_str(out, " ]\n");
            proof {
                assert(out@ =~= o + stmt_text(s@)->Some_0);
            }
        },
        Statement::VariableDeclaration(d) => push_decl(out, d),
        Statement::VariableAssignment(a) => {
            push_expr(out, &a.identifier);
            push_expr(out, &a.new_value);
            push_str(out, "] \n");
            proof {
                assert(out@ =~= o + stmt_text(s@)->Some_0);
            }
        },
        Statement::Function(f) => push_function(out, f),
        Statement::Block(b) => push_block(out, b),
        Statement::Return(r) => {
            push_str(out, "Return: [");
            push_expr(out, &r.expr);
            push_str(out, "]\n");
            proof {
                assert(out@ =~= o + stmt_text(s@)->Some_0);
            }
        },
        Statement::IfStatement(i) => push_if(out, i),
        Statement::WhileStatement(w) => {
            push_str(out, " while ");
            push_expr(out, &w.condition);
            push_str(out, " block: ");
            push_block(out, &w.loop_block);
            push_str(out, " endwhile\n");
            proof {
                assert(out@ =~= o + stmt_text(s@)->Some_0);
            }
        },
        Statement::ForStatement(f) => push_for(out, f),
        Statement::BreakStatement(_) => push_str(out, "Break\n"),
        Statement::Struct(st) => {
            push_str(out, "Struct ");
            push_str(out, st.struct_name.as_str());
            push_str(out, " [\n");
            push_fields(out, &st.fields);
            proof {
                assert(out@ =~= o + stmt_text(s@)->Some_0);
            }
        },
        Statement::Import(_) => {},
    }
}

/// Appends a function's text.
fn push_function(out: &mut String, f: &FunctionStatement)
    requires
        stmt_text(stmt_view(Statement::Function(*f))) is Some,
    ensures
        final(out)@ == old(out)@ + stmt_text(stmt_view(Statement::Function(*f)))->Some_0,
    decreases stmt_size(stmt_view(Statement::Function(*f))), 1nat,
{
    let ghost o = out@;
    push_str(out, "Function ");
    push_str(out, f.callee.as_str());
    push_str(out, "(");
    match &f.args {
        Some(a) => push_args(out, a),
        None => {},
    }
    push_str(out, ")\n");
    match &f.block {
        Some(b) => push_block(out, b),
        None => {},
    }
    proof {
        assert(out@ =~= o + stmt_text(stmt_view(Statement::Function(*f)))->Some_0);
    }
}

/// Appends a conditional's text.
fn push_if(out: &mut String, i: &IfStatement)
    requires
        stmt_text(stmt_view(Statement::IfStatement(*i))) is Some,
    ensures
        final(out)@ == old(out)@ + stmt_text(stmt_view(Statement::IfStatement(*i)))->Some_0,
    decreases stmt_size(stmt_view(Statement::IfStatement(*i))), 1nat,
{
    let ghost o = out@;
    push_str(out, "If: ");
    push_expr(out, &i.condition);
    push_str(out, "then: ");
    push_block(out, &i.then_branch);
    match &i.else_branch {
        Some(b) => {
            push_str(out, "else: ");
            push_block(out, b);
            push_str(out, " endif\n");
        },
        None => push_str(out, " endif\n"),
    }
    proof {
        assert(out@ =~= o + stmt_text(stmt_view(Statement::IfStatement(*i)))->Some_0);
    }
}

/// Appends a `for` loop's text (its body is not shown).
fn push_for(out: &mut String, f: &ForStatement)
    requires
        stmt_text(stmt_view(Statement::ForStatement(*f))) is Some,
    ensures
        final(out)@ == old(out)@ + stmt_text(stmt_view(Statement::ForStatement(*f)))->Some_0,
    decreases stmt_size(stmt_view(Statement::ForStatement(*f))), 1nat,
{
    let ghost o = out@;
    push_str(out, "For (");
    push_decl(out, &f.init_expr);
    push_str(out, "; ");
    push_str(out, "Statement: [");
    push_expr(out, &f.loop_condition);
    push_str(out, " ]\n");
    push_str(out, "; ");
    push_stmt(out, &f.next_expr);
    push_str(out, ") \n");
    proof {
        assert(out@ =~= o + stmt_text(stmt_view(Statement::ForStatement(*f)))->Some_0);
    }
}

/// Appends a block's text.
fn push_block(out: &mut String, b: &BlockStatement)
    requires
        block_text(block_view(*b)) is Some,
    ensures
        final(out)@ == old(out)@ + block_text(block_view(*b))->Some_0,
    decreases block_size(block_view(*b)), 2nat,
{
    let ghost o = out@;
    push_str(out, "Block: [");
    push_stmts(out, &b.statements);
    push_str(out, "]");
    proof {
        assert(out@ =~= o + block_text(block_view(*b))->Some_0);
    }
}

/// Appends the texts of statements.
fn push_stmts(out: &mut String, v: &Vec<Statement>)
    requires
        stmts_text(stmts_view(v@)) is Some,
    ensures
        final(out)@ == old(out)@ + stmts_text(stmts_view(v@))->Some_0,
    decreases stmts_size(stmts_view(v@)), 3nat,
{
    proof {
        lemma_stmts_view_len(v@);
    }
    let ghost o = out@;
    let ghost sv = stmts_view(v@);
    let mut i: usize = 0;
    assert(sv.subrange(0, sv.len() as int) =~= sv);
    assert(o + Seq::<char>::empty() =~= o);
    while i < v.len()
        invariant
            sv == stmts_view(v@),
            sv.len() == v@.len(),
            forall|j: int| 0 <= j < v@.len() ==> sv[j] == stmt_view(#[trigger] v@[j]),
            i <= v@.len(),
            stmts_text(sv.subrange(i as int, sv.len() as int)) is Some,
            o + stmts_text(sv)->Some_0 == out@ + stmts_text(sv.subrange(i as int, sv.len() as int))->Some_0,
        decreases v@.len() - i,
    {
        proof {
            lemma_stmts_size(sv, i as int);
            let rest = sv.subrange(i as int, sv.len() as int);
            assert(rest[0] == sv[i as int]);
            assert(rest.subrange(1, rest.len() as int) =~= sv.subrange(i + 1, sv.len() as int));
        }
        let ghost before = out@;
        push_stmt(out, &v[i]);
        proof {
            let tail = sv.subrange(i + 1, sv.len() as int);
            assert(before + (stmt_text(sv[i as int])->Some_0 + stmts_text(tail)->Some_0) =~= out@ + stmts_text(
                tail,
            )->Some_0);
        }
        i = i + 1;
    }
    proof {
        assert(sv.subrange(sv.len() as int, sv.len() as int) =~= Seq::<SStmt>::empty());
        assert(out@ + Seq::<char>::empty() =~= out@);
    }
}

/// The text of a program's tree, statement after statement, as the
/// interactive interpreter shows it. The printer stops on an `import`, so
/// the program must hold none where the printer goes.
pub fn ast_text(stmts: &Vec<Statement>) -> (r: String)
    requires
        stmts_text(stmts_view(stmts@)) is Some,
    ensures
        r@ == stmts_text(stmts_view(stmts@))->Some_0,
{
    let mut out = String::new();
    push_stmts(&mut out, stmts);
    assert(out@ =~= stmts_text(stmts_view(stmts@))->Some_0);
    out
}

} // verus!
