use vstd::prelude::*;
use crate::parser::visitors::{Loc, SBlock, SDecl, SExpr, SStmt};
use crate::type_system::typing::{CheckState, SSig, Verdict, arg_types, enter_function, lookup, typed_decl, typed_expr, typed_stmt};
use crate::value_type::{ValueType, type_eq, type_text};

verus! {

/// A variable of a non-array type accepts an initial value of an equal type,
/// and enters the innermost scope with its declared type when no scope holds
/// it yet; an initial value of another type is rejected with a message that
/// names both types, and the checker's state is left as it was. A variable
/// of an array type accepts a value of its element type.
pub proof fn law_declaration_checks_initial_value(st: CheckState, d: SDecl, it: ValueType)
    requires
        st.scopes.len() >= 1,
        typed_expr(st, d.init).0 == Verdict::Typed(it),
        !(it is Array),
    ensures
        !(d.ty is Array) && !type_eq(it, d.ty) ==> typed_decl(st, d).0 == Verdict::Rejected(
            "variable '"@ + d.name + "' is declared as '"@ + type_text(d.ty) + "' but init expression has type '"@
                + type_text(it) + "'"@,
        ) && typed_decl(st, d).1 == st,
        !(d.ty is Array) && type_eq(it, d.ty) && lookup(st.scopes, d.name) is None ==> typed_decl(st, d).0
            == Verdict::Typed(it) && lookup(typed_decl(st, d).1.scopes, d.name) == Some(d.ty),
        d.ty matches ValueType::Array(a) ==> (typed_decl(st, d).0 is Rejected || typed_decl(st, d).0 is Typed)
            && (!type_eq(*a.array_type, it) ==> typed_decl(st, d).0 is Rejected)
            && (type_eq(*a.array_type, it) && lookup(st.scopes, d.name) is None ==> typed_decl(st, d).0
            == Verdict::Typed(it)),
{
    let st2 = typed_decl(st, d).1;
    if typed_decl(st, d).0 is Typed {
        assert(st2.scopes.last() == st.scopes.last().insert(d.name, d.ty));
    }
}

/// `return` is only valid inside a function, where the returned value must
/// have the function's return type; otherwise it is rejected, naming both
/// types.
pub proof fn law_return_checks_type(st: CheckState, e: SExpr, l: Loc, et: ValueType)
    requires
        typed_expr(st, e).0 == Verdict::Typed(et),
    ensures
        st.in_function is None ==> typed_stmt(st, SStmt::Return(e, l)).0 == Verdict::Rejected(
            "Return statement is valid only in a function."@,
        ),
        st.in_function matches Some(rt) ==> typed_stmt(st, SStmt::Return(e, l)).0 == if type_eq(rt, et) {
            Verdict::Typed(et)
        } else {
            Verdict::Rejected(
                "Returned '"@ + type_text(et) + "' is not compatible with function return type '"@ + type_text(rt)
                    + "'"@,
            )
        },
        typed_stmt(st, SStmt::Return(e, l)).1 == st,
{
}

/// The condition of an `if` or a `while` must be a `bool`: any other type is
/// rejected with a message naming it.
pub proof fn law_conditions_are_bool(
    st: CheckState,
    cond: SExpr,
    then_branch: SBlock,
    else_branch: Option<SBlock>,
    body: SBlock,
    l: Loc,
    ct: ValueType,
)
    requires
        typed_expr(st, cond).0 == Verdict::Typed(ct),
        !type_eq(ct, ValueType::Bool),
    ensures
        typed_stmt(st, SStmt::If { cond, then_branch, else_branch, loc: l }).0 == Verdict::Rejected(
            "If condition has type '"@ + type_text(ct) + "' but the type bool is needed."@,
        ),
        typed_stmt(st, SStmt::While { cond, body, loc: l }).0 == Verdict::Rejected(
            "While condition has type '"@ + type_text(ct) + "' but the type bool is needed."@,
        ),
{
}

/// Functions are declared only at the top level: one inside another is
/// rejected. The body of a function is checked with the function declared in
/// the outermost scope and in the table of functions, with its return type as
/// the type that `return` must give.
pub proof fn law_function_declarations(
    st: CheckState,
    callee: Seq<char>,
    args: Option<Seq<(Seq<char>, ValueType)>>,
    block: Option<SBlock>,
    return_type: ValueType,
    exported: bool,
    l: Loc,
)
    requires
        st.scopes.len() >= 1,
    ensures
        st.in_function is Some ==> typed_stmt(
            st,
            SStmt::Function { callee, args, block, return_type, exported, loc: l },
        ).0 == Verdict::Rejected("Nested function is not allowed."@),
        ({
            let st2 = enter_function(st, callee, args, return_type);
            &&& st2.in_function == Some(return_type)
            &&& st2.functions.contains_key(callee)
            &&& st2.functions[callee] == (SSig { name: callee, ret: return_type, args: arg_types(args) })
            &&& st2.scopes[0].contains_key(callee) && st2.scopes[0][callee] == return_type
        }),
{
    let st1 = CheckState {
        scopes: st.scopes.update(0, st.scopes[0].insert(callee, return_type)),
        types: st.types.insert(callee, ValueType::Function),
        functions: st.functions.insert(callee, SSig { name: callee, ret: return_type, args: arg_types(args) }),
        ..st
    };
    if let Some(a) = args {
        crate::type_system::typing::lemma_declare_all(st1.push_scope(), a);
        lemma_declare_all_keeps_outer(st1.push_scope(), a);
    }
}

proof fn lemma_declare_all_keeps_outer(st: CheckState, a: Seq<(Seq<char>, ValueType)>)
    requires
        st.scopes.len() >= 2,
    ensures
        st.declare_all(a).scopes[0] == st.scopes[0],
    decreases a.len(),
{
    if a.len() > 0 {
        lemma_declare_all_keeps_outer(st, a.drop_last());
        crate::type_system::typing::lemma_declare_all(st, a.drop_last());
    }
}

} // verus!
