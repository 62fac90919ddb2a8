use vstd::prelude::*;
use crate::parser::visitors::{ArithOp, Loc, LogicOp, SExpr};
use crate::type_system::typing::{
    CheckState, SSig, Verdict, incompatible_message, law_field_type_is_first_declared, lookup, typed_args,
    typed_expr, typed_inits, typed_struct_literal,
};
use crate::text::decimal;
use crate::value_type::{ValueType, type_eq};

verus! {

/// A member access on a struct, or on a pointer to a struct, has the type
/// declared with the first field of that name; a name that no field has is
/// rejected with a message naming the struct and the member.
pub proof fn law_member_access_has_field_type(
    st: CheckState,
    object: SExpr,
    member: Seq<char>,
    ty: Option<ValueType>,
    l: Loc,
    s: String,
    k: int,
)
    requires
        typed_expr(st, object).0 == Verdict::Typed(ValueType::Struct(s)) || typed_expr(st, object).0
            == Verdict::Typed(ValueType::Pointer(Box::new(ValueType::Struct(s)))),
        st.structs.contains_key(s@),
    ensures
        0 <= k < st.structs[s@].fields.len() && st.structs[s@].fields[k].0 == member && (forall|j: int|
            0 <= j < k ==> st.structs[s@].fields[j].0 != member) ==> typed_expr(
            st,
            SExpr::MemberAccess { object: Box::new(object), member, ty, loc: l },
        ).0 == Verdict::Typed(st.structs[s@].fields[k].1),
        (forall|j: int| 0 <= j < st.structs[s@].fields.len() ==> st.structs[s@].fields[j].0 != member)
            ==> typed_expr(st, SExpr::MemberAccess { object: Box::new(object), member, ty, loc: l }).0
            == Verdict::Rejected("Type '"@ + st.structs[s@].name@ + "' has no field '"@ + member + "'"@),
{
    reveal(typed_expr);
    reveal(typed_args);
    reveal(typed_inits);
    reveal(typed_struct_literal);
    law_field_type_is_first_declared(st.structs[s@].fields, member);
}

/// An arithmetic operation takes the type of its left operand when the right
/// operand's type equals it; a comparison or a logical operation is then a
/// `bool`. Operands of unequal types are rejected, naming both types.
pub proof fn law_operator_types(st: CheckState, a: SExpr, b: SExpr, ta: ValueType, tb: ValueType, aop: ArithOp, lop: LogicOp)
    requires
        typed_expr(st, a).0 == Verdict::Typed(ta),
        typed_expr(st, b).0 == Verdict::Typed(tb),
    ensures
        type_eq(tb, ta) ==> typed_expr(st, SExpr::Arith(aop, Box::new(a), Box::new(b))).0 == Verdict::Typed(ta),
        type_eq(tb, ta) ==> typed_expr(st, SExpr::Logic(lop, Box::new(a), Box::new(b))).0 == Verdict::Typed(
            ValueType::Bool,
        ),
        !type_eq(tb, ta) ==> typed_expr(st, SExpr::Arith(aop, Box::new(a), Box::new(b))).0 == Verdict::Rejected(
            incompatible_message(ta, tb),
        ),
        !type_eq(tb, ta) ==> typed_expr(st, SExpr::Logic(lop, Box::new(a), Box::new(b))).0 == Verdict::Rejected(
            incompatible_message(ta, tb),
        ),
{
    reveal(typed_expr);
    reveal(typed_args);
    reveal(typed_inits);
    reveal(typed_struct_literal);
}

/// Subscripting an array gives its element type, a string a `char`, a pointer
/// the type it points to; any other type cannot be subscripted.
pub proof fn law_subscript_types(
    st: CheckState,
    array: SExpr,
    ty: Option<ValueType>,
    is_lvalue: bool,
    index: SExpr,
    l: Loc,
    t: ValueType,
)
    requires
        typed_expr(st, array).0 == Verdict::Typed(t),
    ensures
        ({
            let v = typed_expr(
                st,
                SExpr::ArrayAccess { ty, array: Box::new(array), is_lvalue, index: Box::new(index), loc: l },
            ).0;
            &&& t matches ValueType::Array(arr) ==> v == Verdict::Typed(*arr.array_type)
            &&& t is String ==> v == Verdict::Typed(ValueType::Char)
            &&& t matches ValueType::Pointer(p) ==> v == Verdict::Typed(*p)
            &&& !(t is Array || t is String || t is Pointer) ==> v is Rejected
        }),
{
    reveal(typed_expr);
    reveal(typed_args);
    reveal(typed_inits);
    reveal(typed_struct_literal);
}

/// A variable's type comes from the innermost scope that declares it: scopes
/// opened later hide the ones opened before.
pub proof fn law_innermost_scope_decides(scopes: Seq<Map<Seq<char>, ValueType>>, name: Seq<char>)
    ensures
        forall|k: int|
            0 <= k < scopes.len() && #[trigger] scopes[k].contains_key(name) && (forall|j: int|
                k < j < scopes.len() ==> !scopes[j].contains_key(name)) ==> lookup(scopes, name) == Some(
                scopes[k][name],
            ),
        (forall|j: int| 0 <= j < scopes.len() ==> !scopes[j].contains_key(name)) ==> lookup(scopes, name) is None,
    decreases scopes.len(),
{
    if scopes.len() > 0 {
        let init = scopes.drop_last();
        law_innermost_scope_decides(init, name);
        assert forall|k: int|
            0 <= k < scopes.len() && #[trigger] scopes[k].contains_key(name) && (forall|j: int|
                k < j < scopes.len() ==> !scopes[j].contains_key(name))
            implies lookup(scopes, name) == Some(scopes[k][name]) by {
            if k < scopes.len() - 1 {
                assert(!scopes[scopes.len() - 1].contains_key(name));
                assert(init[k] == scopes[k]);
                assert forall|j: int| k < j < init.len() implies !init[j].contains_key(name) by {
                    assert(init[j] == scopes[j]);
                }
            }
        }
        if forall|j: int| 0 <= j < scopes.len() ==> !scopes[j].contains_key(name) {
            assert(!scopes[scopes.len() - 1].contains_key(name));
            assert forall|j: int| 0 <= j < init.len() implies !init[j].contains_key(name) by {
                assert(init[j] == scopes[j]);
            }
        }
    }
}

/// A call names a declared function and, when it has an argument list, gives
/// as many arguments as the function takes; a call that checks has the
/// function's return type.
pub proof fn law_call_types(
    st: CheckState,
    name: Seq<char>,
    ty: Option<ValueType>,
    args: Option<Seq<SExpr>>,
    l: Loc,
)
    ensures
        ({
            let v = typed_expr(st, SExpr::Call { name, ty, args, loc: l }).0;
            let sig = st.functions[name];
            &&& !st.functions.contains_key(name) ==> v == Verdict::Rejected(
                "Function '"@ + name + "' is not declared in this module."@,
            )
            &&& st.functions.contains_key(name) && args is None ==> v == Verdict::Typed(sig.ret)
            &&& st.functions.contains_key(name) ==> (args matches Some(a) ==> a.len() != sig.args.len() ==> v
                == Verdict::Rejected(
                "Expected "@ + decimal(sig.args.len()) + " arguments for function '"@ + sig.name
                    + "' call but got "@ + decimal(a.len()) + " arguments."@,
            ))
            &&& st.functions.contains_key(name) && v is Typed ==> v == Verdict::Typed(sig.ret)
        }),
{
    reveal(typed_expr);
    reveal(typed_args);
    reveal(typed_inits);
    reveal(typed_struct_literal);
}

} // verus!
