use vstd::prelude::*;
use crate::parser::visitors::{Loc, SBlock, SDecl, SExpr, SLiteral, SStmt, StructStatement, args_view, loc};
use crate::text::decimal;
use crate::value_type::{compatible, compatible_for_init, type_eq, type_text, ValueType};

verus! {

/// A declared struct: its name, its fields and where it was declared.
pub struct SStruct {
    pub name: String,
    pub fields: Seq<(Seq<char>, ValueType)>,
    pub exported: bool,
    pub loc: Loc,
}

/// The model of a struct declaration.
pub open spec fn struct_view(s: StructStatement) -> SStruct {
    SStruct { name: s.struct_name, fields: args_view(s.fields@), exported: s.exported, loc: loc(s.line, s.column, s.filename) }
}

/// A declared function: its name, return type and argument types.
pub struct SSig {
    pub name: Seq<char>,
    pub ret: ValueType,
    pub args: Seq<ValueType>,
}

/// What the type checker knows at a point of the program.
pub struct CheckState {
    /// The structs declared so far, by name.
    pub structs: Map<Seq<char>, SStruct>,
    /// The scopes of variables, the innermost last.
    pub scopes: Seq<Map<Seq<char>, ValueType>>,
    /// The functions declared so far, by name.
    pub functions: Map<Seq<char>, SSig>,
    /// The return type of the function being checked, if any.
    pub in_function: Option<ValueType>,
    /// How many loops enclose the statement being checked.
    pub loop_count: int,
    /// Every variable and function declared, with its type.
    pub types: Map<Seq<char>, ValueType>,
    /// Every struct declared, by name.
    pub struct_types: Map<Seq<char>, SStruct>,
    /// Whether the expression being checked is the target of an assignment.
    pub is_lvalue: bool,
}

/// The outcome of checking a piece of program: its type, a message saying
/// why it is wrong, or a stop of the checker (the input is outside what the
/// checker handles).
pub enum Verdict {
    Typed(ValueType),
    Rejected(Seq<char>),
    Aborted,
}

/// The number of nodes of an expression.
pub open spec fn expr_size(e: SExpr) -> nat
    decreases e,
{
    match e {
        SExpr::Literal(lit, _) => match lit {
            SLiteral::Struct { exprs, .. } => 1 + exprs_size(exprs),
            _ => 1,
        },
        SExpr::Arith(_, a, b) => 1 + expr_size(*a) + expr_size(*b),
        SExpr::Group(x, _) => 1 + expr_size(*x),
        SExpr::Logic(_, a, b) => 1 + expr_size(*a) + expr_size(*b),
        SExpr::Unary(_, x) => 1 + expr_size(*x),
        SExpr::Call { args, .. } => 1 + match args {
            Some(v) => exprs_size(v),
            None => 0,
        },
        SExpr::ArrayAccess { array, index, .. } => 1 + expr_size(*array) + expr_size(*index),
        SExpr::AddressOf { target, .. } => 1 + expr_size(*target),
        SExpr::DeReference { target, .. } => 1 + expr_size(*target),
        SExpr::MemberAccess { object, .. } => 1 + expr_size(*object),
        SExpr::Null(_) => 1,
    }
}

/// The number of nodes of a list of expressions.
pub open spec fn exprs_size(s: Seq<SExpr>) -> nat
    decreases s,
{
    if s.len() == 0 {
        0
    } else {
        expr_size(s[0]) + exprs_size(s.subrange(1, s.len() as int))
    }
}

/// An expression counts at least itself.
pub proof fn lemma_expr_size_positive(e: SExpr)
    ensures
        expr_size(e) >= 1,
{
}

/// Each expression of a list is smaller than the list.
pub proof fn lemma_exprs_size(s: Seq<SExpr>, i: int)
    requires
        0 <= i < s.len(),
    ensures
        expr_size(s[i]) <= exprs_size(s),
    decreases s.len(),
{
    if i > 0 {
        let t = s.subrange(1, s.len() as int);
        lemma_exprs_size(t, i - 1);
        assert(t[i - 1] == s[i]);
    }
}

/// The type of the variable `name`: the innermost scope that holds it decides.
pub open spec fn lookup(scopes: Seq<Map<Seq<char>, ValueType>>, name: Seq<char>) -> Option<ValueType>
    decreases scopes.len(),
{
    if scopes.len() == 0 {
        None
    } else if scopes.last().contains_key(name) {
        Some(scopes.last()[name])
    } else {
        lookup(scopes.drop_last(), name)
    }
}

impl CheckState {
    /// A new innermost scope.
    pub open spec fn push_scope(self) -> CheckState {
        CheckState { scopes: self.scopes.push(Map::empty()), ..self }
    }

    /// The innermost scope left.
    pub open spec fn pop_scope(self) -> CheckState {
        CheckState { scopes: self.scopes.drop_last(), ..self }
    }

    /// `name` declared with type `t` in the innermost scope.
    pub open spec fn declare(self, name: Seq<char>, t: ValueType) -> CheckState {
        CheckState {
            scopes: self.scopes.update(self.scopes.len() - 1, self.scopes.last().insert(name, t)),
            types: self.types.insert(name, t),
            ..self
        }
    }

    /// The arguments declared in order, in the innermost scope.
    pub open spec fn declare_all(self, args: Seq<(Seq<char>, ValueType)>) -> CheckState
        decreases args.len(),
    {
        if args.len() == 0 {
            self
        } else {
            self.declare_all(args.drop_last()).declare(args.last().0, args.last().1)
        }
    }

    pub open spec fn with_lvalue(self, b: bool) -> CheckState {
        CheckState { is_lvalue: b, ..self }
    }

    pub open spec fn with_function(self, f: Option<ValueType>) -> CheckState {
        CheckState { in_function: f, ..self }
    }

    pub open spec fn with_loops(self, n: int) -> CheckState {
        CheckState { loop_count: n, ..self }
    }
}

/// Declaring arguments changes only the scopes (not their number) and the
/// table of types.
pub proof fn lemma_declare_all(st: CheckState, args: Seq<(Seq<char>, ValueType)>)
    requires
        st.scopes.len() >= 1,
    ensures
        ({
            let st2 = st.declare_all(args);
            &&& st2.scopes.len() == st.scopes.len()
            &&& st2.structs == st.structs
            &&& st2.functions == st.functions
            &&& st2.in_function == st.in_function
            &&& st2.loop_count == st.loop_count
            &&& st2.struct_types == st.struct_types
            &&& st2.is_lvalue == st.is_lvalue
        }),
    decreases args.len(),
{
    if args.len() > 0 {
        lemma_declare_all(st, args.drop_last());
    }
}

/// The type of the last argument named `n`, if any.
pub open spec fn last_type(args: Seq<(Seq<char>, ValueType)>, n: Seq<char>) -> Option<ValueType>
    decreases args.len(),
{
    if args.len() == 0 {
        None
    } else if args.last().0 == n {
        Some(args.last().1)
    } else {
        last_type(args.drop_last(), n)
    }
}

proof fn lemma_declare_all_names(st: CheckState, args: Seq<(Seq<char>, ValueType)>, n: Seq<char>)
    requires
        st.scopes.len() >= 1,
    ensures
        ({
            let st2 = st.declare_all(args);
            &&& st2.scopes.len() == st.scopes.len()
            &&& st2.scopes.drop_last() == st.scopes.drop_last()
            &&& match last_type(args, n) {
                Some(t) => {
                    &&& st2.scopes.last().contains_key(n) && st2.scopes.last()[n] == t
                    &&& st2.types.contains_key(n) && st2.types[n] == t
                },
                None => {
                    &&& st2.scopes.last().contains_key(n) == st.scopes.last().contains_key(n)
                    &&& st.scopes.last().contains_key(n) ==> st2.scopes.last()[n] == st.scopes.last()[n]
                    &&& st2.types.contains_key(n) == st.types.contains_key(n)
                    &&& st.types.contains_key(n) ==> st2.types[n] == st.types[n]
                },
            }
        }),
    decreases args.len(),
{
    if args.len() > 0 {
        lemma_declare_all_names(st, args.drop_last(), n);
        lemma_declare_all(st, args.drop_last());
        let s1 = st.declare_all(args.drop_last());
        assert(s1.declare(args.last().0, args.last().1).scopes.drop_last() =~= s1.scopes.drop_last());
    }
}

/// The arguments of a function are found in the scope opened for them: a name
/// among them has the type of its last occurrence, in the checker's scopes and
/// in its table of types; any other name is found as before. Scopes that were
/// open stay as they were.
pub proof fn law_arguments_in_scope(st: CheckState, args: Seq<(Seq<char>, ValueType)>, n: Seq<char>)
    ensures
        ({
            let st2 = st.push_scope().declare_all(args);
            &&& st2.scopes.len() == st.scopes.len() + 1
            &&& st2.scopes.drop_last() == st.scopes
            &&& lookup(st2.scopes, n) == match last_type(args, n) {
                Some(t) => Some(t),
                None => lookup(st.scopes, n),
            }
            &&& last_type(args, n) matches Some(t) ==> st2.types.contains_key(n) && st2.types[n] == t
        }),
{
    let st1 = st.push_scope();
    lemma_declare_all_names(st1, args, n);
    assert(st1.scopes.drop_last() =~= st.scopes);
    let st2 = st1.declare_all(args);
    assert(st2.scopes.drop_last() =~= st.scopes);
}

/// A variable declared with success then has its declared type: the
/// innermost scope holds it.
pub proof fn law_declared_variable_found(st: CheckState, d: SDecl)
    requires
        st.scopes.len() >= 1,
        typed_decl(st, d).0 is Typed,
    ensures
        lookup(typed_decl(st, d).1.scopes, d.name) == Some(d.ty),
{
    let st2 = typed_decl(st, d).1;
    assert(st2.scopes.last() == st.scopes.last().insert(d.name, d.ty));
}

/// A variable that some scope holds cannot be declared again.
pub proof fn law_redeclaration_rejected(st: CheckState, d: SDecl)
    requires
        lookup(st.scopes, d.name) is Some,
    ensures
        !(typed_decl(st, d).0 is Typed),
        typed_decl(st, d).1 == st,
{
}

/// A struct cannot be declared twice: once a declaration of it is accepted,
/// the same declaration is rejected and changes nothing.
pub proof fn law_struct_redefinition_rejected(st: CheckState, s: SStmt)
    requires
        s is Struct,
        typed_stmt(st, s).0 is Typed,
    ensures
        typed_stmt(typed_stmt(st, s).1, s).0 == Verdict::Rejected("Redefinition of struct '"@ + s->Struct_name@ + "'"@),
        typed_stmt(typed_stmt(st, s).1, s).1 == typed_stmt(st, s).1,
{
}

/// `break` is accepted exactly inside a loop; outside one it is rejected.
pub proof fn law_break_outside_loop(st: CheckState, l: Loc)
    ensures
        st.loop_count == 0 ==> typed_stmt(st, SStmt::Break(l)).0 == Verdict::Rejected(
            "Break statement outside a loop."@,
        ),
        st.loop_count > 0 ==> typed_stmt(st, SStmt::Break(l)).0 == Verdict::Typed(ValueType::Void),
        typed_stmt(st, SStmt::Break(l)).1 == st,
{
}

/// A `ptr void` cannot be dereferenced.
pub proof fn law_void_pointer_not_dereferenced(
    st: CheckState,
    target: SExpr,
    is_lvalue: bool,
    ty: Option<ValueType>,
    l: Loc,
)
    requires
        typed_expr(st, target).0 == Verdict::Typed(ValueType::Pointer(Box::new(ValueType::Void))),
    ensures
        typed_expr(st, SExpr::DeReference { target: Box::new(target), is_lvalue, ty, loc: l }).0
            == Verdict::Rejected("A void ptr cannot be dereferenced!"@),
{
    reveal(typed_expr);
    reveal(typed_args);
    reveal(typed_inits);
    reveal(typed_struct_literal);
}

/// The message for two operands of incompatible types.
pub open spec fn incompatible_message(l: ValueType, r: ValueType) -> Seq<char> {
    "Type "@ + type_text(l) + " is not compatible with type "@ + type_text(r) + ". Consider casting."@
}

/// Two operands checked left first: the left one's type when the right one
/// is compatible with it.
pub open spec fn operands(l: Verdict, r: Verdict) -> Verdict {
    match (l, r) {
        (Verdict::Aborted, _) => Verdict::Aborted,
        (_, Verdict::Aborted) => Verdict::Aborted,
        (Verdict::Rejected(m), _) => Verdict::Rejected(m),
        (_, Verdict::Rejected(m)) => Verdict::Rejected(m),
        (Verdict::Typed(a), Verdict::Typed(b)) => if compatible(a, b) {
            Verdict::Typed(a)
        } else {
            Verdict::Rejected(incompatible_message(a, b))
        },
    }
}

/// `Some(Bool)` stands for a comparison or a logical operation that checked.
pub open spec fn logic_result(v: Verdict) -> Verdict {
    match v {
        Verdict::Typed(_) => Verdict::Typed(ValueType::Bool),
        other => other,
    }
}

/// The type of `addrof e` for `e` of type `t`.
pub open spec fn address_of(t: ValueType) -> Verdict {
    match t {
        ValueType::Function => Verdict::Rejected("Function pointers are not supported yet."@),
        ValueType::Void => Verdict::Rejected("Addrof cannot be applied to void types."@),
        ValueType::Null => Verdict::Rejected("Addrof 'null' is forbidden."@),
        _ => Verdict::Typed(ValueType::Pointer(Box::new(t))),
    }
}

/// The first field named `member`.
pub open spec fn field_type(fields: Seq<(Seq<char>, ValueType)>, member: Seq<char>) -> Option<ValueType>
    decreases fields.len(),
{
    if fields.len() == 0 {
        None
    } else if fields[0].0 == member {
        Some(fields[0].1)
    } else {
        field_type(fields.subrange(1, fields.len() as int), member)
    }
}

/// A member's type is the type declared with the first field of that name,
/// wherever that field stands in the struct; a name that no field has gives
/// no type.
pub proof fn law_field_type_is_first_declared(fields: Seq<(Seq<char>, ValueType)>, member: Seq<char>)
    ensures
        forall|k: int|
            0 <= k < fields.len() && #[trigger] fields[k].0 == member
                && (forall|j: int| 0 <= j < k ==> fields[j].0 != member)
                ==> field_type(fields, member) == Some(fields[k].1),
        (forall|j: int| 0 <= j < fields.len() ==> fields[j].0 != member) ==> field_type(fields, member)
            is None,
    decreases fields.len(),
{
    if fields.len() > 0 {
        let rest = fields.subrange(1, fields.len() as int);
        law_field_type_is_first_declared(rest, member);
        assert forall|k: int|
            0 <= k < fields.len() && #[trigger] fields[k].0 == member
                && (forall|j: int| 0 <= j < k ==> fields[j].0 != member)
            implies field_type(fields, member) == Some(fields[k].1) by {
            if k > 0 {
                assert(fields[0].0 != member);
                assert(rest[k - 1] == fields[k]);
                assert forall|j: int| 0 <= j < k - 1 implies rest[j].0 != member by {
                    assert(rest[j] == fields[j + 1]);
                }
            }
        }
        if forall|j: int| 0 <= j < fields.len() ==> fields[j].0 != member {
            assert(fields[0].0 != member);
            assert forall|j: int| 0 <= j < rest.len() implies rest[j].0 != member by {
                assert(rest[j] == fields[j + 1]);
            }
        }
    }
}

/// In a struct whose fields have distinct names, each field's name gives that
/// field's declared type.
pub proof fn law_field_type_of_distinct_fields(fields: Seq<(Seq<char>, ValueType)>, k: int)
    requires
        0 <= k < fields.len(),
        forall|i: int, j: int| 0 <= i < j < fields.len() ==> fields[i].0 != fields[j].0,
    ensures
        field_type(fields, fields[k].0) == Some(fields[k].1),
{
    law_field_type_is_first_declared(fields, fields[k].0);
    assert(forall|j: int| 0 <= j < k ==> fields[j].0 != fields[k].0);
}

/// Checks an expression: its verdict, and the expression with the types the
/// checker records in it. The checker's state does not change.
#[verifier::opaque]
pub open spec fn typed_expr(st: CheckState, e: SExpr) -> (Verdict, SExpr)
    decreases e, 2nat,
{
    match e {
        SExpr::Literal(lit, l) => match lit {
            SLiteral::Number(_) => (Verdict::Typed(ValueType::Number), e),
            SLiteral::Real(_) => (Verdict::Typed(ValueType::Real), e),
            SLiteral::Bool(_) => (Verdict::Typed(ValueType::Bool), e),
            SLiteral::Char(_) => (Verdict::Typed(ValueType::Char), e),
            SLiteral::Str(_) => (Verdict::Typed(ValueType::String), e),
            SLiteral::Ident { name, is_lvalue, ty } => match lookup(st.scopes, name) {
                Some(t) => (
                    Verdict::Typed(t),
                    SExpr::Literal(SLiteral::Ident { name, is_lvalue: st.is_lvalue, ty: Some(t) }, l),
                ),
                None => (
                    Verdict::Rejected(
                        "'"@ + name + "' is not declared. Declare it 'let "@ + name + ": <typename> = <init_expr>;'"@,
                    ),
                    e,
                ),
            },
            SLiteral::Struct { literal_type, name, exprs } => {
                let (v, es) = typed_struct_literal(st, name, exprs);
                (
                    v,
                    SExpr::Literal(
                        SLiteral::Struct {
                            literal_type: match v {
                                Verdict::Typed(t) => Some(t),
                                _ => literal_type,
                            },
                            name,
                            exprs: es,
                        },
                        l,
                    ),
                )
            },
        },
        SExpr::Arith(op, a, b) => {
            let (va, a2) = typed_expr(st, *a);
            let (vb, b2) = typed_expr(st, *b);
            (operands(va, vb), SExpr::Arith(op, Box::new(a2), Box::new(b2)))
        },
        SExpr::Group(x, l) => {
            let (v, x2) = typed_expr(st, *x);
            (v, SExpr::Group(Box::new(x2), l))
        },
        SExpr::Logic(op, a, b) => {
            let (va, a2) = typed_expr(st, *a);
            let (vb, b2) = typed_expr(st, *b);
            (logic_result(operands(va, vb)), SExpr::Logic(op, Box::new(a2), Box::new(b2)))
        },
        SExpr::Unary(op, x) => {
            let (v, x2) = typed_expr(st, *x);
            (v, SExpr::Unary(op, Box::new(x2)))
        },
        SExpr::Call { name, ty, args, loc } => if !st.functions.contains_key(name) {
            (Verdict::Rejected("Function '"@ + name + "' is not declared in this module."@), e)
        } else {
            let sig = st.functions[name];
            match args {
                None => (Verdict::Typed(sig.ret), SExpr::Call { name, ty: Some(sig.ret), args: None, loc }),
                Some(v) => if v.len() != sig.args.len() {
                    (
                        Verdict::Rejected(
                            "Expected "@ + decimal(sig.args.len()) + " arguments for function '"@ + sig.name
                                + "' call but got "@ + decimal(v.len()) + " arguments."@,
                        ),
                        e,
                    )
                } else {
                    let (va, v2) = typed_args(st, sig, v, 0);
                    match va {
                        Verdict::Typed(_) => (
                            Verdict::Typed(sig.ret),
                            SExpr::Call { name, ty: Some(sig.ret), args: Some(v2), loc },
                        ),
                        other => (other, SExpr::Call { name, ty, args: Some(v2), loc }),
                    }
                },
            }
        },
        SExpr::ArrayAccess { ty, array, is_lvalue, index, loc } => {
            let (va, a2) = typed_expr(st, *array);
            let node = |t: Option<ValueType>| SExpr::ArrayAccess { ty: t, array: Box::new(a2), is_lvalue, index, loc };
            match va {
                Verdict::Typed(ValueType::Array(arr)) => (Verdict::Typed(*arr.array_type), node(Some(*arr.array_type))),
                Verdict::Typed(ValueType::String) => (Verdict::Typed(ValueType::Char), node(Some(ValueType::Char))),
                Verdict::Typed(ValueType::Pointer(p)) => (Verdict::Typed(*p), node(Some(*p))),
                Verdict::Typed(t) => (Verdict::Rejected("'"@ + type_text(t) + "' is not a subscriptable type."@), node(ty)),
                other => (other, node(ty)),
            }
        },
        SExpr::AddressOf { target, ty, loc } => {
            let (v, t2) = typed_expr(st, *target);
            (
                match v {
                    Verdict::Typed(t) => address_of(t),
                    other => other,
                },
                SExpr::AddressOf { target: Box::new(t2), ty, loc },
            )
        },
        SExpr::DeReference { target, is_lvalue, ty, loc } => {
            let (v, t2) = typed_expr(st, *target);
            match v {
                Verdict::Typed(ValueType::Pointer(p)) => if *p is Void {
                    (
                        Verdict::Rejected("A void ptr cannot be dereferenced!"@),
                        SExpr::DeReference { target: Box::new(t2), is_lvalue, ty, loc },
                    )
                } else {
                    (
                        Verdict::Typed(*p),
                        SExpr::DeReference { target: Box::new(t2), is_lvalue: st.is_lvalue, ty: Some(*p), loc },
                    )
                },
                Verdict::Typed(t) => (
                    Verdict::Rejected("'"@ + type_text(t) + "' Cannot be dereferenced as it's not a pointer type."@),
                    SExpr::DeReference { target: Box::new(t2), is_lvalue, ty, loc },
                ),
                other => (other, SExpr::DeReference { target: Box::new(t2), is_lvalue, ty, loc }),
            }
        },
        SExpr::MemberAccess { object, member, ty, loc } => {
            let (v, o2) = typed_expr(st, *object);
            let name = match v {
                Verdict::Typed(ValueType::Struct(s)) => Some(s),
                Verdict::Typed(ValueType::Pointer(p)) => match *p {
                    ValueType::Struct(s) => Some(s),
                    _ => None,
                },
                _ => None,
            };
            match name {
                Some(s) => {
                    let node = SExpr::MemberAccess { object: Box::new(o2), member, ty: Some(ValueType::Struct(s)), loc };
                    if !st.structs.contains_key(s@) {
                        (Verdict::Aborted, node)
                    } else {
                        match field_type(st.structs[s@].fields, member) {
                            Some(t) => (Verdict::Typed(t), node),
                            None => (
                                Verdict::Rejected(
                                    "Type '"@ + st.structs[s@].name@ + "' has no field '"@ + member + "'"@,
                                ),
                                node,
                            ),
                        }
                    }
                },
                None => (
                    match v {
                        Verdict::Typed(_) => Verdict::Rejected("Member access on a non-struct type"@),
                        other => other,
                    },
                    SExpr::MemberAccess { object: Box::new(o2), member, ty, loc },
                ),
            }
        },
        SExpr::Null(_) => (Verdict::Typed(ValueType::Null), e),
    }
}

/// Checking a member access keeps the member's name.
pub proof fn lemma_member_kept(st: CheckState, e: SExpr)
    requires
        e is MemberAccess,
    ensures
        typed_expr(st, e).1 is MemberAccess,
        typed_expr(st, e).1->MemberAccess_member == e->MemberAccess_member,
{
    reveal(typed_expr);
    reveal(typed_args);
    reveal(typed_inits);
    reveal(typed_struct_literal);
}

/// Checks the arguments `rest` of a call, the first of them being at
/// position `i`, each against the function's argument type; they come back
/// with their types recorded.
#[verifier::opaque]
pub open spec fn typed_args(st: CheckState, sig: SSig, rest: Seq<SExpr>, i: int) -> (Verdict, Seq<SExpr>)
    decreases rest, 0nat,
{
    if rest.len() == 0 {
        (Verdict::Typed(ValueType::Void), rest)
    } else {
        let (v, a) = typed_expr(st, rest[0]);
        let tail = rest.subrange(1, rest.len() as int);
        match v {
            Verdict::Typed(t) => if !compatible(t, sig.args[i]) {
                (
                    Verdict::Rejected(
                        "Expression of type '"@ + type_text(t) + "' cannot be applied to function argument of type '"@
                            + type_text(sig.args[i]) + "' in the call to '"@ + sig.name + "'"@,
                    ),
                    seq![a] + tail,
                )
            } else {
                let (vr, tail2) = typed_args(st, sig, tail, i + 1);
                (vr, seq![a] + tail2)
            },
            other => (other, seq![a] + tail),
        }
    }
}

/// Checks a struct literal: the struct must be declared, and each
/// expression must fit its field; the expressions come back with their types.
#[verifier::opaque]
pub open spec fn typed_struct_literal(st: CheckState, name: Seq<char>, exprs: Seq<SExpr>) -> (Verdict, Seq<SExpr>)
    decreases exprs, 1nat,
{
    if !st.structs.contains_key(name) {
        (Verdict::Rejected("Undeclared struct '"@ + name + "'"@), exprs)
    } else {
        let d = st.structs[name];
        if d.fields.len() != exprs.len() {
            (
                Verdict::Rejected(
                    "Incorrect number of expressions to init struct '"@ + name + "', got "@ + decimal(exprs.len())
                        + " expressions but "@ + decimal(d.fields.len()) + " are required."@,
                ),
                exprs,
            )
        } else {
            let (v, es) = typed_inits(st, d, name, exprs, 0);
            (
                match v {
                    Verdict::Typed(_) => Verdict::Typed(ValueType::Struct(d.name)),
                    other => other,
                },
                es,
            )
        }
    }
}

/// Checks the expressions `rest` of a struct literal, the first of them
/// initialising field `i` of `d`; they come back with their types recorded.
#[verifier::opaque]
pub open spec fn typed_inits(st: CheckState, d: SStruct, lit: Seq<char>, rest: Seq<SExpr>, i: int) -> (Verdict, Seq<SExpr>)
    decreases rest, 0nat,
{
    if rest.len() == 0 {
        (Verdict::Typed(ValueType::Void), rest)
    } else {
        let (v, a) = typed_expr(st, rest[0]);
        let tail = rest.subrange(1, rest.len() as int);
        match v {
            Verdict::Typed(t) => if !compatible_for_init(d.fields[i].1, t) {
                (
                    Verdict::Rejected(
                        "In struct '"@ + lit + "' literal, can't init type "@ + type_text(d.fields[i].1)
                            + " with type "@ + type_text(t) + " at position "@ + decimal((i + 1) as nat),
                    ),
                    seq![a] + tail,
                )
            } else {
                let (vr, tail2) = typed_inits(st, d, lit, tail, i + 1);
                (vr, seq![a] + tail2)
            },
            other => (other, seq![a] + tail),
        }
    }
}

/// Checks a declaration: the variable enters the innermost scope when its
/// initial value fits its type and no scope has it yet.
pub open spec fn typed_decl(st: CheckState, d: SDecl) -> (Verdict, CheckState, SDecl) {
    let (v, init2) = typed_expr(st, d.init);
    let d2 = SDecl { init: init2, ..d };
    match v {
        Verdict::Typed(it) => if !compatible_for_init(d.ty, it) {
            (
                Verdict::Rejected(
                    "variable '"@ + d.name + "' is declared as '"@ + type_text(d.ty) + "' but init expression has type '"@
                        + type_text(it) + "'"@,
                ),
                st,
                d2,
            )
        } else if lookup(st.scopes, d.name) is Some {
            (Verdict::Rejected("Redifinition of variable '"@ + d.name + "'."@), st, d2)
        } else {
            (Verdict::Typed(it), st.declare(d.name, d.ty), d2)
        },
        other => (other, st, d2),
    }
}

/// The verdict of an assignment once both sides have a type: `ok` when
/// `compatible(target, value)`, `message` otherwise.
pub open spec fn assignment_verdict(target: ValueType, value: ValueType, ok: ValueType, message: Seq<char>) -> Verdict {
    if compatible(target, value) {
        Verdict::Typed(ok)
    } else {
        Verdict::Rejected(message)
    }
}

/// Checks `array[index] = value;`: the value first, then the array (the
/// index is not checked); the array and the value come back with their types.
pub open spec fn typed_array_assign(st: CheckState, array: SExpr, value: SExpr) -> (Verdict, SExpr, SExpr) {
    let (vr, value2) = typed_expr(st, value);
    match vr {
        Verdict::Typed(rt) => {
            let (va, array2) = typed_expr(st, array);
            (
                match va {
                    Verdict::Typed(ValueType::Array(arr)) => assignment_verdict(
                        *arr.array_type,
                        rt,
                        rt,
                        "Can't assign expression of type '"@ + type_text(rt) + "' to array element of type '"@
                            + type_text(*arr.array_type) + "'"@,
                    ),
                    Verdict::Typed(ValueType::Pointer(p)) => assignment_verdict(
                        *p,
                        rt,
                        rt,
                        "Can't assign expression of type '"@ + type_text(rt) + "' to array element of type '"@
                            + type_text(ValueType::Pointer(p)) + "'"@,
                    ),
                    Verdict::Typed(ValueType::String) => if !type_eq(rt, ValueType::Char) {
                        Verdict::Rejected(
                            "Can't assign expression of type '"@ + type_text(rt)
                                + "' to string element. Expression must be a 'char'"@,
                        )
                    } else {
                        Verdict::Typed(rt)
                    },
                    Verdict::Typed(_) => Verdict::Rejected("Array is not declared."@),
                    other => other,
                },
                array2,
                value2,
            )
        },
        other => (other, array, value2),
    }
}

/// Checks `target = value;` for a plain target: the value first, then the
/// target; both come back with their types.
pub open spec fn typed_simple_assign(st: CheckState, target: SExpr, value: SExpr) -> (Verdict, SExpr, SExpr) {
    let (vr, value2) = typed_expr(st, value);
    match vr {
        Verdict::Typed(et) => {
            let (vt, target2) = typed_expr(st, target);
            (
                match vt {
                    Verdict::Typed(tt) => assignment_verdict(
                        et,
                        tt,
                        et,
                        "Cannot assign expression of type '"@ + type_text(et) + "' of type '"@ + type_text(tt) + "'."@,
                    ),
                    other => other,
                },
                target2,
                value2,
            )
        },
        other => (other, target, value2),
    }
}

/// Checks `target = value;`.
pub open spec fn typed_assign(st: CheckState, target: SExpr, value: SExpr, l: Loc) -> (Verdict, CheckState, SStmt) {
    match target {
        SExpr::ArrayAccess { ty, array, is_lvalue, index, loc } => {
            let (v, array2, value2) = typed_array_assign(st, *array, value);
            (
                v,
                st,
                SStmt::Assignment {
                    target: SExpr::ArrayAccess { ty, array: Box::new(array2), is_lvalue: true, index, loc },
                    value: value2,
                    loc: l,
                },
            )
        },
        SExpr::DeReference { target: inner, is_lvalue, ty, loc } => {
            let (vd, target2) = typed_expr(st, SExpr::DeReference { target: inner, is_lvalue: true, ty, loc });
            match vd {
                Verdict::Typed(dt) => {
                    let (vi, value2) = typed_expr(st, value);
                    (
                        match vi {
                            Verdict::Typed(it) => assignment_verdict(
                                dt,
                                it,
                                dt,
                                "Cannot assign type '"@ + type_text(it) + "' with a dereferenced pointer of type '"@
                                    + type_text(dt) + "'"@,
                            ),
                            other => other,
                        },
                        st,
                        SStmt::Assignment { target: target2, value: value2, loc: l },
                    )
                },
                other => (other, st, SStmt::Assignment { target: target2, value, loc: l }),
            }
        },
        SExpr::MemberAccess { object, member, ty, loc } => {
            let st1 = st.with_lvalue(true);
            let (vm, target2) = typed_expr(st1, target);
            match vm {
                Verdict::Typed(mt) => {
                    let (vi, value2) = typed_expr(st1, value);
                    match vi {
                        Verdict::Typed(it) => (
                            assignment_verdict(
                                mt,
                                it,
                                mt,
                                "Cannot assign on member '"@ + member + "' of type '"@ + type_text(mt) + "' with type '"@
                                    + type_text(it) + "'"@,
                            ),
                            st.with_lvalue(false),
                            SStmt::Assignment { target: target2, value: value2, loc: l },
                        ),
                        other => (other, st1, SStmt::Assignment { target: target2, value: value2, loc: l }),
                    }
                },
                other => (other, st1, SStmt::Assignment { target: target2, value, loc: l }),
            }
        },
        _ => {
            let (v, target2, value2) = typed_simple_assign(st.with_lvalue(true), target, value);
            (v, st.with_lvalue(false), SStmt::Assignment { target: target2, value: value2, loc: l })
        },
    }
}

/// The number of statements and blocks in a statement.
pub open spec fn stmt_size(s: SStmt) -> nat
    decreases s,
{
    match s {
        SStmt::Function { block, .. } => 1 + match block {
            Some(b) => block_size(b),
            None => 0,
        },
        SStmt::Block(b) => 1 + block_size(b),
        SStmt::If { then_branch, else_branch, .. } => 1 + block_size(then_branch) + match else_branch {
            Some(b) => block_size(b),
            None => 0,
        },
        SStmt::While { body, .. } => 1 + block_size(body),
        SStmt::For { next, body, .. } => 1 + stmt_size(*next) + block_size(body),
        _ => 1,
    }
}

/// The number of statements and blocks in a block.
pub open spec fn block_size(b: SBlock) -> nat
    decreases b,
{
    1 + stmts_size(b.stmts)
}

/// The number of statements and blocks in a list of statements.
pub open spec fn stmts_size(stmts: Seq<SStmt>) -> nat
    decreases stmts,
{
    if stmts.len() == 0 {
        0
    } else {
        stmt_size(stmts[0]) + stmts_size(stmts.subrange(1, stmts.len() as int))
    }
}

/// A statement counts at least itself.
pub proof fn lemma_stmt_size_positive(s: SStmt)
    ensures
        stmt_size(s) >= 1,
{
}

/// Each statement of a list is no larger than the list.
pub proof fn lemma_stmts_size(s: Seq<SStmt>, i: int)
    requires
        0 <= i < s.len(),
    ensures
        stmt_size(s[i]) <= stmts_size(s),
    decreases s.len(),
{
    if i > 0 {
        let t = s.subrange(1, s.len() as int);
        lemma_stmts_size(t, i - 1);
        assert(t[i - 1] == s[i]);
    }
}

/// A statement can be checked from `st`: the checker does not stop on it,
/// and its loops do not overflow the loop counter.
pub open spec fn checkable(st: CheckState, s: SStmt) -> bool {
    &&& !(typed_stmt(st, s).0 is Aborted)
    &&& st.loop_count + loop_depth(s) <= u32::MAX
}

/// How deep loops nest in a statement.
pub open spec fn loop_depth(s: SStmt) -> nat
    decreases s,
{
    match s {
        SStmt::Function { block, .. } => match block {
            Some(b) => block_depth(b),
            None => 0,
        },
        SStmt::Block(b) => block_depth(b),
        SStmt::If { then_branch, else_branch, .. } => {
            let t = block_depth(then_branch);
            let e = match else_branch {
                Some(b) => block_depth(b),
                None => 0,
            };
            if t >= e { t } else { e }
        },
        SStmt::While { body, .. } => 1 + block_depth(body),
        SStmt::For { next, body, .. } => {
            let n = loop_depth(*next);
            let b = block_depth(body);
            1 + if n >= b { n } else { b }
        },
        _ => 0,
    }
}

/// How deep loops nest in a block.
pub open spec fn block_depth(b: SBlock) -> nat
    decreases b,
{
    stmts_depth(b.stmts)
}

/// How deep loops nest in a list of statements.
pub open spec fn stmts_depth(stmts: Seq<SStmt>) -> nat
    decreases stmts,
{
    if stmts.len() == 0 {
        0
    } else {
        let h = loop_depth(stmts[0]);
        let t = stmts_depth(stmts.subrange(1, stmts.len() as int));
        if h >= t { h } else { t }
    }
}

/// Each statement of a list, and each suffix of it, nests loops no deeper
/// than the list.
pub proof fn lemma_stmts_depth(stmts: Seq<SStmt>, i: int)
    requires
        0 <= i < stmts.len(),
    ensures
        loop_depth(stmts[i]) <= stmts_depth(stmts),
        stmts_depth(stmts.subrange(i, stmts.len() as int)) <= stmts_depth(stmts),
    decreases stmts.len(),
{
    assert(stmts.subrange(0, stmts.len() as int) =~= stmts);
    if i > 0 {
        let t = stmts.subrange(1, stmts.len() as int);
        lemma_stmts_depth(t, i - 1);
        assert(t[i - 1] == stmts[i]);
        assert(t.subrange(i - 1, t.len() as int) =~= stmts.subrange(i, stmts.len() as int));
    }
}

/// Whether a statement of the list is a `return`.
pub open spec fn has_return(stmts: Seq<SStmt>) -> bool {
    exists|i: int| 0 <= i < stmts.len() && #[trigger] stmts[i] is Return
}

/// The argument types of a function.
pub open spec fn arg_types(args: Option<Seq<(Seq<char>, ValueType)>>) -> Seq<ValueType> {
    match args {
        Some(a) => a.map_values(|p: (Seq<char>, ValueType)| p.1),
        None => Seq::empty(),
    }
}

/// The state once a function is declared, before its body: its name in the
/// global scope and in the function table, and its arguments in a scope of
/// their own.
pub open spec fn enter_function(
    st: CheckState,
    callee: Seq<char>,
    args: Option<Seq<(Seq<char>, ValueType)>>,
    ret: ValueType,
) -> CheckState {
    let st1 = CheckState {
        scopes: st.scopes.update(0, st.scopes[0].insert(callee, ret)),
        types: st.types.insert(callee, ValueType::Function),
        functions: st.functions.insert(callee, SSig { name: callee, ret, args: arg_types(args) }),
        ..st
    };
    let st2 = match args {
        Some(a) => st1.push_scope().declare_all(a),
        None => st1,
    };
    st2.with_function(Some(ret))
}

/// Checks a statement: its verdict, the state after it, and the statement
/// with the types the checker records in it.
pub open spec fn typed_stmt(st: CheckState, s: SStmt) -> (Verdict, CheckState, SStmt)
    decreases stmt_size(s), 2nat,
{
    match s {
        SStmt::Expression(e) => {
            let (v, e2) = typed_expr(st, e);
            (v, st, SStmt::Expression(e2))
        },
        SStmt::Declaration(d) => {
            let (v, st2, d2) = typed_decl(st, d);
            (v, st2, SStmt::Declaration(d2))
        },
        SStmt::Assignment { target, value, loc } => typed_assign(st, target, value, loc),
        SStmt::Function { callee, args, block, return_type, exported, loc } => if st.in_function is Some {
            (Verdict::Rejected("Nested function is not allowed."@), st, s)
        } else if exported && block is None {
            (Verdict::Rejected("Exported function '"@ + callee + "' has no body."@), st, s)
        } else {
            let st3 = enter_function(st, callee, args, return_type);
            match block {
                Some(b) => {
                    let (vb, st4, b2) = typed_block(st3, b);
                    let s2 = SStmt::Function { callee, args, block: Some(b2), return_type, exported, loc };
                    match vb {
                        Verdict::Typed(_) => {
                            let st5 = (if args is Some { st4.pop_scope() } else { st4 }).with_function(None);
                            if !type_eq(return_type, ValueType::Void) && !has_return(b2.stmts) {
                                (Verdict::Rejected("Function '"@ + callee + "' returns no values"@), st5, s2)
                            } else {
                                (Verdict::Typed(return_type), st5, s2)
                            }
                        },
                        other => (other, st4, s2),
                    }
                },
                None => (Verdict::Typed(return_type), st3.with_function(None), s),
            }
        },
        SStmt::Struct { name, fields, exported, loc } => if st.structs.contains_key(name@) {
            (Verdict::Rejected("Redefinition of struct '"@ + name@ + "'"@), st, s)
        } else {
            let d = SStruct { name, fields, exported, loc };
            (
                Verdict::Typed(ValueType::Struct(name)),
                CheckState {
                    structs: st.structs.insert(name@, d),
                    struct_types: st.struct_types.insert(name@, d),
                    ..st
                },
                s,
            )
        },
        SStmt::Block(b) => {
            let (v, st2, b2) = typed_block(st, b);
            (v, st2, SStmt::Block(b2))
        },
        SStmt::Return(e, l) => match st.in_function {
            None => (Verdict::Rejected("Return statement is valid only in a function."@), st, s),
            Some(rt) => {
                let (v, e2) = typed_expr(st, e);
                (
                    match v {
                        Verdict::Typed(et) => assignment_verdict(
                            et,
                            rt,
                            et,
                            "Returned '"@ + type_text(et) + "' is not compatible with function return type '"@
                                + type_text(rt) + "'"@,
                        ),
                        other => other,
                    },
                    st,
                    SStmt::Return(e2, l),
                )
            },
        },
        SStmt::If { cond, then_branch, else_branch, loc } => {
            let (vc, c2) = typed_expr(st, cond);
            match vc {
                Verdict::Typed(ct) => if !type_eq(ct, ValueType::Bool) {
                    (
                        Verdict::Rejected("If condition has type '"@ + type_text(ct) + "' but the type bool is needed."@),
                        st,
                        SStmt::If { cond: c2, then_branch, else_branch, loc },
                    )
                } else {
                    let (vt, st1, t2) = typed_block(st, then_branch);
                    match vt {
                        Verdict::Typed(_) => match else_branch {
                            Some(eb) => {
                                let (ve, st2, e2) = typed_block(st1, eb);
                                (
                                    match ve {
                                        Verdict::Typed(_) => Verdict::Typed(ValueType::Void),
                                        other => other,
                                    },
                                    st2,
                                    SStmt::If { cond: c2, then_branch: t2, else_branch: Some(e2), loc },
                                )
                            },
                            None => (
                                Verdict::Typed(ValueType::Void),
                                st1,
                                SStmt::If { cond: c2, then_branch: t2, else_branch: None, loc },
                            ),
                        },
                        other => (other, st1, SStmt::If { cond: c2, then_branch: t2, else_branch, loc }),
                    }
                },
                other => (other, st, SStmt::If { cond: c2, then_branch, else_branch, loc }),
            }
        },
        SStmt::While { cond, body, loc } => {
            let (vc, c2) = typed_expr(st, cond);
            match vc {
                Verdict::Typed(ct) => {
                    let st1 = st.with_loops(st.loop_count + 1);
                    if !type_eq(ct, ValueType::Bool) {
                        (
                            Verdict::Rejected(
                                "While condition has type '"@ + type_text(ct) + "' but the type bool is needed."@,
                            ),
                            st1,
                            SStmt::While { cond: c2, body, loc },
                        )
                    } else {
                        let (vb, st2, b2) = typed_block(st1, body);
                        match vb {
                            Verdict::Typed(_) => (
                                Verdict::Typed(ValueType::Void),
                                st2.with_loops(st2.loop_count - 1),
                                SStmt::While { cond: c2, body: b2, loc },
                            ),
                            other => (other, st2, SStmt::While { cond: c2, body: b2, loc }),
                        }
                    }
                },
                other => (other, st, SStmt::While { cond: c2, body, loc }),
            }
        },
        SStmt::For { init, cond, next, body, loc } => {
            let st1 = st.push_scope().with_loops(st.loop_count + 1);
            let (vi, st2, init2) = typed_decl(st1, init);
            match vi {
                Verdict::Typed(it) => {
                    let (vc, c2) = typed_expr(st2, cond);
                    match vc {
                        Verdict::Typed(lt) => typed_for_body(st2, it, lt, init2, c2, *next, body, loc),
                        other => (other, st2, SStmt::For { init: init2, cond: c2, next, body, loc }),
                    }
                },
                other => (other, st2, SStmt::For { init: init2, cond, next, body, loc }),
            }
        },
        SStmt::Break(_) => if st.loop_count == 0 {
            (Verdict::Rejected("Break statement outside a loop."@), st, s)
        } else {
            (Verdict::Typed(ValueType::Void), st, s)
        },
        SStmt::Import { .. } => (Verdict::Aborted, st, s),
    }
}

/// The rest of a `for` statement once its variable and condition are
/// checked: the statement run after each turn, then the body; then the types
/// of the variable and of the condition are held to what a loop needs.
pub open spec fn typed_for_body(
    st2: CheckState,
    it: ValueType,
    lt: ValueType,
    init2: SDecl,
    c2: SExpr,
    next: SStmt,
    body: SBlock,
    loc: Loc,
) -> (Verdict, CheckState, SStmt)
    decreases 1 + stmt_size(next) + block_size(body), 1nat,
{
    let (vn, st3, next2) = typed_stmt(st2, next);
    match vn {
        Verdict::Typed(_) => {
            let (vb, st4, b2) = typed_block(st3, body);
            let s2 = SStmt::For { init: init2, cond: c2, next: Box::new(next2), body: b2, loc };
            match vb {
                Verdict::Typed(_) => {
                    let st5 = st4.pop_scope().with_loops(st4.loop_count - 1);
                    if !type_eq(it, ValueType::Number) && !type_eq(it, ValueType::Real) {
                        (
                            Verdict::Rejected(
                                "For init declaration has type '"@ + type_text(it)
                                    + "' but type 'number' or 'real' is required."@,
                            ),
                            st5,
                            s2,
                        )
                    } else if !type_eq(lt, ValueType::Bool) {
                        (
                            Verdict::Rejected(
                                "For loop expression has type '"@ + type_text(lt) + "' but type 'bool' is required."@,
                            ),
                            st5,
                            s2,
                        )
                    } else {
                        (Verdict::Typed(ValueType::Void), st5, s2)
                    }
                },
                other => (other, st4, s2),
            }
        },
        other => (other, st3, SStmt::For { init: init2, cond: c2, next: Box::new(next2), body, loc }),
    }
}

/// Checks a block in a scope of its own.
pub open spec fn typed_block(st: CheckState, b: SBlock) -> (Verdict, CheckState, SBlock)
    decreases block_size(b), 2nat,
{
    let (v, st2, stmts2) = typed_stmts(st.push_scope(), b.stmts);
    match v {
        Verdict::Typed(_) => (Verdict::Typed(ValueType::Void), st2.pop_scope(), SBlock { stmts: stmts2, loc: b.loc }),
        other => (other, st2, SBlock { stmts: stmts2, loc: b.loc }),
    }
}

/// Checks statements in turn, up to the first that fails.
pub open spec fn typed_stmts(st: CheckState, stmts: Seq<SStmt>) -> (Verdict, CheckState, Seq<SStmt>)
    decreases stmts_size(stmts), 3nat,
{
    if stmts.len() == 0 {
        (Verdict::Typed(ValueType::Number), st, stmts)
    } else {
        let (v, st1, s0) = typed_stmt(st, stmts[0]);
        let tail = stmts.subrange(1, stmts.len() as int);
        match v {
            Verdict::Typed(_) => {
                proof {
                    lemma_stmt_size_positive(stmts[0]);
                }
                let (vr, st2, tail2) = typed_stmts(st1, tail);
                (vr, st2, seq![s0] + tail2)
            },
            other => (other, st1, seq![s0] + tail),
        }
    }
}

} // verus!
