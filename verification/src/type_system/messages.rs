use vstd::prelude::*;
use crate::text::{decimal, push_decimal, push_str};
use crate::type_system::typing::incompatible_message;
use crate::value_type::{push_type_text, type_text, ValueType};

verus! {

/// A message that is a constant text.
pub fn text(a: &str) -> (r: String)
    ensures
        r@ == a@,
{
    a.to_owned()
}

/// `a` + `b` + `c`, where `b` is a name.
pub fn around(a: &str, b: &str, c: &str) -> (r: String)
    ensures
        r@ == a@ + b@ + c@,
{
    let mut s = String::new();
    push_str(&mut s, a);
    push_str(&mut s, b);
    push_str(&mut s, c);
    assert(s@ =~= a@ + b@ + c@);
    s
}

/// `a` + the text of `t` + `c`.
pub fn around_type(a: &str, t: &ValueType, c: &str) -> (r: String)
    ensures
        r@ == a@ + type_text(*t) + c@,
{
    let mut s = String::new();
    push_str(&mut s, a);
    push_type_text(&mut s, t);
    push_str(&mut s, c);
    assert(s@ =~= a@ + type_text(*t) + c@);
    s
}

/// `a` + the text of `t` + `b` + the text of `u` + `c`.
pub fn two_types(a: &str, t: &ValueType, b: &str, u: &ValueType, c: &str) -> (r: String)
    ensures
        r@ == a@ + type_text(*t) + b@ + type_text(*u) + c@,
{
    let mut s = String::new();
    push_str(&mut s, a);
    push_type_text(&mut s, t);
    push_str(&mut s, b);
    push_type_text(&mut s, u);
    push_str(&mut s, c);
    assert(s@ =~= a@ + type_text(*t) + b@ + type_text(*u) + c@);
    s
}

/// Two operands whose types do not fit.
pub fn incompatible(l: &ValueType, r: &ValueType) -> (m: String)
    ensures
        m@ == incompatible_message(*l, *r),
{
    two_types("Type ", l, " is not compatible with type ", r, ". Consider casting.")
}

/// A name that no scope holds.
pub fn not_declared(name: &String) -> (m: String)
    ensures
        m@ == "'"@ + name@ + "' is not declared. Declare it 'let "@ + name@ + ": <typename> = <init_expr>;'"@,
{
    let mut s = String::new();
    push_str(&mut s, "'");
    push_str(&mut s, name.as_str());
    push_str(&mut s, "' is not declared. Declare it 'let ");
    push_str(&mut s, name.as_str());
    push_str(&mut s, ": <typename> = <init_expr>;'");
    assert(s@ =~= "'"@ + name@ + "' is not declared. Declare it 'let "@ + name@ + ": <typename> = <init_expr>;'"@);
    s
}

/// A struct literal with the wrong number of expressions.
pub fn init_count(name: &String, got: usize, required: usize) -> (m: String)
    ensures
        m@ == "Incorrect number of expressions to init struct '"@ + name@ + "', got "@ + decimal(got as nat)
            + " expressions but "@ + decimal(required as nat) + " are required."@,
{
    let mut s = String::new();
    push_str(&mut s, "Incorrect number of expressions to init struct '");
    push_str(&mut s, name.as_str());
    push_str(&mut s, "', got ");
    push_decimal(&mut s, got as u64);
    push_str(&mut s, " expressions but ");
    push_decimal(&mut s, required as u64);
    push_str(&mut s, " are required.");
    assert(s@ =~= "Incorrect number of expressions to init struct '"@ + name@ + "', got "@ + decimal(got as nat)
        + " expressions but "@ + decimal(required as nat) + " are required."@);
    s
}

/// A call with the wrong number of arguments.
pub fn arg_count(expected: usize, name: &String, got: usize) -> (m: String)
    ensures
        m@ == "Expected "@ + decimal(expected as nat) + " arguments for function '"@ + name@ + "' call but got "@
            + decimal(got as nat) + " arguments."@,
{
    let mut s = String::new();
    push_str(&mut s, "Expected ");
    push_decimal(&mut s, expected as u64);
    push_str(&mut s, " arguments for function '");
    push_str(&mut s, name.as_str());
    push_str(&mut s, "' call but got ");
    push_decimal(&mut s, got as u64);
    push_str(&mut s, " arguments.");
    assert(s@ =~= "Expected "@ + decimal(expected as nat) + " arguments for function '"@ + name@ + "' call but got "@
        + decimal(got as nat) + " arguments."@);
    s
}

/// An argument whose type does not fit the function's.
pub fn bad_argument(t: &ValueType, a: &ValueType, name: &String) -> (m: String)
    ensures
        m@ == "Expression of type '"@ + type_text(*t) + "' cannot be applied to function argument of type '"@
            + type_text(*a) + "' in the call to '"@ + name@ + "'"@,
{
    let mut s = two_types(
        "Expression of type '",
        t,
        "' cannot be applied to function argument of type '",
        a,
        "' in the call to '",
    );
    push_str(&mut s, name.as_str());
    push_str(&mut s, "'");
    s
}

/// A struct literal expression whose type does not fit its field.
pub fn bad_init(name: &String, f: &ValueType, t: &ValueType, position: usize) -> (m: String)
    requires
        position < usize::MAX,
    ensures
        m@ == "In struct '"@ + name@ + "' literal, can't init type "@ + type_text(*f) + " with type "@ + type_text(*t)
            + " at position "@ + decimal((position + 1) as nat),
{
    let mut s = String::new();
    push_str(&mut s, "In struct '");
    push_str(&mut s, name.as_str());
    push_str(&mut s, "' literal, can't init type ");
    push_type_text(&mut s, f);
    push_str(&mut s, " with type ");
    push_type_text(&mut s, t);
    push_str(&mut s, " at position ");
    push_decimal(&mut s, (position + 1) as u64);
    assert(s@ =~= "In struct '"@ + name@ + "' literal, can't init type "@ + type_text(*f) + " with type "@
        + type_text(*t) + " at position "@ + decimal((position + 1) as nat));
    s
}

/// A struct without the field asked for.
pub fn no_field(name: &String, member: &String) -> (m: String)
    ensures
        m@ == "Type '"@ + name@ + "' has no field '"@ + member@ + "'"@,
{
    let mut s = around("Type '", name.as_str(), "' has no field '");
    push_str(&mut s, member.as_str());
    push_str(&mut s, "'");
    s
}

/// A declaration whose initial value does not fit.
pub fn bad_declaration(name: &String, declared: &ValueType, init: &ValueType) -> (m: String)
    ensures
        m@ == "variable '"@ + name@ + "' is declared as '"@ + type_text(*declared) + "' but init expression has type '"@
            + type_text(*init) + "'"@,
{
    let mut s = around("variable '", name.as_str(), "' is declared as '");
    push_type_text(&mut s, declared);
    push_str(&mut s, "' but init expression has type '");
    push_type_text(&mut s, init);
    push_str(&mut s, "'");
    s
}

/// An assignment to a member whose type does not fit.
pub fn bad_member_assignment(member: &String, mt: &ValueType, it: &ValueType) -> (m: String)
    ensures
        m@ == "Cannot assign on member '"@ + member@ + "' of type '"@ + type_text(*mt) + "' with type '"@ + type_text(*it)
            + "'"@,
{
    let mut s = around("Cannot assign on member '", member.as_str(), "' of type '");
    push_type_text(&mut s, mt);
    push_str(&mut s, "' with type '");
    push_type_text(&mut s, it);
    push_str(&mut s, "'");
    s
}

} // verus!
