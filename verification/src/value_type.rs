use vstd::prelude::*;
use crate::text::{decimal, push_decimal, push_str, str_eq};

verus! {

/// A fixed-size array type: `[element; size]`.
#[derive(Debug)]
pub struct StaticArray {
    pub size: usize,
    pub array_type: Box<ValueType>,
}

/// The types of the Light language.
#[derive(Debug)]
pub enum ValueType {
    Array(StaticArray),
    Number,
    Real,
    Bool,
    String,
    Function,
    Pointer(Box<ValueType>),
    Struct(String),
    Char,
    Void,
    Null,
}

/// The number of type constructors in a type.
pub open spec fn type_size(t: ValueType) -> nat
    decreases t,
{
    match t {
        ValueType::Array(a) => 1 + type_size(*a.array_type),
        ValueType::Pointer(p) => 1 + type_size(*p),
        _ => 1,
    }
}

/// The meaning of `==` between two Light types.
///
/// It is not symmetric: a `ptr void` equals `string`, a pointer equals any
/// pointer whose pointee is `void` (on either side), `null` equals any pointer,
/// arrays are equal when they have the same size and compatible element types.
pub open spec fn type_eq(lhs: ValueType, rhs: ValueType) -> bool
    decreases type_size(lhs) + type_size(rhs),
{
    match (lhs, rhs) {
        (ValueType::Number, ValueType::Number) => true,
        (ValueType::Real, ValueType::Real) => true,
        (ValueType::Bool, ValueType::Bool) => true,
        (ValueType::Char, ValueType::Char) => true,
        (ValueType::String, ValueType::String) => true,
        (ValueType::Pointer(p), ValueType::String) => *p is Void,
        (ValueType::Function, ValueType::Function) => true,
        (ValueType::Void, ValueType::Void) => true,
        (ValueType::Array(l), ValueType::Array(r)) => type_eq(*r.array_type, *l.array_type)
            && l.size == r.size,
        (ValueType::Pointer(l), ValueType::Pointer(r)) => {
            if *r is Void {
                true
            } else if *l is Void {
                true
            } else {
                type_eq(*r, *l)
            }
        },
        (ValueType::Pointer(_), ValueType::Null) => true,
        (ValueType::Null, ValueType::Pointer(_)) => true,
        (ValueType::Struct(l), ValueType::Struct(r)) => l@ == r@,
        _ => false,
    }
}

/// Two basic types (numbers, reals, booleans, chars, strings, `void`,
/// functions) are equal exactly when they are the same type.
pub proof fn law_basic_types_equal_only_themselves(a: ValueType, b: ValueType)
    requires
        a is Number || a is Real || a is Bool || a is Char || a is String || a is Void || a is Function,
        b is Number || b is Real || b is Bool || b is Char || b is String || b is Void || b is Function,
    ensures
        type_eq(a, b) <==> a == b,
{
}

/// Whether `null` occurs in a type.
pub open spec fn mentions_null(t: ValueType) -> bool
    decreases t,
{
    match t {
        ValueType::Null => true,
        ValueType::Array(a) => mentions_null(*a.array_type),
        ValueType::Pointer(p) => mentions_null(*p),
        _ => false,
    }
}

/// Every type without `null` in it equals itself (`null` does not equal
/// `null`).
pub proof fn law_type_eq_reflexive(t: ValueType)
    requires
        !mentions_null(t),
    ensures
        type_eq(t, t),
        compatible(t, t),
    decreases t,
{
    match t {
        ValueType::Array(a) => law_type_eq_reflexive(*a.array_type),
        ValueType::Pointer(p) => law_type_eq_reflexive(*p),
        _ => {},
    }
}

/// `ltype` accepts a value of type `rtype` (assignment, arguments, operands).
pub open spec fn compatible(ltype: ValueType, rtype: ValueType) -> bool {
    type_eq(rtype, ltype)
}

/// `ltype` accepts `rtype` as the initial value of a declaration: an array is
/// initialised from (and compared through) its element type.
pub open spec fn compatible_for_init(ltype: ValueType, rtype: ValueType) -> bool {
    match (ltype, rtype) {
        (ValueType::Array(lhs), rhs) => type_eq(*lhs.array_type, rhs),
        (lhs, ValueType::Array(rhs)) => type_eq(lhs, *rhs.array_type),
        _ => type_eq(rtype, ltype),
    }
}

fn is_void(t: &ValueType) -> (r: bool)
    ensures
        r == (*t is Void),
{
    match t {
        ValueType::Void => true,
        _ => false,
    }
}

fn type_eq_exec(lhs: &ValueType, rhs: &ValueType) -> (r: bool)
    ensures
        r == type_eq(*lhs, *rhs),
    decreases type_size(*lhs) + type_size(*rhs),
{
    match (lhs, rhs) {
        (ValueType::Number, ValueType::Number) => true,
        (ValueType::Real, ValueType::Real) => true,
        (ValueType::Bool, ValueType::Bool) => true,
        (ValueType::Char, ValueType::Char) => true,
        (ValueType::String, ValueType::String) => true,
        (ValueType::Pointer(p), ValueType::String) => is_void(p),
        (ValueType::Function, ValueType::Function) => true,
        (ValueType::Void, ValueType::Void) => true,
        (ValueType::Array(l), ValueType::Array(r)) => {
            type_eq_exec(&r.array_type, &l.array_type) && l.size == r.size
        },
        (ValueType::Pointer(l), ValueType::Pointer(r)) => {
            if is_void(r) {
                true
            } else if is_void(l) {
                true
            } else {
                type_eq_exec(r, l)
            }
        },
        (ValueType::Pointer(_), ValueType::Null) => true,
        (ValueType::Null, ValueType::Pointer(_)) => true,
        (ValueType::Struct(l), ValueType::Struct(r)) => l.eq(r),
        _ => false,
    }
}

impl PartialEq for ValueType {
    fn eq(&self, other: &Self) -> (r: bool) {
        type_eq_exec(self, other)
    }
}

impl vstd::std_specs::cmp::PartialEqSpecImpl for ValueType {
    open spec fn obeys_eq_spec() -> bool {
        true
    }

    open spec fn eq_spec(&self, other: &ValueType) -> bool {
        type_eq(*self, *other)
    }
}

impl Clone for ValueType {
    fn clone(&self) -> (r: Self)
        ensures
            r == *self,
        decreases *self,
    {
        match self {
            ValueType::Array(a) => ValueType::Array(
                StaticArray { size: a.size, array_type: Box::new((*a.array_type).clone()) },
            ),
            ValueType::Number => ValueType::Number,
            ValueType::Real => ValueType::Real,
            ValueType::Bool => ValueType::Bool,
            ValueType::String => ValueType::String,
            ValueType::Function => ValueType::Function,
            ValueType::Pointer(p) => ValueType::Pointer(Box::new((**p).clone())),
            ValueType::Struct(s) => ValueType::Struct(s.clone()),
            ValueType::Char => ValueType::Char,
            ValueType::Void => ValueType::Void,
            ValueType::Null => ValueType::Null,
        }
    }
}

impl ValueType {
    pub fn is_compatible(ltype: &ValueType, rtype: &ValueType) -> (r: bool)
        ensures
            r == compatible(*ltype, *rtype),
    {
        type_eq_exec(rtype, ltype)
    }
}

/// How a type is written in messages.
pub open spec fn type_text(t: ValueType) -> Seq<char>
    decreases t,
{
    match t {
        ValueType::Number => "Number"@,
        ValueType::Real => "Real"@,
        ValueType::Bool => "Bool"@,
        ValueType::String => "String"@,
        ValueType::Function => "Function"@,
        ValueType::Void => "Void"@,
        ValueType::Char => "Char"@,
        ValueType::Null => "Null"@,
        ValueType::Array(a) => "Array of "@ + type_text(*a.array_type) + " size: "@ + decimal(a.size as nat),
        ValueType::Pointer(p) => "Pointer of "@ + type_text(*p),
        ValueType::Struct(s) => "Struct "@ + s@,
    }
}

/// The type named by a type keyword.
pub open spec fn named_type(s: Seq<char>) -> Option<ValueType> {
    if s == "number"@ {
        Some(ValueType::Number)
    } else if s == "real"@ {
        Some(ValueType::Real)
    } else if s == "bool"@ {
        Some(ValueType::Bool)
    } else if s == "char"@ {
        Some(ValueType::Char)
    } else if s == "string"@ {
        Some(ValueType::String)
    } else if s == "void"@ {
        Some(ValueType::Void)
    } else {
        None
    }
}

/// Appends the text of a type to `out`.
pub fn push_type_text(out: &mut String, t: &ValueType)
    ensures
        final(out)@ == old(out)@ + type_text(*t),
    decreases *t,
{
    match t {
        ValueType::Number => push_str(out, "Number"),
        ValueType::Real => push_str(out, "Real"),
        ValueType::Bool => push_str(out, "Bool"),
        ValueType::String => push_str(out, "String"),
        ValueType::Function => push_str(out, "Function"),
        ValueType::Void => push_str(out, "Void"),
        ValueType::Char => push_str(out, "Char"),
        ValueType::Null => push_str(out, "Null"),
        ValueType::Array(a) => {
            let ghost o = out@;
            push_str(out, "Array of ");
            push_type_text(out, &a.array_type);
            push_str(out, " size: ");
            push_decimal(out, a.size as u64);
            assert(out@ =~= o + type_text(*t));
        },
        ValueType::Pointer(p) => {
            let ghost o = out@;
            push_str(out, "Pointer of ");
            push_type_text(out, p);
            assert(out@ =~= o + type_text(*t));
        },
        ValueType::Struct(name) => {
            let ghost o = out@;
            push_str(out, "Struct ");
            push_str(out, name.as_str());
            assert(out@ =~= o + type_text(*t));
        },
    }
}

impl ValueType {
    /// The text of the type, as messages write it.
    pub fn display_text(&self) -> (r: String)
        ensures
            r@ == type_text(*self),
    {
        let mut s = String::new();
        push_type_text(&mut s, self);
        assert(s@ =~= type_text(*self));
        s
    }

    /// `ltype` accepts `rtype` as the initial value of a declaration.
    pub fn is_compatible_for_init(ltype: &ValueType, rtype: &ValueType) -> (r: bool)
        ensures
            r == compatible_for_init(*ltype, *rtype),
    {
        match (ltype, rtype) {
            (ValueType::Array(lhs), rhs) => type_eq_exec(&lhs.array_type, rhs),
            (lhs, ValueType::Array(rhs)) => type_eq_exec(lhs, &rhs.array_type),
            _ => type_eq_exec(rtype, ltype),
        }
    }

    /// The name of a struct type.
    pub fn into_struct_type(&self) -> (r: String)
        requires
            *self is Struct,
        ensures
            r@ == self->Struct_0@,
    {
        match self {
            ValueType::Struct(s) => s.clone(),
            _ => String::new(),
        }
    }

    /// The type named by a type keyword (`number`, `real`, `bool`, `char`,
    /// `string`, `void`).
    pub fn from_name(s: &str) -> (r: Result<ValueType, &'static str>)
        ensures
            match named_type(s@) {
                Some(t) => r == Ok::<ValueType, &'static str>(t),
                None => r == Err::<ValueType, &'static str>("Unkown type"),
            },
    {
        if str_eq(s, "number") {
            Ok(ValueType::Number)
        } else if str_eq(s, "real") {
            Ok(ValueType::Real)
        } else if str_eq(s, "bool") {
            Ok(ValueType::Bool)
        } else if str_eq(s, "char") {
            Ok(ValueType::Char)
        } else if str_eq(s, "string") {
            Ok(ValueType::String)
        } else if str_eq(s, "void") {
            Ok(ValueType::Void)
        } else {
            Err("Unkown type")
        }
    }
}

impl std::str::FromStr for ValueType {
    type Err = &'static str;

    fn from_str(s: &str) -> (r: Result<Self, Self::Err>)
        ensures
            match named_type(s@) {
                Some(t) => r == Ok::<ValueType, &'static str>(t),
                None => r == Err::<ValueType, &'static str>("Unkown type"),
            },
    {
        ValueType::from_name(s)
    }
}

} // verus!
