use vstd::prelude::*;
use crate::parser::grammar::located;
use crate::parser::visitors::{Argument, LineDebugInfo, SStmt, StructStatement, args_view};
use crate::text::{push_decimal, push_str};
use crate::type_system::names::NameMap;
use crate::type_system::types_table::TypeTable;
use crate::type_system::typing::{lookup, struct_view, typed_stmt, CheckState, SSig, Verdict};
use crate::value_type::ValueType;

verus! {

/// What the checker knows of a declared function.
pub struct FunctionSignature {
    pub name: String,
    pub return_type: ValueType,
    pub args_type: Vec<ValueType>,
}

pub open spec fn sig_view(f: FunctionSignature) -> SSig {
    SSig { name: f.name@, ret: f.return_type, args: f.args_type@ }
}

/// The type checker of Light programs: it finds the type of each expression,
/// records it in the tree, and rejects ill-typed programs with a message.
pub struct TypeChecker {
    pub(crate) structs_table: NameMap<StructStatement>,
    pub(crate) variables_table: Vec<NameMap<ValueType>>,
    pub(crate) function_table: NameMap<FunctionSignature>,
    pub(crate) in_function: Option<ValueType>,
    pub(crate) loop_count: u32,
    pub(crate) type_table: TypeTable,
    pub(crate) is_lvalue: bool,
}

/// What checking returns: a type, or a message.
pub type TypeCheckerReturn = Result<ValueType, String>;

/// The verdict that a result stands for.
pub open spec fn verdict_of(r: TypeCheckerReturn) -> Verdict {
    match r {
        Ok(t) => Verdict::Typed(t),
        Err(m) => Verdict::Rejected(m@),
    }
}

/// `r`, the state `after` and the statement `s2` are what checking `s` from
/// `before` gives; scopes are not lost, and a success leaves the loop count
/// as it was.
pub open spec fn stmt_checked(before: CheckState, s: SStmt, r: TypeCheckerReturn, after: CheckState, s2: SStmt) -> bool {
    let (v, st, t) = typed_stmt(before, s);
    &&& verdict_of(r) == v
    &&& after == st
    &&& s2 == t
    &&& after.scopes.len() >= before.scopes.len()
    &&& (r is Ok ==> after.loop_count == before.loop_count)
}

impl View for TypeChecker {
    type V = CheckState;

    closed spec fn view(&self) -> CheckState {
        CheckState {
            structs: self.structs_table@.map_values(|s: StructStatement| struct_view(s)),
            scopes: self.variables_table@.map_values(|m: NameMap<ValueType>| m@),
            functions: self.function_table@.map_values(|f: FunctionSignature| sig_view(f)),
            in_function: self.in_function,
            loop_count: self.loop_count as int,
            types: self.type_table.types(),
            struct_types: self.type_table.struct_types(),
            is_lvalue: self.is_lvalue,
        }
    }
}

impl TypeChecker {
    /// The tables are well formed and there is a global scope.
    pub closed spec fn wf(&self) -> bool {
        &&& self.structs_table.wf()
        &&& self.function_table.wf()
        &&& self.type_table.wf()
        &&& self.variables_table@.len() >= 1
        &&& forall|i: int| 0 <= i < self.variables_table@.len() ==> (#[trigger] self.variables_table@[i]).wf()
    }

    /// What the view and the well-formedness of a checker are made of.
    pub(crate) proof fn reveal_view(&self)
        ensures
            self@ == (CheckState {
                structs: self.structs_table@.map_values(|s: StructStatement| struct_view(s)),
                scopes: self.variables_table@.map_values(|m: NameMap<ValueType>| m@),
                functions: self.function_table@.map_values(|f: FunctionSignature| sig_view(f)),
                in_function: self.in_function,
                loop_count: self.loop_count as int,
                types: self.type_table.types(),
                struct_types: self.type_table.struct_types(),
                is_lvalue: self.is_lvalue,
            }),
            self.wf() == (self.structs_table.wf() && self.function_table.wf() && self.type_table.wf()
                && self.variables_table@.len() >= 1 && forall|i: int|
                0 <= i < self.variables_table@.len() ==> (#[trigger] self.variables_table@[i]).wf()),
    {
    }

    /// A checker with one empty global scope and nothing declared.
    pub fn new() -> (s: Self)
        ensures
            s.wf(),
            s@ == (CheckState {
                structs: Map::empty(),
                scopes: seq![Map::empty()],
                functions: Map::empty(),
                in_function: None,
                loop_count: 0,
                types: Map::empty(),
                struct_types: Map::empty(),
                is_lvalue: false,
            }),
    {
        let mut s = Self {
            structs_table: NameMap::new(),
            variables_table: Vec::new(),
            function_table: NameMap::new(),
            in_function: None,
            loop_count: 0,
            type_table: TypeTable::new(),
            is_lvalue: false,
        };
        s.variables_table.push(NameMap::new());
        assert(s@.structs =~= Map::empty());
        assert(s@.functions =~= Map::empty());
        assert(s@.scopes =~= seq![Map::<Seq<char>, ValueType>::empty()]);
        s
    }

    /// A copy of the table of types that the checker filled.
    pub fn get_type_table(&self) -> (r: TypeTable)
        requires
            self.wf(),
        ensures
            r.wf(),
            r.types() == self@.types,
            r.struct_types() == self@.struct_types,
    {
        self.type_table.clone()
    }

    /// A message located at an element of the source:
    /// `file:line:column Error: msg`.
    pub fn build_error_message<T: LineDebugInfo>(msg: &str, element: &T) -> (r: String)
        ensures
            r@ == located(element.debug_file(), element.debug_line(), element.debug_column(), msg@),
    {
        let mut s = String::new();
        push_str(&mut s, element.file_name());
        push_str(&mut s, ":");
        push_decimal(&mut s, element.line() as u64);
        push_str(&mut s, ":");
        push_decimal(&mut s, element.column() as u64);
        push_str(&mut s, " Error: ");
        push_str(&mut s, msg);
        assert(s@ =~= located(element.debug_file(), element.debug_line(), element.debug_column(), msg@));
        s
    }

    /// The type of a variable: the innermost scope that holds it decides.
    pub fn find_variable_type(&self, name: &String) -> (r: Option<&ValueType>)
        requires
            self.wf(),
        ensures
            match r {
                Some(t) => lookup(self@.scopes, name@) == Some(*t),
                None => lookup(self@.scopes, name@) is None,
            },
    {
        let ghost scopes = self@.scopes;
        let mut i: usize = self.variables_table.len();
        assert(scopes.subrange(0, i as int) =~= scopes);
        while i > 0
            invariant
                self.wf(),
                scopes == self@.scopes,
                i <= scopes.len(),
                lookup(scopes, name@) == lookup(scopes.subrange(0, i as int), name@),
            decreases i,
        {
            let ghost sub = scopes.subrange(0, i as int);
            assert(sub.last() == self.variables_table@[i - 1]@);
            assert(sub.drop_last() =~= scopes.subrange(0, i - 1));
            if let Some(t) = self.variables_table[i - 1].get(name) {
                return Some(t);
            }
            i = i - 1;
        }
        None
    }

    /// The type of a variable, as a value.
    pub fn find_variable(&self, identifier: &String) -> (r: Option<ValueType>)
        requires
            self.wf(),
        ensures
            r == lookup(self@.scopes, identifier@),
    {
        match self.find_variable_type(identifier) {
            Some(t) => Some(t.clone()),
            None => None,
        }
    }
}

impl TypeChecker {
    /// A new innermost scope.
    pub(crate) fn push_scope(&mut self)
        requires
            old(self).wf(),
        ensures
            final(self).wf(),
            final(self)@ == old(self)@.push_scope(),
    {
        proof {
            self.reveal_view();
        }
        self.variables_table.push(NameMap::new());
        proof {
            self.reveal_view();
            assert(self@.scopes =~= old(self)@.scopes.push(Map::empty()));
        }
    }

    /// Leaves the innermost scope.
    pub(crate) fn pop_scope(&mut self)
        requires
            old(self).wf(),
            old(self)@.scopes.len() >= 2,
        ensures
            final(self).wf(),
            final(self)@ == old(self)@.pop_scope(),
    {
        proof {
            self.reveal_view();
        }
        self.variables_table.pop();
        proof {
            self.reveal_view();
            assert(self@.scopes =~= old(self)@.scopes.drop_last());
        }
    }

    /// Declares `name` with type `t` in the innermost scope.
    pub(crate) fn declare(&mut self, name: &String, t: &ValueType)
        requires
            old(self).wf(),
        ensures
            final(self).wf(),
            final(self)@ == old(self)@.declare(name@, *t),
    {
        proof {
            self.reveal_view();
        }
        let n = self.variables_table.len();
        self.variables_table[n - 1].insert(name.clone(), t.clone());
        self.type_table.add_variable(name, t);
        proof {
            self.reveal_view();
            assert(self@.scopes =~= old(self)@.scopes.update(n - 1, old(self)@.scopes.last().insert(name@, *t)));
        }
    }

    /// Declares the function `name` in the global scope.
    pub(crate) fn declare_global(&mut self, name: &String, t: &ValueType)
        requires
            old(self).wf(),
        ensures
            final(self).wf(),
            final(self)@ == (CheckState {
                scopes: old(self)@.scopes.update(0, old(self)@.scopes[0].insert(name@, *t)),
                ..old(self)@
            }),
    {
        proof {
            self.reveal_view();
        }
        self.variables_table[0].insert(name.clone(), t.clone());
        proof {
            self.reveal_view();
            assert(self@.scopes =~= old(self)@.scopes.update(0, old(self)@.scopes[0].insert(name@, *t)));
        }
    }

    /// Opens a scope for the arguments of a function and declares them in
    /// order.
    pub fn add_variables_in_scope(&mut self, args: &Vec<Argument>)
        requires
            old(self).wf(),
        ensures
            final(self).wf(),
            final(self)@ == old(self)@.push_scope().declare_all(args_view(args@)),
    {
        self.push_scope();
        let ghost st = self@;
        let ghost v = args_view(args@);
        let mut i: usize = 0;
        assert(v.subrange(0, 0) =~= Seq::<(Seq<char>, ValueType)>::empty());
        while i < args.len()
            invariant
                self.wf(),
                v == args_view(args@),
                i <= args@.len(),
                st == old(self)@.push_scope(),
                self@ == st.declare_all(v.subrange(0, i as int)),
            decreases args@.len() - i,
        {
            self.declare(&args[i].0, &args[i].1);
            proof {
                assert(v.subrange(0, i + 1).drop_last() =~= v.subrange(0, i as int));
                assert(v.subrange(0, i + 1).last() == (args@[i as int].0@, args@[i as int].1));
            }
            i = i + 1;
        }
        assert(v.subrange(0, args@.len() as int) =~= v);
    }
}

} // verus!
