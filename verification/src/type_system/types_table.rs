use vstd::prelude::*;
use crate::parser::visitors::StructStatement;
use crate::type_system::names::NameMap;
use crate::type_system::typing::{struct_view, SStruct};
use crate::value_type::ValueType;

verus! {

/// The types of every variable and function of a program, and its structs,
/// as the code generator looks them up.
pub struct TypeTable {
    types: NameMap<ValueType>,
    struct_type: NameMap<StructStatement>,
}

impl TypeTable {
    /// The tables are well formed.
    pub closed spec fn wf(&self) -> bool {
        self.types.wf() && self.struct_type.wf()
    }

    /// The type of each variable or function, by name.
    pub closed spec fn types(&self) -> Map<Seq<char>, ValueType> {
        self.types@
    }

    /// Each struct, by name.
    pub closed spec fn struct_types(&self) -> Map<Seq<char>, SStruct> {
        self.struct_type@.map_values(|s: StructStatement| struct_view(s))
    }

    /// An empty table.
    pub fn new() -> (r: Self)
        ensures
            r.wf(),
            r.types() == Map::<Seq<char>, ValueType>::empty(),
            r.struct_types() == Map::<Seq<char>, SStruct>::empty(),
    {
        let r = TypeTable { types: NameMap::new(), struct_type: NameMap::new() };
        assert(r.struct_types() =~= Map::<Seq<char>, SStruct>::empty());
        r
    }

    /// Records the type of a variable or function.
    pub fn add_variable(&mut self, name: &String, variable_type: &ValueType)
        requires
            old(self).wf(),
        ensures
            final(self).wf(),
            final(self).types() == old(self).types().insert(name@, *variable_type),
            final(self).struct_types() == old(self).struct_types(),
    {
        self.types.insert(name.clone(), variable_type.clone());
    }

    /// Records a struct under its name.
    pub fn add_struct_type(&mut self, struct_statement: &StructStatement)
        requires
            old(self).wf(),
        ensures
            final(self).wf(),
            final(self).types() == old(self).types(),
            final(self).struct_types() == old(self).struct_types().insert(
                struct_statement.struct_name@,
                struct_view(*struct_statement),
            ),
    {
        let s = struct_statement.clone();
        self.struct_type.insert(struct_statement.struct_name.clone(), s);
        assert(self.struct_types() =~= old(self).struct_types().insert(
            struct_statement.struct_name@,
            struct_view(*struct_statement),
        ));
    }

    /// The type of a variable or function.
    pub fn find_variable_type(&self, name: &str) -> (r: Option<ValueType>)
        requires
            self.wf(),
        ensures
            r == (if self.types().contains_key(name@) {
                Some(self.types()[name@])
            } else {
                None
            }),
    {
        let key = name.to_owned();
        match self.types.get(&key) {
            Some(vt) => Some(vt.clone()),
            None => None,
        }
    }

    /// A struct by its name.
    pub fn find_struct_type(&self, struct_name: &str) -> (r: Option<StructStatement>)
        requires
            self.wf(),
        ensures
            match r {
                Some(s) => self.struct_types().contains_key(struct_name@) && struct_view(s)
                    == self.struct_types()[struct_name@],
                None => !self.struct_types().contains_key(struct_name@),
            },
    {
        let key = struct_name.to_owned();
        match self.struct_type.get(&key) {
            Some(st) => Some(st.clone()),
            None => None,
        }
    }
}

impl Clone for TypeTable {
    fn clone(&self) -> (r: Self)
        ensures
            self.wf() ==> r.wf() && r.types() == self.types() && r.struct_types() == self.struct_types(),
    {
        let r = TypeTable { types: self.types.clone(), struct_type: self.struct_type.clone() };
        proof {
            if self.wf() {
                assert(r.types() =~= self.types());
                assert(r.struct_types() =~= self.struct_types());
            }
        }
        r
    }
}

} // verus!
