use vstd::prelude::*;
use crate::parser::ast_clone::{clone_function, clone_stmt};
use crate::parser::visitors::{
    FunctionStatement, Loc, SStmt, Statement, StructStatement, clone_fields, lemma_stmts_view_len, lemma_stmts_view_push,
    stmt_view, stmts_view,
};

verus! {

/// The functions that a module exports, in order, as declarations (without
/// body, not exported again) located in the file `file` that imports them.
pub open spec fn exported_functions(stmts: Seq<SStmt>, file: Seq<char>) -> Seq<SStmt>
    decreases stmts.len(),
{
    if stmts.len() == 0 {
        Seq::empty()
    } else {
        let rest = exported_functions(stmts.drop_last(), file);
        match stmts.last() {
            SStmt::Function { callee, args, return_type, exported, loc, .. } => if exported {
                rest.push(
                    SStmt::Function {
                        callee,
                        args,
                        block: None,
                        return_type,
                        exported: false,
                        loc: Loc { line: loc.line, column: loc.column, file },
                    },
                )
            } else {
                rest
            },
            _ => rest,
        }
    }
}

/// The structs that a module exports, in order.
pub open spec fn exported_structs(stmts: Seq<SStmt>) -> Seq<SStmt>
    decreases stmts.len(),
{
    if stmts.len() == 0 {
        Seq::empty()
    } else {
        let rest = exported_structs(stmts.drop_last());
        match stmts.last() {
            SStmt::Struct { exported, .. } => if exported {
                rest.push(stmts.last())
            } else {
                rest
            },
            _ => rest,
        }
    }
}

/// The statements that are not imports, in order.
pub open spec fn without_imports(stmts: Seq<SStmt>) -> Seq<SStmt>
    decreases stmts.len(),
{
    if stmts.len() == 0 {
        Seq::empty()
    } else {
        let rest = without_imports(stmts.drop_last());
        if stmts.last() is Import {
            rest
        } else {
            rest.push(stmts.last())
        }
    }
}

/// Once imports are resolved, no `import` statement is left.
pub proof fn law_no_import_left(stmts: Seq<SStmt>)
    ensures
        forall|i: int| 0 <= i < without_imports(stmts).len() ==> !(#[trigger] without_imports(stmts)[i] is Import),
    decreases stmts.len(),
{
    if stmts.len() > 0 {
        law_no_import_left(stmts.drop_last());
    }
}

/// What a module exports as functions are declarations: no body, not
/// exported again, located in the importing file.
pub proof fn law_imported_functions_are_declarations(stmts: Seq<SStmt>, file: Seq<char>)
    ensures
        forall|i: int|
            0 <= i < exported_functions(stmts, file).len() ==> {
                let f = #[trigger] exported_functions(stmts, file)[i];
                &&& f is Function
                &&& f->Function_block is None
                &&& !f->Function_exported
                &&& f->Function_loc.file == file
            },
    decreases stmts.len(),
{
    if stmts.len() > 0 {
        law_imported_functions_are_declarations(stmts.drop_last(), file);
    }
}

/// The structs that a module exports are exactly its structs marked `export`,
/// unchanged and in their order: a struct that is not exported is never
/// imported.
pub proof fn law_imported_structs_are_the_exported_ones(stmts: Seq<SStmt>)
    ensures
        exported_structs(stmts) == stmts.filter(|s: SStmt| s is Struct && s->Struct_exported),
        forall|i: int|
            0 <= i < exported_structs(stmts).len() ==> {
                let s = #[trigger] exported_structs(stmts)[i];
                s is Struct && s->Struct_exported && stmts.contains(s)
            },
        forall|i: int|
            0 <= i < stmts.len() && #[trigger] stmts[i] is Struct && stmts[i]->Struct_exported
                ==> exported_structs(stmts).contains(stmts[i]),
    decreases stmts.len(),
{
    let pred = |s: SStmt| s is Struct && s->Struct_exported;
    reveal_with_fuel(Seq::filter, 1);
    if stmts.len() > 0 {
        let init = stmts.drop_last();
        law_imported_structs_are_the_exported_ones(init);
        assert(exported_structs(stmts) == stmts.filter(pred));
        assert forall|i: int|
            0 <= i < exported_structs(stmts).len() implies {
                let s = #[trigger] exported_structs(stmts)[i];
                s is Struct && s->Struct_exported && stmts.contains(s)
            } by {
            let s = exported_structs(stmts)[i];
            if i < exported_structs(init).len() {
                assert(s == exported_structs(init)[i]);
                let w = choose|w: int| 0 <= w < init.len() && init[w] == s;
                assert(stmts[w] == s);
            } else {
                assert(s == stmts[stmts.len() - 1]);
            }
        }
        assert forall|i: int|
            0 <= i < stmts.len() && #[trigger] stmts[i] is Struct && stmts[i]->Struct_exported
            implies exported_structs(stmts).contains(stmts[i]) by {
            if i < stmts.len() - 1 {
                assert(init[i] == stmts[i]);
                let w = choose|w: int|
                    0 <= w < exported_structs(init).len() && exported_structs(init)[w] == init[i];
                assert(exported_structs(stmts)[w] == stmts[i]);
            } else {
                let n = exported_structs(init).len() as int;
                assert(exported_structs(stmts)[n] == stmts[i]);
            }
        }
    } else {
        assert(exported_structs(stmts) =~= stmts.filter(pred));
    }
}

/// The declarations that a module exports stand, one for one and in order,
/// for its functions marked `export`, with their name, arguments, return type
/// and position.
pub proof fn law_imported_functions_are_the_exported_ones(stmts: Seq<SStmt>, file: Seq<char>)
    ensures
        exported_functions(stmts, file).len() == stmts.filter(
            |s: SStmt| s is Function && s->Function_exported,
        ).len(),
        forall|i: int|
            0 <= i < exported_functions(stmts, file).len() ==> {
                let d = #[trigger] exported_functions(stmts, file)[i];
                let f = stmts.filter(|s: SStmt| s is Function && s->Function_exported)[i];
                &&& d->Function_callee == f->Function_callee
                &&& d->Function_args == f->Function_args
                &&& d->Function_return_type == f->Function_return_type
                &&& d->Function_loc.line == f->Function_loc.line
                &&& d->Function_loc.column == f->Function_loc.column
            },
    decreases stmts.len(),
{
    let pred = |s: SStmt| s is Function && s->Function_exported;
    reveal_with_fuel(Seq::filter, 1);
    if stmts.len() > 0 {
        let init = stmts.drop_last();
        law_imported_functions_are_the_exported_ones(init, file);
        assert forall|i: int|
            0 <= i < exported_functions(stmts, file).len() implies {
                let d = #[trigger] exported_functions(stmts, file)[i];
                let f = stmts.filter(pred)[i];
                &&& d->Function_callee == f->Function_callee
                &&& d->Function_args == f->Function_args
                &&& d->Function_return_type == f->Function_return_type
                &&& d->Function_loc.line == f->Function_loc.line
                &&& d->Function_loc.column == f->Function_loc.column
            } by {
            if i < exported_functions(init, file).len() {
                assert(exported_functions(stmts, file)[i] == exported_functions(init, file)[i]);
                assert(stmts.filter(pred)[i] == init.filter(pred)[i]);
            }
        }
    }
}

/// Gathers what imported modules export, so that a module can be checked and
/// compiled on its own: their exported functions become declarations, their
/// exported structs are copied.
pub struct ImportResolver {
    declared_functions: Vec<FunctionStatement>,
    declared_structs: Vec<StructStatement>,
}

impl ImportResolver {
    /// The declarations gathered so far, in order.
    pub closed spec fn functions(&self) -> Seq<SStmt> {
        self.declared_functions@.map_values(|f: FunctionStatement| stmt_view(Statement::Function(f)))
    }

    /// The structs gathered so far, in order.
    pub closed spec fn structs(&self) -> Seq<SStmt> {
        self.declared_structs@.map_values(|s: StructStatement| stmt_view(Statement::Struct(s)))
    }

    /// A resolver that has gathered nothing.
    pub fn new() -> (r: Self)
        ensures
            r.functions() == Seq::<SStmt>::empty(),
            r.structs() == Seq::<SStmt>::empty(),
    {
        let r = ImportResolver { declared_functions: Vec::new(), declared_structs: Vec::new() };
        assert(r.functions() =~= Seq::<SStmt>::empty());
        assert(r.structs() =~= Seq::<SStmt>::empty());
        r
    }

    /// Gathers what the module `stmts`, imported by the file `file_name`,
    /// exports.
    pub fn resolve_module(&mut self, stmts: Vec<Statement>, file_name: &str)
        ensures
            final(self).functions() == old(self).functions() + exported_functions(stmts_view(stmts@), file_name@),
            final(self).structs() == old(self).structs() + exported_structs(stmts_view(stmts@)),
    {
        proof {
            lemma_stmts_view_len(stmts@);
        }
        let ghost v = stmts_view(stmts@);
        let mut i: usize = 0;
        assert(v.subrange(0, 0) =~= Seq::<SStmt>::empty());
        assert(old(self).functions() + Seq::<SStmt>::empty() =~= old(self).functions());
        assert(old(self).structs() + Seq::<SStmt>::empty() =~= old(self).structs());
        while i < stmts.len()
            invariant
                v == stmts_view(stmts@),
                v.len() == stmts@.len(),
                forall|j: int| 0 <= j < stmts@.len() ==> v[j] == stmt_view(#[trigger] stmts@[j]),
                i <= stmts@.len(),
                self.functions() == old(self).functions() + exported_functions(v.subrange(0, i as int), file_name@),
                self.structs() == old(self).structs() + exported_structs(v.subrange(0, i as int)),
            decreases stmts@.len() - i,
        {
            let ghost f0 = self.functions();
            let ghost s0 = self.structs();
            let ghost sub = v.subrange(0, i + 1);
            assert(sub.drop_last() =~= v.subrange(0, i as int));
            assert(sub.last() == v[i as int]);
            match &stmts[i] {
                Statement::Function(f) => {
                    if f.is_exported {
                        let declaration = FunctionStatement {
                            callee: f.callee.clone(),
                            args: match &f.args {
                                Some(a) => Some(clone_fields(a)),
                                None => None,
                            },
                            block: None,
                            return_type: f.return_type.clone(),
                            is_exported: false,
                            line: f.line,
                            column: f.column,
                            filename: file_name.to_owned(),
                        };
                        self.declared_functions.push(declaration);
                        proof {
                            assert(self.functions() =~= f0.push(stmt_view(Statement::Function(declaration))));
                        }
                    }
                },
                Statement::Struct(s) => {
                    if s.exported {
                        let c = s.clone();
                        self.declared_structs.push(c);
                        proof {
                            assert(self.structs() =~= s0.push(stmt_view(Statement::Struct(c))));
                        }
                    }
                },
                _ => {},
            }
            proof {
                assert(self.functions() =~= old(self).functions() + exported_functions(sub, file_name@));
                assert(self.structs() =~= old(self).structs() + exported_structs(sub));
            }
            i = i + 1;
        }
        assert(v.subrange(0, stmts@.len() as int) =~= v);
    }

    /// The program `stmts` with what was gathered put first: the declared
    /// functions, then the structs, then the statements of `stmts` that are
    /// not imports.
    pub fn resolved(&self, stmts: &Vec<Statement>) -> (r: Vec<Statement>)
        ensures
            stmts_view(r@) == self.functions() + self.structs() + without_imports(stmts_view(stmts@)),
    {
        let mut result: Vec<Statement> = Vec::new();
        let mut i: usize = 0;
        assert(stmts_view(result@) =~= Seq::<SStmt>::empty());
        assert(self.functions().subrange(0, 0) =~= Seq::<SStmt>::empty());
        while i < self.declared_functions.len()
            invariant
                i <= self.declared_functions@.len(),
                stmts_view(result@) == self.functions().subrange(0, i as int),
            decreases self.declared_functions@.len() - i,
        {
            let f = clone_function(&self.declared_functions[i]);
            proof {
                lemma_stmts_view_push(result@, Statement::Function(f));
                assert(self.functions().subrange(0, i + 1) =~= self.functions().subrange(0, i as int).push(
                    stmt_view(Statement::Function(f)),
                ));
            }
            result.push(Statement::Function(f));
            i = i + 1;
        }
        let ghost fs = stmts_view(result@);
        assert(fs =~= self.functions());
        let mut i: usize = 0;
        assert(fs + self.structs().subrange(0, 0) =~= fs);
        while i < self.declared_structs.len()
            invariant
                i <= self.declared_structs@.len(),
                fs == self.functions(),
                stmts_view(result@) == fs + self.structs().subrange(0, i as int),
            decreases self.declared_structs@.len() - i,
        {
            let s = self.declared_structs[i].clone();
            proof {
                lemma_stmts_view_push(result@, Statement::Struct(s));
                assert(fs + self.structs().subrange(0, i + 1) =~= (fs + self.structs().subrange(0, i as int)).push(
                    stmt_view(Statement::Struct(s)),
                ));
            }
            result.push(Statement::Struct(s));
            i = i + 1;
        }
        let ghost fss = stmts_view(result@);
        assert(fss =~= self.functions() + self.structs());
        proof {
            lemma_stmts_view_len(stmts@);
        }
        let ghost v = stmts_view(stmts@);
        let mut i: usize = 0;
        assert(v.subrange(0, 0) =~= Seq::<SStmt>::empty());
        assert(fss + Seq::<SStmt>::empty() =~= fss);
        while i < stmts.len()
            invariant
                v == stmts_view(stmts@),
                v.len() == stmts@.len(),
                forall|j: int| 0 <= j < stmts@.len() ==> v[j] == stmt_view(#[trigger] stmts@[j]),
                i <= stmts@.len(),
                fss == self.functions() + self.structs(),
                stmts_view(result@) == fss + without_imports(v.subrange(0, i as int)),
            decreases stmts@.len() - i,
        {
            let ghost sub = v.subrange(0, i + 1);
            assert(sub.drop_last() =~= v.subrange(0, i as int));
            assert(sub.last() == v[i as int]);
            if !matches!(stmts[i], Statement::Import(_)) {
                let c = clone_stmt(&stmts[i]);
                proof {
                    lemma_stmts_view_push(result@, c);
                    assert(fss + without_imports(sub) =~= (fss + without_imports(v.subrange(0, i as int))).push(v[i as int]));
                }
                result.push(c);
            }
            i = i + 1;
        }
        assert(v.subrange(0, stmts@.len() as int) =~= v);
        result
    }
}

} // verus!
