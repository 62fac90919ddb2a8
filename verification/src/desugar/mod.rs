pub mod for_desugar;
pub mod import_resolver;

use vstd::prelude::*;
use crate::desugar::for_desugar::{desugared, desugared_stmts, lemma_desugared_stmts, ForDesugar};
use crate::parser::visitors::{Statement, lemma_stmts_view_len, stmt_view, stmts_view};

verus! {

/// Rewrites the `for` loops of a program as `while` loops.
fn desugar_for_loops(stmts: &mut Vec<Statement>)
    ensures
        stmts_view(final(stmts)@) == desugared_stmts(stmts_view(old(stmts)@)),
{
    let mut for_desugar = ForDesugar {};
    proof {
        lemma_stmts_view_len(stmts@);
    }
    let n = stmts.len();
    let ghost orig_stmts = stmts@;
    let ghost orig = stmts_view(orig_stmts);
    let mut i: usize = 0;
    while i < n
        invariant
            n == orig_stmts.len(),
            orig_stmts == old(stmts)@,
            orig == stmts_view(orig_stmts),
            stmts@.len() == n,
            i <= n,
            forall|j: int| i <= j < n ==> #[trigger] stmts@[j] == orig_stmts[j],
            forall|j: int| 0 <= j < i ==> stmt_view(#[trigger] stmts@[j]) == desugared(orig[j]),
        decreases n - i,
    {
        proof {
            lemma_stmts_view_len(orig_stmts);
        }
        let ghost before = stmts@;
        match for_desugar.visit_stmt(&mut stmts[i]) {
            Some(d) => {
                stmts.set(i, d);
            },
            None => {},
        }
        proof {
            assert forall|j: int| 0 <= j < i + 1 implies stmt_view(#[trigger] stmts@[j]) == desugared(orig[j]) by {
                if j < i {
                    assert(stmts@[j] == before[j]);
                }
            }
        }
        i = i + 1;
    }
    proof {
        lemma_stmts_view_len(stmts@);
        lemma_stmts_view_len(orig_stmts);
        lemma_desugared_stmts(orig);
        assert(stmts_view(stmts@) =~= desugared_stmts(orig));
    }
}

/// Rewrites a program into the smaller language that the code generator
/// knows: `for` loops become `while` loops.
pub fn desugar_ast(stmts: &mut Vec<Statement>)
    ensures
        stmts_view(final(stmts)@) == desugared_stmts(stmts_view(old(stmts)@)),
{
    desugar_for_loops(stmts);
}

} // verus!
