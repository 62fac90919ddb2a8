use vstd::prelude::*;
use crate::lexer::LogosToken;
use crate::parser::grammar::{PRes, PState, Src, token_text};
use crate::parser::parser::Parser;
use crate::value_type::{StaticArray, ValueType};

verus! {

/// `r` and the state `after` are what `spec` describes, for a type.
pub open spec fn type_outcome(spec: PRes<ValueType>, r: Result<ValueType, ()>, after: PState) -> bool {
    match spec {
        PRes::Done(t, s) => r == Ok::<ValueType, ()>(t) && after == s,
        PRes::Failed(s) => r is Err && after == s,
        PRes::Stuck => false,
    }
}

impl Parser {
    /// Parses a type.
    pub fn parse_type(&mut self) -> (r: Result<ValueType, ()>)
        requires
            old(self).wf(),
            exists|f: nat| !(#[trigger] old(self).src().value_type(old(self).pstate(), f) is Stuck),
        ensures
            final(self).wf(),
            final(self).lexer == old(self).lexer,
            final(self).module_file == old(self).module_file,
            type_outcome(
                old(self).src().value_type(
                    old(self).pstate(),
                    choose|f: nat| !(#[trigger] old(self).src().value_type(old(self).pstate(), f) is Stuck),
                ),
                r,
                final(self).pstate(),
            ),
    {
        let ghost f = choose|f: nat| !(#[trigger] old(self).src().value_type(old(self).pstate(), f) is Stuck);
        self.value_type(Ghost(f))
    }

    pub fn value_type(&mut self, Ghost(fuel): Ghost<nat>) -> (r: Result<ValueType, ()>)
        requires
            old(self).wf(),
            !(old(self).src().value_type(old(self).pstate(), fuel) is Stuck),
        ensures
            final(self).wf(),
            final(self).lexer == old(self).lexer,
            final(self).module_file == old(self).module_file,
            type_outcome(old(self).src().value_type(old(self).pstate(), fuel), r, final(self).pstate()),
        decreases fuel,
    {
        proof {
            reveal_with_fuel(Src::value_type, 1);
        }
        let ghost f = (fuel - 1) as nat;
        if self.match_expr(&[LogosToken::LeftBracket]) {
            let array_type = self.value_type(Ghost(f))?;
            if let None = self.consume_index(&LogosToken::Semicolon, "Expected ';' after array type.") {
                return Err(());
            }
            let k = match self.consume_index(&LogosToken::Number(0), "Expected constant number size") {
                Some(k) => k,
                None => return Err(()),
            };
            let size: usize = match &self.lexer[k].logos_tk {
                LogosToken::Number(n) => *n as usize,
                _ => 0,
            };
            if let None = self.consume_index(&LogosToken::RightBracket, "Unclosed ']' after array size.") {
                return Err(());
            }
            Ok(ValueType::Array(StaticArray { size, array_type: Box::new(array_type) }))
        } else {
            let k = self.advance_index();
            let what: u8 = match &self.lexer[k].logos_tk {
                LogosToken::Type(t) => return Ok(t.clone()),
                LogosToken::Identifier(name) => return Ok(ValueType::Struct(name.clone())),
                LogosToken::Pointer => 1,
                _ => 2,
            };
            if what == 1 {
                let inner_type = self.value_type(Ghost(f))?;
                Ok(ValueType::Pointer(Box::new(inner_type)))
            } else {
                let msg = String::from_str("Expected type hints.");
                let ghost before = self.diagnostics@;
                self.diagnostics.push(msg);
                proof {
                    assert(self.diagnostics@.map_values(|m: String| m@) =~= before.map_values(|m: String| m@).push(
                        "Expected type hints."@,
                    ));
                }
                Err(())
            }
        }
    }
}

} // verus!
