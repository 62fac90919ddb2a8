use vstd::prelude::*;
use crate::lexer::{LogosToken, Token, token_eq};
use crate::parser::grammar::{PRes, PState, Src, located};
use crate::text::{push_str, push_decimal};

verus! {

/// A recursive-descent parser over lexed tokens. Error messages are collected
/// in `diagnostics`, in the order the parser reports them.
pub struct Parser {
    pub lexer: Vec<Token>,
    pub module_file: String,
    pub current_token: usize,
    pub diagnostics: Vec<String>,
}

impl Parser {
    /// The tokens and the module path.
    pub open spec fn src(&self) -> Src {
        Src { toks: self.lexer@, path: self.module_file }
    }

    /// The current token index and the messages reported so far.
    pub open spec fn pstate(&self) -> PState {
        PState { pos: self.current_token as int, msgs: self.diagnostics@.map_values(|m: String| m@) }
    }

    pub open spec fn wf(&self) -> bool {
        self.current_token <= self.lexer.len()
    }

    /// # Arguments
    /// - lexer: the tokens (usually produced by the lexer)
    /// - module_file: path of the current module, used in messages, in the
    ///   tree's positions and by import statements
    pub fn new(lexer: Vec<Token>, module_file: &str) -> (r: Self)
        ensures
            r.wf(),
            r.lexer@ == lexer@,
            r.module_file@ == module_file@,
            r.current_token == 0,
            r.diagnostics@.len() == 0,
    {
        Parser { lexer, module_file: module_file.to_string(), current_token: 0, diagnostics: Vec::new() }
    }

    pub fn is_at_the_end(&self) -> (r: bool)
        ensures
            r == self.src().end(self.current_token as int),
    {
        if self.current_token >= self.lexer.len() {
            true
        } else {
            self.lexer[self.current_token].logos_tk == LogosToken::EndOfFile
        }
    }

    pub fn check(&self, token: &LogosToken) -> (r: bool)
        ensures
            r == self.src().check(self.current_token as int, *token),
    {
        !self.is_at_the_end() && self.lexer[self.current_token].logos_tk == *token
    }

    pub fn peek(&self) -> (r: Option<&LogosToken>)
        ensures
            match r {
                Some(t) => !self.src().end(self.current_token as int) && *t == self.src().tok(
                    self.current_token as int,
                ),
                None => self.src().end(self.current_token as int),
            },
    {
        if self.is_at_the_end() {
            return None;
        }
        Some(&self.lexer[self.current_token].logos_tk)
    }

    /// Moves to the next token unless at the end; returns the index of the
    /// token before the new position.
    pub fn advance_index(&mut self) -> (k: usize)
        requires
            old(self).wf(),
            old(self).src().advanced(old(self).current_token as int) >= 1,
        ensures
            final(self).wf(),
            final(self).lexer == old(self).lexer,
            final(self).module_file == old(self).module_file,
            final(self).diagnostics == old(self).diagnostics,
            final(self).current_token == old(self).src().advanced(old(self).current_token as int),
            k == final(self).current_token - 1,
    {
        if !self.is_at_the_end() {
            self.current_token = self.current_token + 1;
        }
        self.current_token - 1
    }

    /// Moves to the next token unless at the end; returns the token before
    /// the new position.
    pub fn advance(&mut self) -> (r: Option<&LogosToken>)
        requires
            old(self).wf(),
            old(self).src().advanced(old(self).current_token as int) >= 1,
        ensures
            final(self).wf(),
            final(self).lexer == old(self).lexer,
            final(self).module_file == old(self).module_file,
            final(self).diagnostics == old(self).diagnostics,
            final(self).current_token == old(self).src().advanced(old(self).current_token as int),
            r == Some(&final(self).lexer@[final(self).current_token - 1].logos_tk),
    {
        let k = self.advance_index();
        Some(&self.lexer[k].logos_tk)
    }

    pub fn previous(&self) -> (r: Option<&LogosToken>)
        requires
            1 <= self.current_token <= self.lexer.len(),
        ensures
            r == Some(&self.lexer@[self.current_token - 1].logos_tk),
    {
        Some(&self.lexer[self.current_token - 1].logos_tk)
    }

    /// The token used for positions: the current one, or the last one at the end.
    pub fn peek_token_with_info_debug(&self) -> (r: &Token)
        requires
            self.wf(),
            self.src().info(self.current_token as int) is Some,
        ensures
            self.src().info(self.current_token as int) == Some((r.line_number, r.column_number)),
    {
        if self.is_at_the_end() {
            &self.lexer[self.current_token - 1]
        } else {
            &self.lexer[self.current_token]
        }
    }

    pub fn get_current_token_postion(&self) -> (r: (usize, usize))
        requires
            self.wf(),
            self.src().info(self.current_token as int) is Some,
        ensures
            self.src().info(self.current_token as int) == Some(r),
    {
        let tk = self.peek_token_with_info_debug();
        (tk.line_number, tk.column_number)
    }

    fn report(&mut self, msg: String)
        ensures
            final(self).lexer == old(self).lexer,
            final(self).module_file == old(self).module_file,
            final(self).current_token == old(self).current_token,
            final(self).pstate() == old(self).pstate().say(msg@),
    {
        let ghost before = self.diagnostics@;
        self.diagnostics.push(msg);
        proof {
            assert(self.diagnostics@.map_values(|m: String| m@) =~= before.map_values(|m: String| m@).push(
                msg@,
            ));
        }
    }

    fn located_message(&self, line: usize, column: usize, msg: &str) -> (r: String)
        ensures
            r@ == located(self.module_file@, line, column, msg@),
    {
        let mut s = self.module_file.clone();
        push_str(&mut s, ":");
        push_decimal(&mut s, line as u64);
        push_str(&mut s, ":");
        push_decimal(&mut s, column as u64);
        push_str(&mut s, " Error: ");
        push_str(&mut s, msg);
        s
    }

    /// Takes the current token if it compares equal to `token` and returns
    /// its index; otherwise reports `error_message`.
    pub fn consume_index(&mut self, token: &LogosToken, error_message: &str) -> (r: Option<usize>)
        requires
            old(self).wf(),
        ensures
            final(self).wf(),
            final(self).lexer == old(self).lexer,
            final(self).module_file == old(self).module_file,
            match old(self).src().consume(old(self).pstate(), *token, error_message@) {
                PRes::Done(k, s) => r == Some(k as usize) && final(self).pstate() == s,
                PRes::Failed(s) => r is None && final(self).pstate() == s,
                PRes::Stuck => false,
            },
    {
        if !self.check(token) {
            let msg = if !self.is_at_the_end() {
                let current_tk = &self.lexer[self.current_token];
                self.located_message(current_tk.line_number, current_tk.column_number, error_message)
            } else {
                let mut s = self.module_file.clone();
                push_str(&mut s, ": Error: ");
                push_str(&mut s, error_message);
                s
            };
            self.report(msg);
            return None;
        }
        Some(self.advance_index())
    }

    /// Takes the current token if it compares equal to `token`; otherwise
    /// reports `error_message`.
    pub fn consume(&mut self, token: &LogosToken, error_message: &str) -> (r: Option<&LogosToken>)
        requires
            old(self).wf(),
        ensures
            final(self).wf(),
            final(self).lexer == old(self).lexer,
            final(self).module_file == old(self).module_file,
            match old(self).src().consume(old(self).pstate(), *token, error_message@) {
                PRes::Done(k, s) => r == Some(&final(self).lexer@[k].logos_tk) && final(self).pstate() == s,
                PRes::Failed(s) => r is None && final(self).pstate() == s,
                PRes::Stuck => false,
            },
    {
        match self.consume_index(token, error_message) {
            Some(k) => Some(&self.lexer[k].logos_tk),
            None => None,
        }
    }

    /// Reports `error_message` at the current token (the last one at the end).
    pub fn put_error_at_current_token(&mut self, error_message: &str)
        requires
            old(self).wf(),
            old(self).src().info(old(self).current_token as int) is Some,
        ensures
            final(self).wf(),
            final(self).lexer == old(self).lexer,
            final(self).module_file == old(self).module_file,
            old(self).src().put_error(old(self).pstate(), error_message@) == PRes::Done((), final(self).pstate()),
    {
        let (line, column) = self.get_current_token_postion();
        let msg = self.located_message(line, column, error_message);
        self.report(msg);
    }

    /// Takes the current token if it compares equal to one of `token_types`.
    pub fn match_expr(&mut self, token_types: &[LogosToken]) -> (r: bool)
        requires
            old(self).wf(),
        ensures
            final(self).wf(),
            final(self).lexer == old(self).lexer,
            final(self).module_file == old(self).module_file,
            final(self).diagnostics == old(self).diagnostics,
            r == exists|i: int| 0 <= i < token_types@.len() && old(self).src().check(
                old(self).current_token as int,
                #[trigger] token_types@[i],
            ),
            r ==> final(self).current_token == old(self).current_token + 1,
            !r ==> final(self).current_token == old(self).current_token,
    {
        let mut i: usize = 0;
        while i < token_types.len()
            invariant
                self == old(self),
                i <= token_types@.len(),
                forall|j: int| 0 <= j < i ==> !old(self).src().check(old(self).current_token as int, #[trigger] token_types@[j]),
            decreases token_types.len() - i,
        {
            if self.check(&token_types[i]) {
                self.advance_index();
                return true;
            }
            i = i + 1;
        }
        false
    }

    /// Takes the current token if it compares equal to `token` and returns it.
    pub fn expect(&mut self, token: &LogosToken) -> (r: Option<&LogosToken>)
        requires
            old(self).wf(),
        ensures
            final(self).wf(),
            final(self).lexer == old(self).lexer,
            final(self).module_file == old(self).module_file,
            final(self).diagnostics == old(self).diagnostics,
            old(self).src().check(old(self).current_token as int, *token) ==> {
                &&& final(self).current_token == old(self).current_token + 1
                &&& r == Some(&old(self).lexer@[old(self).current_token as int].logos_tk)
            },
            !old(self).src().check(old(self).current_token as int, *token) ==> {
                &&& final(self).current_token == old(self).current_token
                &&& r is None
            },
    {
        if self.is_at_the_end() {
            return None;
        }
        if self.lexer[self.current_token].logos_tk == *token {
            self.advance()
        } else {
            None
        }
    }

    /// Takes the current token if it compares equal to one of `tokens` and
    /// returns it.
    pub fn expect_tokens(&mut self, tokens: &[LogosToken]) -> (r: Option<&LogosToken>)
        requires
            old(self).wf(),
        ensures
            final(self).wf(),
            final(self).lexer == old(self).lexer,
            final(self).module_file == old(self).module_file,
            final(self).diagnostics == old(self).diagnostics,
            (exists|i: int| 0 <= i < tokens@.len() && old(self).src().check(
                old(self).current_token as int,
                #[trigger] tokens@[i],
            )) ==> {
                &&& final(self).current_token == old(self).current_token + 1
                &&& r == Some(&old(self).lexer@[old(self).current_token as int].logos_tk)
            },
            !(exists|i: int| 0 <= i < tokens@.len() && old(self).src().check(
                old(self).current_token as int,
                #[trigger] tokens@[i],
            )) ==> {
                &&& final(self).current_token == old(self).current_token
                &&& r is None
            },
    {
        if self.is_at_the_end() {
            return None;
        }
        let mut i: usize = 0;
        while i < tokens.len()
            invariant
                self == old(self),
                !self.src().end(self.current_token as int),
                i <= tokens@.len(),
                forall|j: int| 0 <= j < i ==> !old(self).src().check(old(self).current_token as int, #[trigger] tokens@[j]),
            decreases tokens.len() - i,
        {
            if self.lexer[self.current_token].logos_tk == tokens[i] {
                return self.advance();
            }
            i = i + 1;
        }
        None
    }
}

} // verus!
