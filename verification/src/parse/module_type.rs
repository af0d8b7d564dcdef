//! The optional scope keyword of a `default` statement: `file`, `dir`, or
//! absent (which makes the statement apply to both kinds of entry).

use vstd::prelude::*;

use crate::token::{str_eq, toks_v, Token, TokenV};

verus! {

/// The scope a `default` statement applies to.
#[derive(Debug, Clone, Copy, PartialEq, Eq, Structural)]
pub enum ModuleTypeKw {
    /// Only file entries (`default file ...`).
    File,
    /// Only directory entries (`default dir ...`).
    Dir,
    /// Both kinds (no scope keyword written).
    All,
}

impl ModuleTypeKw {
    /// Whether the scope covers file entries.
    pub open spec fn spec_is_file(self) -> bool {
        self is File || self is All
    }

    /// Whether the scope covers directory entries.
    pub open spec fn spec_is_dir(self) -> bool {
        self is Dir || self is All
    }

    /// Whether the scope covers file entries.
    pub fn is_file(&self) -> (r: bool)
        ensures
            r == self.spec_is_file(),
    {
        matches!(self, ModuleTypeKw::File | ModuleTypeKw::All)
    }

    /// Whether the scope covers directory entries.
    pub fn is_dir(&self) -> (r: bool)
        ensures
            r == self.spec_is_dir(),
    {
        matches!(self, ModuleTypeKw::Dir | ModuleTypeKw::All)
    }
}

/// What parsing a scope keyword at `pos` yields: the scope and the position
/// after it. The keyword is contextual, so a missing or different token
/// simply means `All` and consumes nothing.
pub open spec fn spec_parse_module_type(toks: Seq<TokenV>, pos: int) -> (ModuleTypeKw, int) {
    if pos < toks.len() && (toks[pos] matches TokenV::Ident(t) && t == "file"@) {
        (ModuleTypeKw::File, pos + 1)
    } else if pos < toks.len() && (toks[pos] matches TokenV::Ident(t) && t == "dir"@) {
        (ModuleTypeKw::Dir, pos + 1)
    } else {
        (ModuleTypeKw::All, pos)
    }
}

impl ModuleTypeKw {
    /// Parses the optional scope keyword at `pos`.
    pub fn parse(tokens: &Vec<Token>, pos: usize) -> (r: (ModuleTypeKw, usize))
        requires
            pos <= tokens@.len(),
        ensures
            (r.0, r.1 as int) == spec_parse_module_type(toks_v(tokens@), pos as int),
            pos <= r.1 <= tokens@.len(),
    {
        if pos < tokens.len() {
            proof {
                assert(toks_v(tokens@)[pos as int] == tokens@[pos as int]@);
            }
            match &tokens[pos] {
                Token::Ident(s) => {
                    if str_eq(s.as_str(), "file") {
                        (ModuleTypeKw::File, pos + 1)
                    } else if str_eq(s.as_str(), "dir") {
                        (ModuleTypeKw::Dir, pos + 1)
                    } else {
                        (ModuleTypeKw::All, pos)
                    }
                },
                _ => (ModuleTypeKw::All, pos),
            }
        } else {
            (ModuleTypeKw::All, pos)
        }
    }
}

} // verus!
