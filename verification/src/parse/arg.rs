//! The statements of the configuration grammar, and the parsers for their
//! shared pieces: comma-separated name lists and the conditional statement.

use vstd::prelude::*;

use crate::error::Error;
use crate::parse::modifier::{spec_parse_modifier, Modifier, ModifierV};
use crate::parse::module_type::ModuleTypeKw;
use crate::token::{toks_v, Token, TokenV};

verus! {

/// A module name from the configuration text, with the index of its token.
#[derive(Debug, Clone, PartialEq, Eq)]
pub struct Name {
    /// The name itself.
    pub text: String,
    /// The index of the name's token.
    pub loc: usize,
}

/// Mathematical model of a [`Name`].
#[verifier::ext_equal]
pub ghost struct NameV {
    pub text: Seq<char>,
    pub loc: int,
}

impl View for Name {
    type V = NameV;

    open spec fn view(&self) -> NameV {
        NameV { text: self.text@, loc: self.loc as int }
    }
}

/// The models of a name list.
pub open spec fn names_v(s: Seq<Name>) -> Seq<NameV> {
    s.map_values(|n: Name| n@)
}

/// A `default [file|dir] <modifier>` statement.
#[derive(Debug, Clone, PartialEq, Eq)]
pub struct ArgDefaultVis {
    /// The index of the statement's leading token.
    pub loc: usize,
    /// Which entry kinds the statement applies to.
    pub module_type: ModuleTypeKw,
    /// The default modifier it sets.
    pub modifier: Modifier,
}

/// Mathematical model of an [`ArgDefaultVis`].
#[verifier::ext_equal]
pub ghost struct ArgDefaultVisV {
    pub loc: int,
    pub module_type: ModuleTypeKw,
    pub modifier: ModifierV,
}

impl View for ArgDefaultVis {
    type V = ArgDefaultVisV;

    open spec fn view(&self) -> ArgDefaultVisV {
        ArgDefaultVisV {
            loc: self.loc as int,
            module_type: self.module_type,
            modifier: self.modifier@,
        }
    }
}

/// A `<modifier> <name>, <name>, ...` statement: the named entries get this
/// modifier instead of the default.
#[derive(Debug, Clone, PartialEq, Eq)]
pub struct ArgSpecialVis {
    /// The index of the statement's leading token.
    pub loc: usize,
    /// The modifier the named entries get.
    pub modifier: Modifier,
    /// The names, in statement order.
    pub idents: Vec<Name>,
}

/// Mathematical model of an [`ArgSpecialVis`].
#[verifier::ext_equal]
pub ghost struct ArgSpecialVisV {
    pub loc: int,
    pub modifier: ModifierV,
    pub idents: Seq<NameV>,
}

impl View for ArgSpecialVis {
    type V = ArgSpecialVisV;

    open spec fn view(&self) -> ArgSpecialVisV {
        ArgSpecialVisV {
            loc: self.loc as int,
            modifier: self.modifier@,
            idents: names_v(self.idents@),
        }
    }
}

/// An `except <name>, <name>, ...` statement: the named entries are dropped
/// from the output entirely.
#[derive(Debug, Clone, PartialEq, Eq)]
pub struct ArgExcept {
    /// The index of the statement's leading token.
    pub loc: usize,
    /// The names, in statement order.
    pub idents: Vec<Name>,
}

/// Mathematical model of an [`ArgExcept`].
#[verifier::ext_equal]
pub ghost struct ArgExceptV {
    pub loc: int,
    pub idents: Seq<NameV>,
}

impl View for ArgExcept {
    type V = ArgExceptV;

    open spec fn view(&self) -> ArgExceptV {
        ArgExceptV { loc: self.loc as int, idents: names_v(self.idents@) }
    }
}

/// The single statement of the conditional grammar: a modifier, optionally
/// followed by the fallback marker and an optional custom message.
#[derive(Debug, Clone, PartialEq, Eq)]
pub struct ArgCfg {
    /// The index of the statement's leading token.
    pub loc: usize,
    /// The modifier every gated declaration gets.
    pub modifier: Modifier,
    /// `None`: no fallback requested; `Some(None)`: fallback with the
    /// synthesized message; `Some(Some(m))`: fallback with custom message `m`.
    pub error: Option<Option<String>>,
}

/// Mathematical model of an [`ArgCfg`].
#[verifier::ext_equal]
pub ghost struct ArgCfgV {
    pub loc: int,
    pub modifier: ModifierV,
    pub error: Option<Option<Seq<char>>>,
}

/// The model of an optional custom message.
pub open spec fn opt_msg_v(o: Option<Option<String>>) -> Option<Option<Seq<char>>> {
    match o {
        None => None,
        Some(None) => Some(None),
        Some(Some(s)) => Some(Some(s@)),
    }
}

impl View for ArgCfg {
    type V = ArgCfgV;

    open spec fn view(&self) -> ArgCfgV {
        ArgCfgV {
            loc: self.loc as int,
            modifier: self.modifier@,
            error: opt_msg_v(self.error),
        }
    }
}

/// What parsing a name list at `pos` yields: one or more identifiers
/// separated by commas, with an optional trailing comma, ending before a `;`
/// or at the end of the input. An empty list is a syntax error.
pub open spec fn spec_parse_names(toks: Seq<TokenV>, pos: int) -> Result<(Seq<NameV>, int), Error>
    decreases toks.len() - pos,
{
    if !(0 <= pos < toks.len()) {
        Err(Error::Syntax { loc: pos as usize })
    } else {
        match toks[pos] {
            TokenV::Ident(t) => {
                let name = NameV { text: t, loc: pos };
                if pos + 1 < toks.len() && toks[pos + 1] is Comma {
                    if pos + 2 >= toks.len() || toks[pos + 2] is Semi {
                        Ok((seq![name], pos + 2))
                    } else {
                        match spec_parse_names(toks, pos + 2) {
                            Ok((rest, p)) => Ok((seq![name] + rest, p)),
                            Err(e) => Err(e),
                        }
                    }
                } else {
                    Ok((seq![name], pos + 1))
                }
            },
            _ => Err(Error::Syntax { loc: pos as usize }),
        }
    }
}

/// Parses a name list at `pos`.
pub fn parse_names(tokens: &Vec<Token>, pos: usize) -> (r: Result<(Vec<Name>, usize), Error>)
    requires
        pos <= tokens@.len(),
    ensures
        match r {
            Ok(v) => {
                &&& spec_parse_names(toks_v(tokens@), pos as int) matches Ok(s)
                &&& s.0 == names_v(v.0@)
                &&& s.1 == v.1 as int
                &&& pos < v.1 <= tokens@.len()
            },
            Err(e) => spec_parse_names(toks_v(tokens@), pos as int) matches Err(se) && se == e,
        },
    decreases tokens@.len() - pos,
{
    if pos >= tokens.len() {
        return Err(Error::Syntax { loc: pos });
    }
    proof {
        assert(toks_v(tokens@)[pos as int] == tokens@[pos as int]@);
    }
    match &tokens[pos] {
        Token::Ident(s) => {
            let name = Name { text: s.clone(), loc: pos };
            proof {
                if pos + 1 < tokens@.len() {
                    assert(toks_v(tokens@)[pos + 1] == tokens@[pos + 1]@);
                }
                if pos + 2 < tokens@.len() {
                    assert(toks_v(tokens@)[pos + 2] == tokens@[pos + 2]@);
                }
            }
            if pos + 1 < tokens.len() && matches!(&tokens[pos + 1], Token::Comma) {
                if pos + 2 >= tokens.len() || matches!(&tokens[pos + 2], Token::Semi) {
                    let mut v: Vec<Name> = Vec::new();
                    let ghost namev = name@;
                    v.push(name);
                    proof {
                        assert(names_v(v@) =~= seq![namev]);
                    }
                    Ok((v, pos + 2))
                } else {
                    match parse_names(tokens, pos + 2) {
                        Ok((mut rest, p)) => {
                            let ghost old_rest = rest@;
                            let ghost namev = name@;
                            rest.insert(0, name);
                            proof {
                                assert(names_v(rest@) =~= seq![namev] + names_v(old_rest));
                            }
                            Ok((rest, p))
                        },
                        Err(e) => Err(e),
                    }
                }
            } else {
                let mut v: Vec<Name> = Vec::new();
                let ghost namev = name@;
                v.push(name);
                proof {
                    assert(names_v(v@) =~= seq![namev]);
                }
                Ok((v, pos + 1))
            }
        },
        _ => Err(Error::Syntax { loc: pos }),
    }
}

/// What parsing a conditional statement at `pos` yields: a modifier,
/// optionally followed by `||` and an optional string literal. The statement
/// may be empty; only a non-literal token after `||` fails.
pub open spec fn spec_parse_arg_cfg(toks: Seq<TokenV>, pos: int) -> Result<(ArgCfgV, int), Error> {
    let (m, p) = spec_parse_modifier(toks, pos);
    if p < toks.len() && toks[p] is OrOr {
        if p + 1 >= toks.len() {
            Ok((ArgCfgV { loc: pos, modifier: m, error: Some(None) }, p + 1))
        } else {
            match toks[p + 1] {
                TokenV::LitStr(s) => Ok(
                    (ArgCfgV { loc: pos, modifier: m, error: Some(Some(s)) }, p + 2),
                ),
                _ => Err(Error::Syntax { loc: (p + 1) as usize }),
            }
        }
    } else {
        Ok((ArgCfgV { loc: pos, modifier: m, error: None }, p))
    }
}

impl ArgCfg {
    /// Parses a conditional statement at `pos`.
    pub fn parse(tokens: &Vec<Token>, pos: usize) -> (r: Result<(ArgCfg, usize), Error>)
        requires
            pos <= tokens@.len(),
        ensures
            match r {
                Ok(v) => {
                    &&& spec_parse_arg_cfg(toks_v(tokens@), pos as int) matches Ok(s)
                    &&& s.0 == v.0@
                    &&& s.1 == v.1 as int
                    &&& pos <= v.1 <= tokens@.len()
                },
                Err(e) => spec_parse_arg_cfg(toks_v(tokens@), pos as int) matches Err(se) && se
                    == e,
            },
    {
        let (m, p) = Modifier::parse(tokens, pos);
        proof {
            if p < tokens@.len() {
                assert(toks_v(tokens@)[p as int] == tokens@[p as int]@);
            }
            if p + 1 < tokens@.len() {
                assert(toks_v(tokens@)[p + 1] == tokens@[p + 1]@);
            }
        }
        if p < tokens.len() && matches!(&tokens[p], Token::OrOr) {
            if p + 1 >= tokens.len() {
                Ok((ArgCfg { loc: pos, modifier: m, error: Some(None) }, p + 1))
            } else {
                match &tokens[p + 1] {
                    Token::LitStr(s) => Ok(
                        (
                            ArgCfg { loc: pos, modifier: m, error: Some(Some(s.clone())) },
                            p + 2,
                        ),
                    ),
                    _ => Err(Error::Syntax { loc: p + 1 }),
                }
            }
        } else {
            Ok((ArgCfg { loc: pos, modifier: m, error: None }, p))
        }
    }

    /// The index of the statement's leading token.
    pub fn span(&self) -> (l: usize)
        ensures
            l as int == self@.loc,
    {
        self.loc
    }
}

impl ArgDefaultVis {
    /// The index of the statement's leading token.
    pub fn span(&self) -> (l: usize)
        ensures
            l as int == self@.loc,
    {
        self.loc
    }
}

impl ArgSpecialVis {
    /// The index of the statement's leading token.
    pub fn span(&self) -> (l: usize)
        ensures
            l as int == self@.loc,
    {
        self.loc
    }
}

impl ArgExcept {
    /// The index of the statement's leading token.
    pub fn span(&self) -> (l: usize)
        ensures
            l as int == self@.loc,
    {
        self.loc
    }
}

} // verus!
