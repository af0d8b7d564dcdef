//! The unconditional grammar: a semicolon-delimited list of statements, each
//! a default visibility, a special visibility, or an exclusion.

use vstd::prelude::*;

use crate::error::Error;
use crate::parse::arg::{
    parse_names, spec_parse_names, ArgDefaultVis, ArgDefaultVisV, ArgExcept, ArgExceptV,
    ArgSpecialVis, ArgSpecialVisV,
};
use crate::parse::modifier::{spec_parse_modifier, Modifier};
use crate::parse::module_type::{spec_parse_module_type, ModuleTypeKw};
use crate::token::{str_eq, toks_v, Token, TokenV};

verus! {

/// One statement of the unconditional grammar.
#[derive(Debug, Clone, PartialEq, Eq)]
pub enum Arg {
    /// `default [file|dir] <modifier>`.
    DefaultVis(ArgDefaultVis),
    /// `<modifier> <name>, ...`.
    SpecialVis(ArgSpecialVis),
    /// `except <name>, ...`.
    Except(ArgExcept),
}

/// Mathematical model of an [`Arg`].
#[verifier::ext_equal]
pub ghost enum ArgV {
    DefaultVis(ArgDefaultVisV),
    SpecialVis(ArgSpecialVisV),
    Except(ArgExceptV),
}

impl View for Arg {
    type V = ArgV;

    open spec fn view(&self) -> ArgV {
        match self {
            Arg::DefaultVis(a) => ArgV::DefaultVis(a@),
            Arg::SpecialVis(a) => ArgV::SpecialVis(a@),
            Arg::Except(a) => ArgV::Except(a@),
        }
    }
}

/// The models of a statement list.
pub open spec fn args_v(s: Seq<Arg>) -> Seq<ArgV> {
    s.map_values(|a: Arg| a@)
}

/// The parsed statement list of one invocation of the unconditional
/// generator.
#[derive(Debug, Clone, PartialEq, Eq)]
pub struct Args(pub Vec<Arg>);

impl View for Args {
    type V = Seq<ArgV>;

    open spec fn view(&self) -> Seq<ArgV> {
        args_v(self.0@)
    }
}

/// What parsing one statement at `pos` yields. The leading token decides the
/// variant: the contextual keyword `default`, a visibility or `priv`, or the
/// contextual keyword `except`; anything else is a syntax error at `pos`.
pub open spec fn spec_parse_arg(toks: Seq<TokenV>, pos: int) -> Result<(ArgV, int), Error> {
    if !(0 <= pos < toks.len()) {
        Err(Error::Syntax { loc: pos as usize })
    } else if toks[pos] matches TokenV::Ident(t) && t == "default"@ {
        let (mt, p1) = spec_parse_module_type(toks, pos + 1);
        let (m, p2) = spec_parse_modifier(toks, p1);
        Ok((ArgV::DefaultVis(ArgDefaultVisV { loc: pos, module_type: mt, modifier: m }), p2))
    } else if toks[pos] is KwPriv || toks[pos] is Vis {
        let (m, p1) = spec_parse_modifier(toks, pos);
        match spec_parse_names(toks, p1) {
            Ok((ids, p2)) => Ok(
                (ArgV::SpecialVis(ArgSpecialVisV { loc: pos, modifier: m, idents: ids }), p2),
            ),
            Err(e) => Err(e),
        }
    } else if toks[pos] matches TokenV::Ident(t) && t == "except"@ {
        match spec_parse_names(toks, pos + 1) {
            Ok((ids, p)) => Ok((ArgV::Except(ArgExceptV { loc: pos, idents: ids }), p)),
            Err(e) => Err(e),
        }
    } else {
        Err(Error::Syntax { loc: pos as usize })
    }
}

/// What parsing the whole statement list from `pos` yields: statements
/// separated by `;`, with an optional trailing `;`, until the end of the
/// input. An empty input is an empty list.
pub open spec fn spec_parse_args(toks: Seq<TokenV>, pos: int) -> Result<Seq<ArgV>, Error>
    decreases toks.len() - pos,
{
    if pos < 0 || pos >= toks.len() {
        Ok(seq![])
    } else {
        match spec_parse_arg(toks, pos) {
            Err(e) => Err(e),
            Ok((arg, p)) => if !(pos < p <= toks.len()) {
                // a statement always advances; this branch only discharges
                // the termination check of the recursion below
                Err(Error::Syntax { loc: pos as usize })
            } else if p == toks.len() {
                Ok(seq![arg])
            } else if toks[p] is Semi {
                match spec_parse_args(toks, p + 1) {
                    Err(e) => Err(e),
                    Ok(rest) => Ok(seq![arg] + rest),
                }
            } else {
                Err(Error::Syntax { loc: p as usize })
            },
        }
    }
}

impl Arg {
    /// Parses one statement at `pos`.
    pub fn parse(tokens: &Vec<Token>, pos: usize) -> (r: Result<(Arg, usize), Error>)
        requires
            pos <= tokens@.len(),
        ensures
            match r {
                Ok(v) => {
                    &&& spec_parse_arg(toks_v(tokens@), pos as int) matches Ok(s)
                    &&& s.0 == v.0@
                    &&& s.1 == v.1 as int
                    &&& pos < v.1 <= tokens@.len()
                },
                Err(e) => spec_parse_arg(toks_v(tokens@), pos as int) matches Err(se) && se == e,
            },
    {
        if pos >= tokens.len() {
            return Err(Error::Syntax { loc: pos });
        }
        proof {
            assert(toks_v(tokens@)[pos as int] == tokens@[pos as int]@);
        }
        let (is_default, is_except, is_special) = match &tokens[pos] {
            Token::Ident(s) => (str_eq(s.as_str(), "default"), str_eq(s.as_str(), "except"), false),
            Token::KwPriv => (false, false, true),
            Token::Vis(_) => (false, false, true),
            _ => (false, false, false),
        };
        if is_default {
            let (mt, p1) = ModuleTypeKw::parse(tokens, pos + 1);
            let (m, p2) = Modifier::parse(tokens, p1);
            Ok((Arg::DefaultVis(ArgDefaultVis { loc: pos, module_type: mt, modifier: m }), p2))
        } else if is_special {
            let (m, p1) = Modifier::parse(tokens, pos);
            match parse_names(tokens, p1) {
                Ok((ids, p2)) => Ok(
                    (Arg::SpecialVis(ArgSpecialVis { loc: pos, modifier: m, idents: ids }), p2),
                ),
                Err(e) => Err(e),
            }
        } else if is_except {
            match parse_names(tokens, pos + 1) {
                Ok((ids, p)) => Ok((Arg::Except(ArgExcept { loc: pos, idents: ids }), p)),
                Err(e) => Err(e),
            }
        } else {
            Err(Error::Syntax { loc: pos })
        }
    }
}

/// Parses the statement list from `pos` to the end of the input.
fn parse_args_from(tokens: &Vec<Token>, pos: usize) -> (r: Result<Vec<Arg>, Error>)
    requires
        pos <= tokens@.len(),
    ensures
        match r {
            Ok(v) => spec_parse_args(toks_v(tokens@), pos as int) matches Ok(s) && s == args_v(
                v@,
            ),
            Err(e) => spec_parse_args(toks_v(tokens@), pos as int) matches Err(se) && se == e,
        },
    decreases tokens@.len() - pos,
{
    if pos >= tokens.len() {
        let v: Vec<Arg> = Vec::new();
        proof {
            assert(args_v(v@) =~= Seq::<ArgV>::empty());
        }
        return Ok(v);
    }
    match Arg::parse(tokens, pos) {
        Err(e) => Err(e),
        Ok((arg, p)) => {
            if p == tokens.len() {
                let ghost argv = arg@;
                let mut v: Vec<Arg> = Vec::new();
                v.push(arg);
                proof {
                    assert(args_v(v@) =~= seq![argv]);
                }
                Ok(v)
            } else {
                proof {
                    assert(toks_v(tokens@)[p as int] == tokens@[p as int]@);
                }
                if matches!(&tokens[p], Token::Semi) {
                    match parse_args_from(tokens, p + 1) {
                        Err(e) => Err(e),
                        Ok(mut rest) => {
                            let ghost old_rest = rest@;
                            let ghost argv = arg@;
                            rest.insert(0, arg);
                            proof {
                                assert(args_v(rest@) =~= seq![argv] + args_v(old_rest));
                            }
                            Ok(rest)
                        },
                    }
                } else {
                    Err(Error::Syntax { loc: p })
                }
            }
        },
    }
}

impl Args {
    /// Parses a whole configuration of the unconditional grammar.
    pub fn parse(tokens: &Vec<Token>) -> (r: Result<Args, Error>)
        ensures
            match r {
                Ok(a) => spec_parse_args(toks_v(tokens@), 0) matches Ok(s) && s == a@,
                Err(e) => spec_parse_args(toks_v(tokens@), 0) matches Err(se) && se == e,
            },
    {
        match parse_args_from(tokens, 0) {
            Ok(v) => Ok(Args(v)),
            Err(e) => Err(e),
        }
    }
}

} // verus!
