//! The conditional grammar: a semicolon-delimited list that, by the rules of
//! the conditional generator, may hold at most one statement.

use vstd::prelude::*;

use crate::error::Error;
use crate::parse::arg::{spec_parse_arg_cfg, ArgCfg, ArgCfgV};
use crate::token::{toks_v, Token, TokenV};

verus! {

/// The models of a conditional statement list.
pub open spec fn cfg_args_v(s: Seq<ArgCfg>) -> Seq<ArgCfgV> {
    s.map_values(|a: ArgCfg| a@)
}

/// The parsed statement list of one invocation of the conditional generator.
#[derive(Debug, Clone, PartialEq, Eq)]
pub struct Args(pub Vec<ArgCfg>);

impl View for Args {
    type V = Seq<ArgCfgV>;

    open spec fn view(&self) -> Seq<ArgCfgV> {
        cfg_args_v(self.0@)
    }
}

/// What parsing the conditional statement list from `pos` yields. A statement
/// may be empty, so a stray `;` still produces one statement per segment.
pub open spec fn spec_parse_cfg_args(toks: Seq<TokenV>, pos: int) -> Result<Seq<ArgCfgV>, Error>
    decreases toks.len() - pos,
{
    if pos < 0 || pos >= toks.len() {
        Ok(seq![])
    } else {
        match spec_parse_arg_cfg(toks, pos) {
            Err(e) => Err(e),
            Ok((arg, p)) => if !(pos <= p <= toks.len()) {
                // a statement never moves backwards; this branch only
                // discharges the termination check of the recursion below
                Err(Error::Syntax { loc: pos as usize })
            } else if p == toks.len() {
                Ok(seq![arg])
            } else if toks[p] is Semi {
                match spec_parse_cfg_args(toks, p + 1) {
                    Err(e) => Err(e),
                    Ok(rest) => Ok(seq![arg] + rest),
                }
            } else {
                Err(Error::Syntax { loc: p as usize })
            },
        }
    }
}

/// Parses the conditional statement list from `pos` to the end of the input.
fn parse_cfg_args_from(tokens: &Vec<Token>, pos: usize) -> (r: Result<Vec<ArgCfg>, Error>)
    requires
        pos <= tokens@.len(),
    ensures
        match r {
            Ok(v) => spec_parse_cfg_args(toks_v(tokens@), pos as int) matches Ok(s) && s
                == cfg_args_v(v@),
            Err(e) => spec_parse_cfg_args(toks_v(tokens@), pos as int) matches Err(se) && se == e,
        },
    decreases tokens@.len() - pos,
{
    if pos >= tokens.len() {
        let v: Vec<ArgCfg> = Vec::new();
        proof {
            assert(cfg_args_v(v@) =~= Seq::<ArgCfgV>::empty());
        }
        return Ok(v);
    }
    match ArgCfg::parse(tokens, pos) {
        Err(e) => Err(e),
        Ok((arg, p)) => {
            if p == tokens.len() {
                let ghost argv = arg@;
                let mut v: Vec<ArgCfg> = Vec::new();
                v.push(arg);
                proof {
                    assert(cfg_args_v(v@) =~= seq![argv]);
                }
                Ok(v)
            } else {
                proof {
                    assert(toks_v(tokens@)[p as int] == tokens@[p as int]@);
                }
                if matches!(&tokens[p], Token::Semi) {
                    match parse_cfg_args_from(tokens, p + 1) {
                        Err(e) => Err(e),
                        Ok(mut rest) => {
                            let ghost old_rest = rest@;
                            let ghost argv = arg@;
                            rest.insert(0, arg);
                            proof {
                                assert(cfg_args_v(rest@) =~= seq![argv] + cfg_args_v(old_rest));
                            }
                            Ok(rest)
                        },
                    }
                } else {
                    Err(Error::Syntax { loc: p })
                }
            }
        },
    }
}

impl Args {
    /// Parses a whole configuration of the conditional grammar.
    pub fn parse(tokens: &Vec<Token>) -> (r: Result<Args, Error>)
        ensures
            match r {
                Ok(a) => spec_parse_cfg_args(toks_v(tokens@), 0) matches Ok(s) && s == a@,
                Err(e) => spec_parse_cfg_args(toks_v(tokens@), 0) matches Err(se) && se == e,
            },
    {
        match parse_cfg_args_from(tokens, 0) {
            Ok(v) => Ok(Args(v)),
            Err(e) => Err(e),
        }
    }
}

} // verus!
