//! The leading visibility of a modifier: either the dedicated `priv` keyword
//! or a host-language visibility qualifier (possibly absent).

use vstd::prelude::*;

use crate::token::{toks_v, Token, TokenV, Visibility, VisibilityV};

verus! {

/// Either explicit privacy (`priv`) or a host-language visibility.
#[derive(Debug, Clone, PartialEq, Eq)]
pub enum PrivVis {
    /// The dedicated `priv` keyword.
    Priv,
    /// A visibility qualifier, `Inherited` where none was written.
    Vis(Visibility),
}

/// Mathematical model of a [`PrivVis`].
#[verifier::ext_equal]
pub ghost enum PrivVisV {
    Priv,
    Vis(VisibilityV),
}

impl View for PrivVis {
    type V = PrivVisV;

    open spec fn view(&self) -> PrivVisV {
        match self {
            PrivVis::Priv => PrivVisV::Priv,
            PrivVis::Vis(v) => PrivVisV::Vis(v@),
        }
    }
}

/// What parsing a visibility at `pos` yields. A missing qualifier parses as
/// `Vis(Inherited)` and consumes nothing; parsing never fails.
pub open spec fn spec_parse_priv_vis(toks: Seq<TokenV>, pos: int) -> (PrivVisV, int) {
    if pos < toks.len() {
        match toks[pos] {
            TokenV::KwPriv => (PrivVisV::Priv, pos + 1),
            TokenV::Vis(v) => (PrivVisV::Vis(v), pos + 1),
            _ => (PrivVisV::Vis(VisibilityV::Inherited), pos),
        }
    } else {
        (PrivVisV::Vis(VisibilityV::Inherited), pos)
    }
}

/// What a visibility renders to on a declaration: `None` stands for "no
/// qualifier written", which is how both `priv` and an inherited visibility
/// appear in output.
pub open spec fn spec_rendered(v: PrivVisV) -> Option<VisibilityV> {
    match v {
        PrivVisV::Priv => None,
        PrivVisV::Vis(VisibilityV::Inherited) => None,
        PrivVisV::Vis(x) => Some(x),
    }
}

/// The model of an optional visibility.
pub open spec fn opt_vis_v(o: Option<Visibility>) -> Option<VisibilityV> {
    match o {
        Some(v) => Some(v@),
        None => None,
    }
}

impl PrivVis {
    /// Parses the leading visibility of a modifier at `pos`.
    pub fn parse(tokens: &Vec<Token>, pos: usize) -> (r: (PrivVis, usize))
        requires
            pos <= tokens@.len(),
        ensures
            (r.0@, r.1 as int) == spec_parse_priv_vis(toks_v(tokens@), pos as int),
            pos <= r.1 <= tokens@.len(),
    {
        if pos < tokens.len() {
            proof {
                assert(toks_v(tokens@)[pos as int] == tokens@[pos as int]@);
            }
            match &tokens[pos] {
                Token::KwPriv => (PrivVis::Priv, pos + 1),
                Token::Vis(v) => (PrivVis::Vis(v.dup()), pos + 1),
                _ => (PrivVis::Vis(Visibility::Inherited), pos),
            }
        } else {
            (PrivVis::Vis(Visibility::Inherited), pos)
        }
    }

    /// The qualifier this visibility renders to, `None` meaning that the
    /// declaration carries no qualifier at all.
    pub fn rendered(&self) -> (r: Option<Visibility>)
        ensures
            opt_vis_v(r) == spec_rendered(self@),
    {
        match self {
            PrivVis::Priv => None,
            PrivVis::Vis(Visibility::Inherited) => None,
            PrivVis::Vis(v) => Some(v.dup()),
        }
    }

    /// An owned copy with the same model.
    pub fn dup(&self) -> (r: PrivVis)
        ensures
            r@ == self@,
    {
        match self {
            PrivVis::Priv => PrivVis::Priv,
            PrivVis::Vis(v) => PrivVis::Vis(v.dup()),
        }
    }
}

} // verus!
