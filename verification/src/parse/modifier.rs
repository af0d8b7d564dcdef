//! A modifier: a visibility plus an optional re-export marker.

use vstd::prelude::*;

use crate::parse::priv_vis::{spec_parse_priv_vis, PrivVis, PrivVisV};
use crate::token::{toks_v, Token, TokenV};

verus! {

/// A visibility together with the `use` re-export marker. With the marker the
/// entry stays privately declared and its items are re-exported under the
/// visibility instead.
#[derive(Debug, Clone, PartialEq, Eq)]
pub struct Modifier {
    /// The visibility part.
    pub vis: PrivVis,
    /// Whether the re-export marker was written.
    pub imports: bool,
}

/// Mathematical model of a [`Modifier`].
#[verifier::ext_equal]
pub ghost struct ModifierV {
    pub vis: PrivVisV,
    pub imports: bool,
}

impl View for Modifier {
    type V = ModifierV;

    open spec fn view(&self) -> ModifierV {
        ModifierV { vis: self.vis@, imports: self.imports }
    }
}

/// The built-in modifier used where a statement names none: explicit privacy
/// without re-export.
pub open spec fn spec_builtin_default() -> ModifierV {
    ModifierV { vis: PrivVisV::Priv, imports: false }
}

/// What parsing a modifier at `pos` yields: `[visibility] [use]`, either part
/// optional, so parsing never fails.
pub open spec fn spec_parse_modifier(toks: Seq<TokenV>, pos: int) -> (ModifierV, int) {
    let (vis, p) = spec_parse_priv_vis(toks, pos);
    if p < toks.len() && toks[p] is KwUse {
        (ModifierV { vis, imports: true }, p + 1)
    } else {
        (ModifierV { vis, imports: false }, p)
    }
}

impl Modifier {
    /// Parses a modifier at `pos`.
    pub fn parse(tokens: &Vec<Token>, pos: usize) -> (r: (Modifier, usize))
        requires
            pos <= tokens@.len(),
        ensures
            (r.0@, r.1 as int) == spec_parse_modifier(toks_v(tokens@), pos as int),
            pos <= r.1 <= tokens@.len(),
    {
        let (vis, p) = PrivVis::parse(tokens, pos);
        if p < tokens.len() {
            proof {
                assert(toks_v(tokens@)[p as int] == tokens@[p as int]@);
            }
            if matches!(&tokens[p], Token::KwUse) {
                return (Modifier { vis, imports: true }, p + 1);
            }
        }
        (Modifier { vis, imports: false }, p)
    }

    /// The built-in default for file entries: private, no re-export.
    pub fn default_file() -> (r: Modifier)
        ensures
            r@ == spec_builtin_default(),
    {
        Modifier { vis: PrivVis::Priv, imports: false }
    }

    /// The built-in default for directory entries: private, no re-export.
    pub fn default_dir() -> (r: Modifier)
        ensures
            r@ == spec_builtin_default(),
    {
        Modifier { vis: PrivVis::Priv, imports: false }
    }

    /// The built-in default of the conditional grammar: private, no
    /// re-export.
    pub fn default_cfg() -> (r: Modifier)
        ensures
            r@ == spec_builtin_default(),
    {
        Modifier { vis: PrivVis::Priv, imports: false }
    }

    /// An owned copy with the same model.
    pub fn dup(&self) -> (r: Modifier)
        ensures
            r@ == self@,
    {
        Modifier { vis: self.vis.dup(), imports: self.imports }
    }
}

} // verus!
