//! Tokens of the configuration grammar, and the visibility qualifier they
//! carry.
//!
//! The lexer of the host language is an external collaborator: it hands the
//! parser a flat `Vec<Token>`. A token's location is simply its index in that
//! vector, so no location field is stored here.

use vstd::prelude::*;

verus! {

/// A visibility qualifier of the host language, treated as an opaque level:
/// the crate only ever propagates and compares these, never interprets them.
/// `Restricted` carries the restriction path as plain text (`crate`, `super`,
/// `self`, `in some::path`).
#[derive(Debug, Clone, PartialEq, Eq)]
pub enum Visibility {
    /// No qualifier written at all (the host language's innermost default).
    Inherited,
    /// The unrestricted public qualifier.
    Public,
    /// A restricted qualifier, carrying its path text.
    Restricted(String),
}

/// Mathematical model of a [`Visibility`].
#[verifier::ext_equal]
pub ghost enum VisibilityV {
    Inherited,
    Public,
    Restricted(Seq<char>),
}

impl View for Visibility {
    type V = VisibilityV;

    open spec fn view(&self) -> VisibilityV {
        match self {
            Visibility::Inherited => VisibilityV::Inherited,
            Visibility::Public => VisibilityV::Public,
            Visibility::Restricted(p) => VisibilityV::Restricted(p@),
        }
    }
}

impl Visibility {
    /// An owned copy with the same model.
    pub fn dup(&self) -> (r: Visibility)
        ensures
            r@ == self@,
    {
        match self {
            Visibility::Inherited => Visibility::Inherited,
            Visibility::Public => Visibility::Public,
            Visibility::Restricted(p) => Visibility::Restricted(p.clone()),
        }
    }
}

/// One token of the configuration text. Keywords that are reserved words of
/// the host language (`priv`, `pub ...`, `use`) arrive pre-classified; the
/// contextual keywords (`default`, `except`, `file`, `dir`) arrive as plain
/// identifiers and are recognized by the parser, so that the same words can
/// still be used as module names.
#[derive(Debug, Clone, PartialEq, Eq)]
pub enum Token {
    /// An identifier: a module name or a contextual keyword.
    Ident(String),
    /// The dedicated `priv` keyword.
    KwPriv,
    /// The re-export marker `use`.
    KwUse,
    /// An explicit visibility qualifier (`pub`, `pub(crate)`, ...).
    Vis(Visibility),
    /// The statement separator `;`.
    Semi,
    /// The name separator `,`.
    Comma,
    /// The fallback marker `||` of the conditional grammar.
    OrOr,
    /// A string literal (already unescaped by the lexer).
    LitStr(String),
}

/// Mathematical model of a [`Token`].
#[verifier::ext_equal]
pub ghost enum TokenV {
    Ident(Seq<char>),
    KwPriv,
    KwUse,
    Vis(VisibilityV),
    Semi,
    Comma,
    OrOr,
    LitStr(Seq<char>),
}

impl View for Token {
    type V = TokenV;

    open spec fn view(&self) -> TokenV {
        match self {
            Token::Ident(s) => TokenV::Ident(s@),
            Token::KwPriv => TokenV::KwPriv,
            Token::KwUse => TokenV::KwUse,
            Token::Vis(v) => TokenV::Vis(v@),
            Token::Semi => TokenV::Semi,
            Token::Comma => TokenV::Comma,
            Token::OrOr => TokenV::OrOr,
            Token::LitStr(s) => TokenV::LitStr(s@),
        }
    }
}

/// The models of a token sequence.
pub open spec fn toks_v(s: Seq<Token>) -> Seq<TokenV> {
    s.map_values(|t: Token| t@)
}

/// Character-wise string equality, usable where the two sides are not both
/// `String` values (for which the standard `==` is already specified).
pub fn str_eq(a: &str, b: &str) -> (r: bool)
    ensures
        r == (a@ == b@),
{
    let a_len = a.unicode_len();
    let b_len = b.unicode_len();
    if a_len != b_len {
        return false;
    }
    let mut i: usize = 0;
    while i < a_len
        invariant
            i <= a_len,
            a_len == a@.len(),
            b_len == b@.len(),
            a_len == b_len,
            forall|j: int| 0 <= j < i ==> a@[j] == b@[j],
        decreases a_len - i,
    {
        if a.get_char(i) != b.get_char(i) {
            return false;
        }
        i = i + 1;
    }
    proof {
        assert(a@ =~= b@);
    }
    true
}

} // verus!
