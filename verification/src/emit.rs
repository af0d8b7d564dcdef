//! The declaration emitter: the abstract output records, and the rendering of
//! a resolved `(entry, modifier, condition)` triple into one record.

use vstd::prelude::*;

use crate::parse::modifier::{Modifier, ModifierV};
use crate::parse::priv_vis::{opt_vis_v, spec_rendered};
use crate::token::{Visibility, VisibilityV};

verus! {

/// A build-configuration predicate gating one declaration: the surrounding
/// build evaluates `flag = "value"`.
#[derive(Debug, Clone, PartialEq, Eq)]
pub struct FlagCondition {
    /// The flag's name.
    pub flag: String,
    /// The value the flag is compared against (an entry name).
    pub value: String,
}

/// Mathematical model of a [`FlagCondition`].
#[verifier::ext_equal]
pub ghost struct FlagConditionV {
    pub flag: Seq<char>,
    pub value: Seq<char>,
}

impl View for FlagCondition {
    type V = FlagConditionV;

    open spec fn view(&self) -> FlagConditionV {
        FlagConditionV { flag: self.flag@, value: self.value@ }
    }
}

/// The model of an optional condition.
pub open spec fn opt_cond_v(o: Option<FlagCondition>) -> Option<FlagConditionV> {
    match o {
        Some(c) => Some(c@),
        None => None,
    }
}

/// How one entry is declared. `None` as the visibility means that the
/// declaration carries no qualifier (private and inherited render the same
/// way).
#[derive(Debug, Clone, PartialEq, Eq)]
pub enum DeclStyle {
    /// A plain declaration under the given qualifier.
    Plain(Option<Visibility>),
    /// A private declaration plus a re-export of the entry's items under the
    /// given qualifier.
    Reexport(Option<Visibility>),
}

/// Mathematical model of a [`DeclStyle`].
#[verifier::ext_equal]
pub ghost enum DeclStyleV {
    Plain(Option<VisibilityV>),
    Reexport(Option<VisibilityV>),
}

impl View for DeclStyle {
    type V = DeclStyleV;

    open spec fn view(&self) -> DeclStyleV {
        match self {
            DeclStyle::Plain(o) => DeclStyleV::Plain(opt_vis_v(*o)),
            DeclStyle::Reexport(o) => DeclStyleV::Reexport(opt_vis_v(*o)),
        }
    }
}

/// One abstract declaration record: declare the named entry in the given
/// style, optionally gated by a condition.
#[derive(Debug, Clone, PartialEq, Eq)]
pub struct Decl {
    /// The entry's module name.
    pub name: String,
    /// How the entry is declared.
    pub style: DeclStyle,
    /// The gating condition, if the conditional generator produced this.
    pub condition: Option<FlagCondition>,
}

/// Mathematical model of a [`Decl`].
#[verifier::ext_equal]
pub ghost struct DeclV {
    pub name: Seq<char>,
    pub style: DeclStyleV,
    pub condition: Option<FlagConditionV>,
}

impl View for Decl {
    type V = DeclV;

    open spec fn view(&self) -> DeclV {
        DeclV { name: self.name@, style: self.style@, condition: opt_cond_v(self.condition) }
    }
}

/// The models of a declaration list.
pub open spec fn decls_v(s: Seq<Decl>) -> Seq<DeclV> {
    s.map_values(|d: Decl| d@)
}

/// The fallback record of the conditional generator: assert that at least one
/// of the generated conditions held, with the given message otherwise.
#[derive(Debug, Clone, PartialEq, Eq)]
pub struct Guard {
    /// The flag all conditions test.
    pub flag: String,
    /// Every generated entry name, in entry order.
    pub values: Vec<String>,
    /// The failure message.
    pub message: String,
}

/// The models of a string list.
pub open spec fn strs_v(s: Seq<String>) -> Seq<Seq<char>> {
    s.map_values(|x: String| x@)
}

/// Mathematical model of a [`Guard`].
#[verifier::ext_equal]
pub ghost struct GuardV {
    pub flag: Seq<char>,
    pub values: Seq<Seq<char>>,
    pub message: Seq<char>,
}

impl View for Guard {
    type V = GuardV;

    open spec fn view(&self) -> GuardV {
        GuardV { flag: self.flag@, values: strs_v(self.values@), message: self.message@ }
    }
}

/// What the conditional generator returns: one gated declaration per entry,
/// plus the optional fallback record.
#[derive(Debug, Clone, PartialEq, Eq)]
pub struct CfgOutput {
    /// The gated declarations, in entry order.
    pub decls: Vec<Decl>,
    /// The fallback record, where one was requested.
    pub guard: Option<Guard>,
}

/// Mathematical model of a [`CfgOutput`].
#[verifier::ext_equal]
pub ghost struct CfgOutputV {
    pub decls: Seq<DeclV>,
    pub guard: Option<GuardV>,
}

impl View for CfgOutput {
    type V = CfgOutputV;

    open spec fn view(&self) -> CfgOutputV {
        CfgOutputV {
            decls: decls_v(self.decls@),
            guard: match &self.guard {
                Some(g) => Some(g@),
                None => None,
            },
        }
    }
}

/// The record a modifier renders to for one entry: with the re-export marker
/// the entry is declared privately and its items re-exported under the
/// modifier's visibility; without it the declaration itself carries the
/// visibility.
pub open spec fn spec_apply_modifier(
    m: ModifierV,
    name: Seq<char>,
    condition: Option<FlagConditionV>,
) -> DeclV {
    let vis = spec_rendered(m.vis);
    DeclV {
        name,
        style: if m.imports {
            DeclStyleV::Reexport(vis)
        } else {
            DeclStyleV::Plain(vis)
        },
        condition,
    }
}

/// Renders one resolved entry as a declaration record.
pub fn apply_modifier(modifier: &Modifier, name: String, condition: Option<FlagCondition>) -> (r:
    Decl)
    ensures
        r@ == spec_apply_modifier(modifier@, name@, opt_cond_v(condition)),
{
    let vis = modifier.vis.rendered();
    let style = if modifier.imports {
        DeclStyle::Reexport(vis)
    } else {
        DeclStyle::Plain(vis)
    };
    Decl { name, style, condition }
}

/// The names joined by the separator, in order, with nothing around them.
pub open spec fn spec_join(items: Seq<Seq<char>>, sep: Seq<char>) -> Seq<char>
    decreases items.len(),
{
    if items.len() == 0 {
        Seq::empty()
    } else if items.len() == 1 {
        items[0]
    } else {
        spec_join(items.drop_last(), sep) + sep + items.last()
    }
}

/// The synthesized fallback message: the flag name, then every entry name,
/// quoted and comma-separated.
pub open spec fn spec_default_message(flag: Seq<char>, names: Seq<Seq<char>>) -> Seq<char> {
    flag + " must be one of \""@ + spec_join(names, "\", \""@) + "\""@
}

/// The fallback message of a statement's error clause: the custom message
/// where one was written, the synthesized one otherwise.
pub open spec fn spec_clause_message(
    error: Option<Option<Seq<char>>>,
    flag: Seq<char>,
    names: Seq<Seq<char>>,
) -> Seq<char> {
    match error {
        Some(Some(msg)) => msg,
        _ => spec_default_message(flag, names),
    }
}

/// Builds the synthesized fallback message.
pub fn guard_message(flag: &str, names: &Vec<String>) -> (r: String)
    ensures
        r@ == spec_default_message(flag@, strs_v(names@)),
{
    let ghost full = strs_v(names@);
    let mut s = flag.to_owned();
    s.append(" must be one of \"");
    let ghost prefix = flag@ + " must be one of \""@;
    proof {
        assert(s@ == prefix);
        assert(spec_join(full.take(0), "\", \""@) =~= Seq::<char>::empty());
        assert(s@ =~= prefix + spec_join(full.take(0), "\", \""@));
    }
    let mut i: usize = 0;
    while i < names.len()
        invariant
            i <= names@.len(),
            full == strs_v(names@),
            prefix == flag@ + " must be one of \""@,
            s@ == prefix + spec_join(full.take(i as int), "\", \""@),
        decreases names@.len() - i,
    {
        proof {
            assert(full[i as int] == names@[i as int]@);
        }
        if i > 0 {
            s.append("\", \"");
        }
        s.append(names[i].as_str());
        proof {
            let t = full.take(i + 1);
            assert(t.last() == full[i as int]);
            if i == 0 {
                assert(t.len() == 1);
                assert(t[0] == full[0]);
                assert(s@ =~= prefix + spec_join(t, "\", \""@));
            } else {
                assert(t.drop_last() =~= full.take(i as int));
                assert(spec_join(t, "\", \""@) == spec_join(full.take(i as int), "\", \""@)
                    + "\", \""@ + full[i as int]);
                assert(s@ =~= prefix + spec_join(t, "\", \""@));
            }
        }
        i = i + 1;
    }
    s.append("\"");
    proof {
        assert(full.take(names@.len() as int) =~= full);
        assert(s@ =~= spec_default_message(flag@, full));
    }
    s
}

} // verus!
