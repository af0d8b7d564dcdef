//! The generators: `all` (the unconditional one) and `cfg` with its three
//! flag-specific fronts `os`, `family` and `feature`.

use vstd::prelude::*;

use crate::emit::{
    apply_modifier, decls_v, spec_apply_modifier, spec_clause_message, spec_default_message,
    strs_v, CfgOutput, CfgOutputV, Decl, DeclV, FlagCondition, FlagConditionV, Guard, GuardV,
};
use crate::entries::{entries_v, Entry, EntryV};
use crate::error::Error;
use crate::parse::all::{spec_parse_args, Args};
use crate::parse::cfg;
use crate::parse::modifier::{spec_builtin_default, Modifier, ModifierV};
use crate::resolve::{resolve_args, spec_resolve};
use crate::token::{toks_v, Token, TokenV};

verus! {

/// What the unconditional generator returns for a token sequence and an entry
/// list: the parsed statements resolved against the entries.
pub open spec fn spec_all(toks: Seq<TokenV>, entries: Seq<EntryV>) -> Result<Seq<DeclV>, Error> {
    match spec_parse_args(toks, 0) {
        Err(e) => Err(e),
        Ok(args) => spec_resolve(args, entries),
    }
}

/// Includes every entry, each under its resolved modifier, excluded entries
/// dropped: one unconditional declaration record per remaining entry, in
/// entry order.
pub fn all(tokens: &Vec<Token>, entries: &Vec<Entry>) -> (r: Result<Vec<Decl>, Error>)
    ensures
        match r {
            Ok(ds) => spec_all(toks_v(tokens@), entries_v(entries@)) matches Ok(s) && s == decls_v(
                ds@,
            ),
            Err(e) => spec_all(toks_v(tokens@), entries_v(entries@)) matches Err(se) && se == e,
        },
{
    let args = match Args::parse(tokens) {
        Ok(a) => a,
        Err(e) => {
            return Err(e);
        },
    };
    resolve_args(&args.0, entries)
}

/// The names of the entries, in entry order.
pub open spec fn spec_entry_names(entries: Seq<EntryV>) -> Seq<Seq<char>> {
    entries.map_values(|e: EntryV| e.name)
}

/// The gated declarations of the conditional generator: one per entry, each
/// carrying the condition `flag = name` and the single modifier.
pub open spec fn spec_cfg_decls(m: ModifierV, entries: Seq<EntryV>, flag: Seq<char>) -> Seq<DeclV>
    decreases entries.len(),
{
    if entries.len() == 0 {
        seq![]
    } else {
        spec_cfg_decls(m, entries.drop_last(), flag).push(
            spec_apply_modifier(
                m,
                entries.last().name,
                Some(FlagConditionV { flag, value: entries.last().name }),
            ),
        )
    }
}

/// What the conditional generator returns: the single statement's modifier
/// (or the built-in default) applied to every entry under a flag condition,
/// plus the fallback record where one was requested. A second statement is
/// an error at its first token.
pub open spec fn spec_cfg(toks: Seq<TokenV>, entries: Seq<EntryV>, flag: Seq<char>) -> Result<
    CfgOutputV,
    Error,
> {
    match crate::parse::cfg::spec_parse_cfg_args(toks, 0) {
        Err(e) => Err(e),
        Ok(cargs) => if cargs.len() >= 2 {
            Err(Error::RepeatedStatement { loc: cargs[1].loc as usize })
        } else {
            let m = if cargs.len() == 1 {
                cargs[0].modifier
            } else {
                spec_builtin_default()
            };
            let guard = if cargs.len() == 1 && cargs[0].error is Some {
                Some(
                    GuardV {
                        flag,
                        values: spec_entry_names(entries),
                        message: spec_clause_message(
                            cargs[0].error,
                            flag,
                            spec_entry_names(entries),
                        ),
                    },
                )
            } else {
                None
            };
            Ok(CfgOutputV { decls: spec_cfg_decls(m, entries, flag), guard })
        },
    }
}

/// Gates every entry behind `flag = <entry name>` under the configured
/// modifier, and appends the optional fallback record.
pub fn cfg(tokens: &Vec<Token>, entries: &Vec<Entry>, flag: &str) -> (r: Result<CfgOutput, Error>)
    ensures
        match r {
            Ok(out) => spec_cfg(toks_v(tokens@), entries_v(entries@), flag@) matches Ok(s) && out@
                == s,
            Err(e) => spec_cfg(toks_v(tokens@), entries_v(entries@), flag@) matches Err(se) && se
                == e,
        },
{
    let ghost ev = entries_v(entries@);
    let cargs = match cfg::Args::parse(tokens) {
        Ok(a) => a.0,
        Err(e) => {
            return Err(e);
        },
    };
    proof {
        if cargs@.len() >= 2 {
            assert(crate::parse::cfg::cfg_args_v(cargs@)[1] == cargs@[1]@);
        }
        if cargs@.len() >= 1 {
            assert(crate::parse::cfg::cfg_args_v(cargs@)[0] == cargs@[0]@);
        }
    }
    if cargs.len() >= 2 {
        return Err(Error::RepeatedStatement { loc: cargs[1].loc });
    }
    let m = if cargs.len() == 1 {
        cargs[0].modifier.dup()
    } else {
        Modifier::default_cfg()
    };
    let mut names: Vec<String> = Vec::new();
    proof {
        assert(strs_v(names@) =~= spec_entry_names(ev.take(0)));
    }
    let mut k: usize = 0;
    while k < entries.len()
        invariant
            k <= entries@.len(),
            ev == entries_v(entries@),
            strs_v(names@) == spec_entry_names(ev.take(k as int)),
        decreases entries@.len() - k,
    {
        proof {
            assert(ev[k as int] == entries@[k as int]@);
        }
        let ghost before = names@;
        names.push(entries[k].name.clone());
        proof {
            assert(strs_v(names@) =~= strs_v(before).push(ev[k as int].name));
            assert(spec_entry_names(ev.take(k + 1)) =~= spec_entry_names(ev.take(k as int)).push(
                ev[k as int].name,
            ));
        }
        k = k + 1;
    }
    proof {
        assert(ev.take(entries@.len() as int) =~= ev);
    }
    let mut decls: Vec<Decl> = Vec::new();
    proof {
        assert(decls_v(decls@) =~= spec_cfg_decls(m@, ev.take(0), flag@));
    }
    let mut k: usize = 0;
    while k < entries.len()
        invariant
            k <= entries@.len(),
            ev == entries_v(entries@),
            m@ == if crate::parse::cfg::cfg_args_v(cargs@).len() == 1 {
                crate::parse::cfg::cfg_args_v(cargs@)[0].modifier
            } else {
                spec_builtin_default()
            },
            decls_v(decls@) == spec_cfg_decls(m@, ev.take(k as int), flag@),
        decreases entries@.len() - k,
    {
        proof {
            assert(ev[k as int] == entries@[k as int]@);
            assert(ev.take(k + 1).drop_last() =~= ev.take(k as int));
            assert(ev.take(k + 1).last() == ev[k as int]);
        }
        let e = &entries[k];
        let cond = FlagCondition { flag: flag.to_owned(), value: e.name.clone() };
        let d = apply_modifier(&m, e.name.clone(), Some(cond));
        let ghost before = decls@;
        let ghost dv = d@;
        decls.push(d);
        proof {
            assert(decls_v(decls@) =~= decls_v(before).push(dv));
        }
        k = k + 1;
    }
    proof {
        assert(ev.take(entries@.len() as int) =~= ev);
    }
    let guard = if cargs.len() == 1 && cargs[0].error.is_some() {
        let message = match &cargs[0].error {
            Some(Some(msg)) => msg.clone(),
            _ => crate::emit::guard_message(flag, &names),
        };
        Some(Guard { flag: flag.to_owned(), values: names, message })
    } else {
        None
    };
    Ok(CfgOutput { decls, guard })
}

/// Gates every entry behind the operating-system flag.
pub fn os(tokens: &Vec<Token>, entries: &Vec<Entry>) -> (r: Result<CfgOutput, Error>)
    ensures
        match r {
            Ok(out) => spec_cfg(toks_v(tokens@), entries_v(entries@), "target_os"@) matches Ok(s)
                && out@ == s,
            Err(e) => spec_cfg(toks_v(tokens@), entries_v(entries@), "target_os"@) matches Err(se)
                && se == e,
        },
{
    cfg(tokens, entries, "target_os")
}

/// Gates every entry behind the platform-family flag.
pub fn family(tokens: &Vec<Token>, entries: &Vec<Entry>) -> (r: Result<CfgOutput, Error>)
    ensures
        match r {
            Ok(out) => spec_cfg(toks_v(tokens@), entries_v(entries@), "target_family"@) matches Ok(
                s,
            ) && out@ == s,
            Err(e) => spec_cfg(toks_v(tokens@), entries_v(entries@), "target_family"@) matches Err(
                se,
            ) && se == e,
        },
{
    cfg(tokens, entries, "target_family")
}

/// Gates every entry behind the feature flag.
pub fn feature(tokens: &Vec<Token>, entries: &Vec<Entry>) -> (r: Result<CfgOutput, Error>)
    ensures
        match r {
            Ok(out) => spec_cfg(toks_v(tokens@), entries_v(entries@), "feature"@) matches Ok(s)
                && out@ == s,
            Err(e) => spec_cfg(toks_v(tokens@), entries_v(entries@), "feature"@) matches Err(se)
                && se == e,
        },
{
    cfg(tokens, entries, "feature")
}

} // verus!
