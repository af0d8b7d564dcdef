//! The general laws of the library, each stated over the spec functions that
//! the public contracts use and proved once and for all.

use vstd::prelude::*;

use crate::emit::{spec_apply_modifier, spec_default_message, spec_join, DeclV, FlagConditionV};
use crate::entries::EntryV;
use crate::error::Error;
use crate::parse::all::ArgV;
use crate::parse::modifier::ModifierV;
use crate::resolve::{
    lemma_resolve_entries_prefix_err, spec_default_dir, spec_default_dir_from, spec_default_file,
    spec_default_file_from,
    spec_entry_conflict, spec_excluded_count, spec_find_sv, spec_find_sv_from, spec_first_dup,
    spec_first_dup_from, spec_is_excepted, spec_modifier_for, spec_out_index, spec_resolve,
    spec_resolve_entries, spec_stmt_bindings, spec_sv_bindings, SvBindingV,
};
use crate::token::TokenV;

verus! {

/// The excluded-entry count lies between zero and the entry count.
pub proof fn lemma_excluded_count_bounds(args: Seq<ArgV>, entries: Seq<EntryV>)
    ensures
        0 <= spec_excluded_count(args, entries) <= entries.len(),
    decreases entries.len(),
{
    if entries.len() > 0 {
        lemma_excluded_count_bounds(args, entries.drop_last());
    }
}

/// With no per-entry conflict, resolution over the entries succeeds, one
/// record per entry that is not excluded, each record sitting at the entry's
/// output position and carrying the entry's effective modifier.
pub proof fn lemma_resolve_entries_ok(args: Seq<ArgV>, entries: Seq<EntryV>)
    requires
        forall|i: int| 0 <= i < entries.len() ==> !spec_entry_conflict(args, #[trigger] entries[i]),
    ensures
        spec_resolve_entries(args, entries) matches Ok(ds) && {
            &&& ds.len() == entries.len() - spec_excluded_count(args, entries)
            &&& forall|k: int|
                0 <= k < entries.len() && !spec_is_excepted(args, (#[trigger] entries[k]).name)
                    ==> 0 <= spec_out_index(args, entries, k) < ds.len() && ds[spec_out_index(
                    args,
                    entries,
                    k,
                )] == spec_apply_modifier(
                    spec_modifier_for(args, entries[k]),
                    entries[k].name,
                    None,
                )
        },
    decreases entries.len(),
{
    lemma_excluded_count_bounds(args, entries);
    if entries.len() == 0 {
    } else {
        let prefix = entries.drop_last();
        assert(forall|i: int|
            0 <= i < prefix.len() ==> !spec_entry_conflict(args, #[trigger] prefix[i]));
        lemma_resolve_entries_ok(args, prefix);
        let ds0 = spec_resolve_entries(args, prefix)->Ok_0;
        let last = entries.last();
        let ds = spec_resolve_entries(args, entries)->Ok_0;
        assert forall|k: int|
            0 <= k < entries.len() && !spec_is_excepted(
                args,
                (#[trigger] entries[k]).name,
            ) implies 0 <= spec_out_index(args, entries, k) < ds.len() && ds[spec_out_index(
            args,
            entries,
            k,
        )] == spec_apply_modifier(
            spec_modifier_for(args, entries[k]),
            entries[k].name,
            None,
        ) by {
            lemma_excluded_count_bounds(args, entries.take(k));
            if k < entries.len() - 1 {
                assert(prefix[k] == entries[k]);
                assert(prefix.take(k) =~= entries.take(k));
                assert(0 <= spec_out_index(args, prefix, k) < ds0.len());
                assert(spec_out_index(args, prefix, k) == spec_out_index(args, entries, k));
            } else {
                assert(entries.take(k) =~= prefix);
                assert(spec_out_index(args, entries, k) == ds0.len());
            }
        }
    }
}

/// With some conflicting entry, resolution over the entries fails with the
/// excluded-but-special error.
pub proof fn lemma_resolve_entries_err(args: Seq<ArgV>, entries: Seq<EntryV>)
    requires
        exists|k: int| 0 <= k < entries.len() && spec_entry_conflict(args, #[trigger] entries[k]),
    ensures
        spec_resolve_entries(args, entries) matches Err(e) && e matches Error::SpecialButExcluded {
            ..
        },
    decreases entries.len(),
{
    let k = choose|k: int| 0 <= k < entries.len() && spec_entry_conflict(args, #[trigger] entries[k]);
    let prefix = entries.drop_last();
    if exists|x: int| 0 <= x < prefix.len() && spec_entry_conflict(args, #[trigger] entries[x]) {
        let x = choose|x: int|
            0 <= x < prefix.len() && spec_entry_conflict(args, #[trigger] entries[x]);
        assert(prefix[x] == entries[x]);
        lemma_resolve_entries_err(args, prefix);
    } else {
        assert(k == entries.len() - 1);
        assert(forall|i: int|
            0 <= i < prefix.len() ==> !spec_entry_conflict(args, #[trigger] prefix[i]));
        lemma_resolve_entries_ok(args, prefix);
    }
}

/// Law: for statements and entries with no conflicts, resolution succeeds and
/// the number of resolved records is the entry count less the count of
/// excluded entries.
pub proof fn lemma_resolved_count(args: Seq<ArgV>, entries: Seq<EntryV>)
    requires
        spec_first_dup(spec_sv_bindings(args)) is None,
        forall|i: int| 0 <= i < entries.len() ==> !spec_entry_conflict(args, #[trigger] entries[i]),
    ensures
        spec_resolve(args, entries) matches Ok(ds) && ds.len() == entries.len()
            - spec_excluded_count(args, entries),
{
    lemma_resolve_entries_ok(args, entries);
}

/// The bindings of a concatenation are the concatenated bindings.
pub proof fn lemma_sv_bindings_concat(a: Seq<ArgV>, b: Seq<ArgV>)
    ensures
        spec_sv_bindings(a + b) == spec_sv_bindings(a) + spec_sv_bindings(b),
    decreases b.len(),
{
    if b.len() == 0 {
        assert(a + b =~= a);
        assert(spec_sv_bindings(a) + spec_sv_bindings(b) =~= spec_sv_bindings(a));
    } else {
        assert((a + b).drop_last() =~= a + b.drop_last());
        assert((a + b).last() == b.last());
        lemma_sv_bindings_concat(a, b.drop_last());
        assert(spec_sv_bindings(a) + spec_sv_bindings(b.drop_last()) + spec_stmt_bindings(b.last())
            =~= spec_sv_bindings(a) + spec_sv_bindings(b));
    }
}

/// Each name of a special-visibility statement has its binding at a known
/// position: after the bindings of the statements before it.
pub proof fn lemma_sv_binding_at(args: Seq<ArgV>, i: int, k: int)
    requires
        0 <= i < args.len(),
        args[i] matches ArgV::SpecialVis(sv) && 0 <= k < sv.idents.len(),
    ensures
        ({
            let bs = spec_sv_bindings(args);
            let p = spec_sv_bindings(args.take(i)).len() + k;
            &&& 0 <= p < bs.len()
            &&& p < spec_sv_bindings(args.take(i + 1)).len()
            &&& bs[p] == spec_stmt_bindings(args[i])[k]
        }),
{
    let bs = spec_sv_bindings(args);
    assert(args =~= args.take(i + 1) + args.skip(i + 1));
    lemma_sv_bindings_concat(args.take(i + 1), args.skip(i + 1));
    assert(args.take(i + 1).drop_last() =~= args.take(i));
    assert(args.take(i + 1).last() == args[i]);
    assert(spec_sv_bindings(args.take(i + 1)) == spec_sv_bindings(args.take(i))
        + spec_stmt_bindings(args[i]));
    assert(spec_stmt_bindings(args[i]).len() == args[i]->SpecialVis_0.idents.len());
    assert(bs == spec_sv_bindings(args.take(i + 1)) + spec_sv_bindings(args.skip(i + 1)));
}

/// Binding lists of longer statement prefixes are no shorter.
pub proof fn lemma_sv_bindings_prefix_len(args: Seq<ArgV>, x: int, y: int)
    requires
        0 <= x <= y <= args.len(),
    ensures
        spec_sv_bindings(args.take(x)).len() <= spec_sv_bindings(args.take(y)).len(),
{
    assert(args.take(y) =~= args.take(x) + args.subrange(x, y));
    lemma_sv_bindings_concat(args.take(x), args.subrange(x, y));
}

/// Where the duplicate scan finds nothing from `j` on, no binding at or after
/// `j` repeats an earlier name.
pub proof fn lemma_first_dup_none_unique(bs: Seq<SvBindingV>, j: int)
    requires
        0 <= j,
        spec_first_dup_from(bs, j) is None,
    ensures
        forall|p1: int, p2: int|
            0 <= p1 < p2 < bs.len() && p2 >= j ==> (#[trigger] bs[p1]).text != (
            #[trigger] bs[p2]).text,
    decreases bs.len() - j,
{
    if j < bs.len() {
        lemma_first_dup_none_unique(bs, j + 1);
    }
}

/// Law: a name bound by two distinct special-visibility statements makes
/// resolution fail with the duplicate-visibility error, whatever the entries.
pub proof fn lemma_duplicate_visibility_fails(
    args: Seq<ArgV>,
    entries: Seq<EntryV>,
    n: Seq<char>,
    i: int,
    j: int,
)
    requires
        0 <= i < j < args.len(),
        args[i] matches ArgV::SpecialVis(sv) && exists|k: int|
            0 <= k < sv.idents.len() && (#[trigger] sv.idents[k]).text == n,
        args[j] matches ArgV::SpecialVis(sv) && exists|k: int|
            0 <= k < sv.idents.len() && (#[trigger] sv.idents[k]).text == n,
    ensures
        spec_resolve(args, entries) matches Err(e) && e matches Error::MultipleVisibilities { .. },
{
    let bs = spec_sv_bindings(args);
    let svi = args[i]->SpecialVis_0;
    let svj = args[j]->SpecialVis_0;
    let ki = choose|k: int| 0 <= k < svi.idents.len() && (#[trigger] svi.idents[k]).text == n;
    let kj = choose|k: int| 0 <= k < svj.idents.len() && (#[trigger] svj.idents[k]).text == n;
    lemma_sv_binding_at(args, i, ki);
    lemma_sv_binding_at(args, j, kj);
    lemma_sv_bindings_prefix_len(args, i + 1, j);
    let p1 = spec_sv_bindings(args.take(i)).len() + ki;
    let p2 = spec_sv_bindings(args.take(j)).len() + kj;
    assert(bs[p1].text == n);
    assert(bs[p2].text == n);
    assert(p1 < p2);
    if spec_first_dup(bs) is None {
        lemma_first_dup_none_unique(bs, 0);
        assert(false);
    }
}

/// Where some binding carries the name, the lookup finds one.
pub proof fn lemma_find_sv_from_some(bs: Seq<SvBindingV>, name: Seq<char>, i: int)
    requires
        0 <= i,
        exists|x: int| i <= x < bs.len() && (#[trigger] bs[x]).text == name,
    ensures
        spec_find_sv_from(bs, name, i) is Some,
    decreases bs.len() - i,
{
    let x = choose|x: int| i <= x < bs.len() && (#[trigger] bs[x]).text == name;
    if bs[i].text != name {
        assert(i + 1 <= x);
        lemma_find_sv_from_some(bs, name, i + 1);
    }
}

/// Law: with no duplicate bindings, a name that is both excluded and
/// specially bound makes resolution fail with the excluded-but-special error
/// as soon as some entry carries it.
pub proof fn lemma_excluded_special_fails(
    args: Seq<ArgV>,
    entries: Seq<EntryV>,
    n: Seq<char>,
    k: int,
)
    requires
        spec_first_dup(spec_sv_bindings(args)) is None,
        0 <= k < entries.len(),
        entries[k].name == n,
        spec_is_excepted(args, n),
        exists|x: int|
            0 <= x < spec_sv_bindings(args).len() && (#[trigger] spec_sv_bindings(args)[x]).text
                == n,
    ensures
        spec_resolve(args, entries) matches Err(e) && e matches Error::SpecialButExcluded { .. },
{
    lemma_find_sv_from_some(spec_sv_bindings(args), n, 0);
    assert(spec_entry_conflict(args, entries[k]));
    lemma_resolve_entries_err(args, entries);
}

/// Law: the excluded-but-special error points at the special-visibility
/// statement that binds the first conflicting entry's name.
pub proof fn lemma_excluded_special_location(args: Seq<ArgV>, entries: Seq<EntryV>, k: int)
    requires
        0 <= k < entries.len(),
        spec_entry_conflict(args, entries[k]),
        forall|i: int| 0 <= i < k ==> !spec_entry_conflict(args, #[trigger] entries[i]),
    ensures
        spec_resolve_entries(args, entries) == Err::<Seq<DeclV>, Error>(
            Error::SpecialButExcluded {
                loc: spec_find_sv(
                    spec_sv_bindings(args),
                    entries[k].name,
                )->Some_0.stmt_loc as usize,
            },
        ),
{
    let prefix = entries.take(k);
    assert(forall|i: int|
        0 <= i < prefix.len() ==> !spec_entry_conflict(args, #[trigger] prefix[i]));
    lemma_resolve_entries_ok(args, prefix);
    assert(entries.take(k + 1).drop_last() =~= prefix);
    assert(entries.take(k + 1).last() == entries[k]);
    lemma_resolve_entries_prefix_err(args, entries, k + 1);
}

/// The first `default` statement (from `s` on) whose scope covers files
/// decides the file default.
pub proof fn lemma_default_file_from_first(args: Seq<ArgV>, s: int, i: int)
    requires
        0 <= s <= i < args.len(),
        args[i] matches ArgV::DefaultVis(dv) && dv.module_type.spec_is_file(),
        forall|x: int|
            s <= x < i ==> !((#[trigger] args[x]) matches ArgV::DefaultVis(d)
                && d.module_type.spec_is_file()),
    ensures
        spec_default_file_from(args, s) == args[i]->DefaultVis_0.modifier,
    decreases i - s,
{
    if s < i {
        lemma_default_file_from_first(args, s + 1, i);
    }
}

/// The first `default` statement (from `s` on) whose scope covers
/// directories decides the directory default.
pub proof fn lemma_default_dir_from_first(args: Seq<ArgV>, s: int, i: int)
    requires
        0 <= s <= i < args.len(),
        args[i] matches ArgV::DefaultVis(dv) && dv.module_type.spec_is_dir(),
        forall|x: int|
            s <= x < i ==> !((#[trigger] args[x]) matches ArgV::DefaultVis(d)
                && d.module_type.spec_is_dir()),
    ensures
        spec_default_dir_from(args, s) == args[i]->DefaultVis_0.modifier,
    decreases i - s,
{
    if s < i {
        lemma_default_dir_from_first(args, s + 1, i);
    }
}

/// Law: default-visibility scoping. Where the first file-scoped `default`
/// statement carries `m1` and the first directory-scoped one carries `m2`,
/// every entry without a special binding that is not excluded resolves to the
/// default of its kind: `m1` for a file entry, `m2` for a directory entry.
pub proof fn lemma_default_scoping(args: Seq<ArgV>, entries: Seq<EntryV>, k: int)
    requires
        spec_first_dup(spec_sv_bindings(args)) is None,
        forall|i: int| 0 <= i < entries.len() ==> !spec_entry_conflict(args, #[trigger] entries[i]),
        0 <= k < entries.len(),
        !spec_is_excepted(args, entries[k].name),
        spec_find_sv(spec_sv_bindings(args), entries[k].name) is None,
    ensures
        spec_resolve(args, entries) matches Ok(ds) && 0 <= spec_out_index(args, entries, k)
            < ds.len() && ds[spec_out_index(args, entries, k)] == spec_apply_modifier(
            if entries[k].kind is File {
                spec_default_file(args)
            } else {
                spec_default_dir(args)
            },
            entries[k].name,
            None,
        ),
{
    lemma_resolve_entries_ok(args, entries);
    assert(spec_modifier_for(args, entries[k]) == if entries[k].kind is File {
        spec_default_file(args)
    } else {
        spec_default_dir(args)
    });
}

/// Law: resolution is deterministic. Two results that both satisfy the
/// resolver's contract on equal inputs are equal.
pub proof fn lemma_resolution_deterministic(
    toks: Seq<TokenV>,
    entries: Seq<EntryV>,
    r1: Seq<DeclV>,
    r2: Seq<DeclV>,
)
    requires
        crate::imp::spec_all(toks, entries) == Ok::<Seq<DeclV>, Error>(r1),
        crate::imp::spec_all(toks, entries) == Ok::<Seq<DeclV>, Error>(r2),
    ensures
        r1 == r2,
{
}

/// Law: the conditional generator emits exactly one gated declaration per
/// entry, in order, each condition testing the flag against that entry's
/// name; entries with different names get different conditions.
pub proof fn lemma_cfg_decls_pointwise(m: ModifierV, entries: Seq<EntryV>, flag: Seq<char>)
    ensures
        ({
            let ds = crate::imp::spec_cfg_decls(m, entries, flag);
            &&& ds.len() == entries.len()
            &&& forall|i: int|
                0 <= i < entries.len() ==> #[trigger] ds[i] == spec_apply_modifier(
                    m,
                    entries[i].name,
                    Some(FlagConditionV { flag, value: entries[i].name }),
                )
            &&& forall|i: int, j: int|
                0 <= i < entries.len() && 0 <= j < entries.len() && (#[trigger] entries[i]).name
                    != (#[trigger] entries[j]).name ==> ds[i].condition != ds[j].condition
        }),
    decreases entries.len(),
{
    if entries.len() > 0 {
        lemma_cfg_decls_pointwise(m, entries.drop_last(), flag);
    }
}

/// Law: the conditional generator emits a fallback record exactly where the
/// single statement requested one; a fallback without a custom message gets
/// the synthesized message over all entry names.
pub proof fn lemma_cfg_guard(
    toks: Seq<TokenV>,
    entries: Seq<EntryV>,
    flag: Seq<char>,
    cargs: Seq<crate::parse::arg::ArgCfgV>,
)
    requires
        crate::parse::cfg::spec_parse_cfg_args(toks, 0) == Ok::<
            Seq<crate::parse::arg::ArgCfgV>,
            Error,
        >(cargs),
        cargs.len() <= 1,
    ensures
        crate::imp::spec_cfg(toks, entries, flag) matches Ok(out) && {
            &&& (out.guard is Some <==> cargs.len() == 1 && cargs[0].error is Some)
            &&& (cargs.len() == 1 && cargs[0].error == Some(Option::<Seq<char>>::None) ==> (
            out.guard matches Some(g) && g.flag == flag && g.values
                == crate::imp::spec_entry_names(entries) && g.message == spec_default_message(
                flag,
                crate::imp::spec_entry_names(entries),
            )))
        },
{
}

/// Every joined element occurs in the joined text as a contiguous piece.
pub proof fn lemma_join_contains(items: Seq<Seq<char>>, sep: Seq<char>, i: int)
    requires
        0 <= i < items.len(),
    ensures
        exists|off: int|
            0 <= off && off + items[i].len() <= spec_join(items, sep).len() && #[trigger] spec_join(
                items,
                sep,
            ).subrange(off, off + items[i].len()) == items[i],
    decreases items.len(),
{
    let whole = spec_join(items, sep);
    if items.len() == 1 {
        let off: int = 0;
        assert(whole.subrange(off, off + items[i].len()) =~= items[i]);
        assert(0 <= off && off + items[i].len() <= whole.len() && spec_join(items, sep).subrange(
            off,
            off + items[i].len(),
        ) == items[i]);
    } else if i == items.len() - 1 {
        let off: int = spec_join(items.drop_last(), sep).len() as int + sep.len() as int;
        assert(whole.len() == off + items[i].len());
        assert(whole.subrange(off, off + items[i].len()) =~= items[i]);
        assert(0 <= off && off + items[i].len() <= whole.len() && spec_join(items, sep).subrange(
            off,
            off + items[i].len(),
        ) == items[i]);
    } else {
        assert(items.drop_last()[i] == items[i]);
        lemma_join_contains(items.drop_last(), sep, i);
        let prefix = spec_join(items.drop_last(), sep);
        let off = choose|off: int|
            0 <= off && off + items[i].len() <= prefix.len() && #[trigger] prefix.subrange(
                off,
                off + items[i].len(),
            ) == items[i];
        assert(whole.len() >= prefix.len());
        assert(whole.subrange(off, off + items[i].len()) =~= prefix.subrange(
            off,
            off + items[i].len(),
        ));
        assert(0 <= off && off + items[i].len() <= whole.len() && spec_join(items, sep).subrange(
            off,
            off + items[i].len(),
        ) == items[i]);
    }
}

/// Law: the synthesized fallback message contains every entry name as a
/// contiguous piece.
pub proof fn lemma_default_message_contains(flag: Seq<char>, names: Seq<Seq<char>>, i: int)
    requires
        0 <= i < names.len(),
    ensures
        exists|off: int|
            0 <= off && off + names[i].len() <= spec_default_message(flag, names).len()
                && #[trigger] spec_default_message(flag, names).subrange(off, off + names[i].len())
                == names[i],
{
    let msg = spec_default_message(flag, names);
    let head = flag + " must be one of \""@;
    lemma_join_contains(names, "\", \""@, i);
    let joined = spec_join(names, "\", \""@);
    let off = choose|off: int|
        0 <= off && off + names[i].len() <= joined.len() && #[trigger] joined.subrange(
            off,
            off + names[i].len(),
        ) == names[i];
    assert(msg.subrange(head.len() + off, head.len() + off + names[i].len()) =~= joined.subrange(
        off,
        off + names[i].len(),
    ));
}

} // verus!
