//! The modifier-resolution engine: combines the parsed statement list with
//! the classified entries into one effective modifier per entry, dropping
//! excluded entries and reporting the first conflict.
//!
//! Precedence: a special visibility beats the defaults; the first `default`
//! statement per scope wins; the built-in default (private, no re-export)
//! covers the rest. Conflicts: one name in two special-visibility bindings,
//! or an entry that is both specially visible and excluded.

use vstd::prelude::*;

use crate::emit::{apply_modifier, decls_v, opt_cond_v, spec_apply_modifier, Decl, DeclV};
use crate::entries::{entries_v, Entry, EntryV, ModuleType};
use crate::error::Error;
use crate::parse::all::{args_v, Arg, ArgV};
use crate::parse::arg::NameV;
use crate::parse::modifier::{spec_builtin_default, Modifier, ModifierV};

verus! {

/// One special-visibility binding: a name, where it stood, where its
/// statement stood, and the modifier it was given.
#[derive(Debug, Clone, PartialEq, Eq)]
pub struct SvBinding {
    /// The bound name.
    pub text: String,
    /// The index of the name's token.
    pub name_loc: usize,
    /// The index of the statement's leading token.
    pub stmt_loc: usize,
    /// The modifier the statement gives the name.
    pub modifier: Modifier,
}

/// Mathematical model of an [`SvBinding`].
#[verifier::ext_equal]
pub ghost struct SvBindingV {
    pub text: Seq<char>,
    pub name_loc: int,
    pub stmt_loc: int,
    pub modifier: ModifierV,
}

impl View for SvBinding {
    type V = SvBindingV;

    open spec fn view(&self) -> SvBindingV {
        SvBindingV {
            text: self.text@,
            name_loc: self.name_loc as int,
            stmt_loc: self.stmt_loc as int,
            modifier: self.modifier@,
        }
    }
}

/// The models of a binding list.
pub open spec fn bindings_v(s: Seq<SvBinding>) -> Seq<SvBindingV> {
    s.map_values(|b: SvBinding| b@)
}

/// The bindings one statement contributes: one per name of a
/// special-visibility statement, nothing otherwise.
pub open spec fn spec_stmt_bindings(a: ArgV) -> Seq<SvBindingV> {
    match a {
        ArgV::SpecialVis(sv) => sv.idents.map_values(
            |n: NameV|
                SvBindingV {
                    text: n.text,
                    name_loc: n.loc,
                    stmt_loc: sv.loc,
                    modifier: sv.modifier,
                },
        ),
        _ => seq![],
    }
}

/// All special-visibility bindings of the statement list, in statement order
/// and, within one statement, in name order. Duplicates are kept: they are
/// what the conflict check looks for.
pub open spec fn spec_sv_bindings(args: Seq<ArgV>) -> Seq<SvBindingV>
    decreases args.len(),
{
    if args.len() == 0 {
        seq![]
    } else {
        spec_sv_bindings(args.drop_last()) + spec_stmt_bindings(args.last())
    }
}

/// The first binding index (at or after `j`) whose name already occurred
/// earlier, if any.
pub open spec fn spec_first_dup_from(bs: Seq<SvBindingV>, j: int) -> Option<int>
    decreases bs.len() - j,
{
    if !(0 <= j < bs.len()) {
        None
    } else if exists|i: int| 0 <= i < j && bs[i].text == bs[j].text {
        Some(j)
    } else {
        spec_first_dup_from(bs, j + 1)
    }
}

/// The first binding whose name already occurred earlier, if any: the second
/// occurrence of the first duplicated name.
pub open spec fn spec_first_dup(bs: Seq<SvBindingV>) -> Option<int> {
    spec_first_dup_from(bs, 0)
}

/// The first binding (at or after `i`) of the given name, if any.
pub open spec fn spec_find_sv_from(bs: Seq<SvBindingV>, name: Seq<char>, i: int) -> Option<
    SvBindingV,
>
    decreases bs.len() - i,
{
    if !(0 <= i < bs.len()) {
        None
    } else if bs[i].text == name {
        Some(bs[i])
    } else {
        spec_find_sv_from(bs, name, i + 1)
    }
}

/// The first binding of the given name, if any.
pub open spec fn spec_find_sv(bs: Seq<SvBindingV>, name: Seq<char>) -> Option<SvBindingV> {
    spec_find_sv_from(bs, name, 0)
}

/// The names one statement excludes: the names of an `except` statement,
/// nothing otherwise.
pub open spec fn spec_stmt_excepts(a: ArgV) -> Seq<Seq<char>> {
    match a {
        ArgV::Except(e) => e.idents.map_values(|n: NameV| n.text),
        _ => seq![],
    }
}

/// All excluded names of the statement list, in statement order.
pub open spec fn spec_except_names(args: Seq<ArgV>) -> Seq<Seq<char>>
    decreases args.len(),
{
    if args.len() == 0 {
        seq![]
    } else {
        spec_except_names(args.drop_last()) + spec_stmt_excepts(args.last())
    }
}

/// Whether a name is excluded by some `except` statement.
pub open spec fn spec_is_excepted(args: Seq<ArgV>, name: Seq<char>) -> bool {
    spec_except_names(args).contains(name)
}

/// The effective default for file entries, read from statement `i` on: the
/// first `default` statement whose scope covers files, or the built-in
/// default.
pub open spec fn spec_default_file_from(args: Seq<ArgV>, i: int) -> ModifierV
    decreases args.len() - i,
{
    if !(0 <= i < args.len()) {
        spec_builtin_default()
    } else {
        match args[i] {
            ArgV::DefaultVis(dv) => if dv.module_type.spec_is_file() {
                dv.modifier
            } else {
                spec_default_file_from(args, i + 1)
            },
            _ => spec_default_file_from(args, i + 1),
        }
    }
}

/// The effective default for file entries.
pub open spec fn spec_default_file(args: Seq<ArgV>) -> ModifierV {
    spec_default_file_from(args, 0)
}

/// The effective default for directory entries, read from statement `i` on.
pub open spec fn spec_default_dir_from(args: Seq<ArgV>, i: int) -> ModifierV
    decreases args.len() - i,
{
    if !(0 <= i < args.len()) {
        spec_builtin_default()
    } else {
        match args[i] {
            ArgV::DefaultVis(dv) => if dv.module_type.spec_is_dir() {
                dv.modifier
            } else {
                spec_default_dir_from(args, i + 1)
            },
            _ => spec_default_dir_from(args, i + 1),
        }
    }
}

/// The effective default for directory entries.
pub open spec fn spec_default_dir(args: Seq<ArgV>) -> ModifierV {
    spec_default_dir_from(args, 0)
}

/// The modifier one entry resolves to, were it not excluded: its special
/// binding if it has one, else the default of its kind.
pub open spec fn spec_modifier_for(args: Seq<ArgV>, e: EntryV) -> ModifierV {
    match spec_find_sv(spec_sv_bindings(args), e.name) {
        Some(b) => b.modifier,
        None => if e.kind is File {
            spec_default_file(args)
        } else {
            spec_default_dir(args)
        },
    }
}

/// Resolution over the entries, duplicates among the bindings already ruled
/// out: each excluded entry is dropped (or, when it also has a special
/// binding, faults at that binding's statement), every other entry becomes
/// one unconditional declaration record, in entry order.
pub open spec fn spec_resolve_entries(args: Seq<ArgV>, entries: Seq<EntryV>) -> Result<
    Seq<DeclV>,
    Error,
>
    decreases entries.len(),
{
    if entries.len() == 0 {
        Ok(seq![])
    } else {
        match spec_resolve_entries(args, entries.drop_last()) {
            Err(e) => Err(e),
            Ok(ds) => {
                let e = entries.last();
                if spec_is_excepted(args, e.name) {
                    match spec_find_sv(spec_sv_bindings(args), e.name) {
                        Some(b) => Err(Error::SpecialButExcluded { loc: b.stmt_loc as usize }),
                        None => Ok(ds),
                    }
                } else {
                    Ok(ds.push(spec_apply_modifier(spec_modifier_for(args, e), e.name, None)))
                }
            },
        }
    }
}

/// Full resolution of a statement list against an entry list: first the
/// duplicate-binding check, located at the second occurrence of the repeated
/// name, then the per-entry pass.
pub open spec fn spec_resolve(args: Seq<ArgV>, entries: Seq<EntryV>) -> Result<Seq<DeclV>, Error> {
    let bs = spec_sv_bindings(args);
    match spec_first_dup(bs) {
        Some(j) => Err(Error::MultipleVisibilities { loc: bs[j].name_loc as usize }),
        None => spec_resolve_entries(args, entries),
    }
}

/// The per-entry conflict: the entry is excluded yet also specially bound.
pub open spec fn spec_entry_conflict(args: Seq<ArgV>, e: EntryV) -> bool {
    spec_is_excepted(args, e.name) && spec_find_sv(spec_sv_bindings(args), e.name) is Some
}

/// How many of the entries are excluded.
pub open spec fn spec_excluded_count(args: Seq<ArgV>, entries: Seq<EntryV>) -> int
    decreases entries.len(),
{
    if entries.len() == 0 {
        0
    } else {
        spec_excluded_count(args, entries.drop_last()) + if spec_is_excepted(
            args,
            entries.last().name,
        ) {
            1int
        } else {
            0int
        }
    }
}

/// The output position of entry `k`: its own index less the excluded entries
/// before it.
pub open spec fn spec_out_index(args: Seq<ArgV>, entries: Seq<EntryV>, k: int) -> int {
    k - spec_excluded_count(args, entries.take(k))
}

/// An error of some entry prefix is the error of the whole entry list.
pub proof fn lemma_resolve_entries_prefix_err(args: Seq<ArgV>, entries: Seq<EntryV>, m: int)
    requires
        0 <= m <= entries.len(),
        spec_resolve_entries(args, entries.take(m)) is Err,
    ensures
        spec_resolve_entries(args, entries) == spec_resolve_entries(args, entries.take(m)),
    decreases entries.len() - m,
{
    if m == entries.len() {
        assert(entries.take(m) =~= entries);
    } else {
        assert(entries.drop_last().take(m) =~= entries.take(m));
        lemma_resolve_entries_prefix_err(args, entries.drop_last(), m);
    }
}

/// Collects the special-visibility bindings of the statement list, in order,
/// duplicates included.
fn collect_bindings(args: &Vec<Arg>) -> (r: Vec<SvBinding>)
    ensures
        bindings_v(r@) == spec_sv_bindings(args_v(args@)),
{
    let ghost av = args_v(args@);
    let mut out: Vec<SvBinding> = Vec::new();
    proof {
        assert(bindings_v(out@) =~= spec_sv_bindings(av.take(0)));
    }
    let mut i: usize = 0;
    while i < args.len()
        invariant
            i <= args@.len(),
            av == args_v(args@),
            bindings_v(out@) == spec_sv_bindings(av.take(i as int)),
        decreases args@.len() - i,
    {
        proof {
            assert(av[i as int] == args@[i as int]@);
        }
        let ghost stmt = spec_stmt_bindings(av[i as int]);
        match &args[i] {
            Arg::SpecialVis(sv) => {
                let mut k: usize = 0;
                proof {
                    assert(stmt.len() == sv.idents@.len());
                    assert(stmt.take(0) =~= Seq::<SvBindingV>::empty());
                    assert(bindings_v(out@) =~= spec_sv_bindings(av.take(i as int)) + stmt.take(
                        0,
                    ));
                }
                while k < sv.idents.len()
                    invariant
                        k <= sv.idents@.len(),
                        av == args_v(args@),
                        i < args@.len(),
                        av[i as int] == args@[i as int]@,
                        args@[i as int] matches Arg::SpecialVis(s) && s == *sv,
                        stmt == spec_stmt_bindings(av[i as int]),
                        stmt.len() == sv.idents@.len(),
                        bindings_v(out@) == spec_sv_bindings(av.take(i as int)) + stmt.take(
                            k as int,
                        ),
                    decreases sv.idents@.len() - k,
                {
                    let n = &sv.idents[k];
                    let b = SvBinding {
                        text: n.text.clone(),
                        name_loc: n.loc,
                        stmt_loc: sv.loc,
                        modifier: sv.modifier.dup(),
                    };
                    let ghost before = out@;
                    let ghost bv = b@;
                    out.push(b);
                    proof {
                        assert(stmt[k as int] == bv);
                        assert(stmt.take(k + 1) =~= stmt.take(k as int).push(stmt[k as int]));
                        assert(bindings_v(out@) =~= bindings_v(before).push(bv));
                        assert(bindings_v(out@) =~= spec_sv_bindings(av.take(i as int)) + stmt.take(
                            k + 1,
                        ));
                    }
                    k = k + 1;
                }
                proof {
                    assert(stmt.take(sv.idents@.len() as int) =~= stmt);
                }
            },
            _ => {
                proof {
                    assert(stmt =~= Seq::<SvBindingV>::empty());
                }
            },
        }
        proof {
            assert(av.take(i + 1).drop_last() =~= av.take(i as int));
            assert(av.take(i + 1).last() == av[i as int]);
            assert(bindings_v(out@) =~= spec_sv_bindings(av.take(i + 1)));
        }
        i = i + 1;
    }
    proof {
        assert(av.take(args@.len() as int) =~= av);
    }
    out
}

/// Finds the first binding whose name already occurred, if any.
fn find_dup(bindings: &Vec<SvBinding>) -> (r: Option<usize>)
    ensures
        match r {
            Some(j) => j < bindings@.len() && spec_first_dup(bindings_v(bindings@)) == Some(
                j as int,
            ),
            None => spec_first_dup(bindings_v(bindings@)) is None,
        },
{
    let ghost bv = bindings_v(bindings@);
    let mut j: usize = 0;
    while j < bindings.len()
        invariant
            j <= bindings@.len(),
            bv == bindings_v(bindings@),
            spec_first_dup_from(bv, 0) == spec_first_dup_from(bv, j as int),
        decreases bindings@.len() - j,
    {
        proof {
            assert(bv[j as int] == bindings@[j as int]@);
        }
        let mut i: usize = 0;
        let mut found = false;
        while i < j
            invariant
                i <= j,
                j < bindings@.len(),
                bv == bindings_v(bindings@),
                found ==> exists|x: int| 0 <= x < j && bv[x].text == bv[j as int].text,
                !found ==> forall|x: int| 0 <= x < i ==> bv[x].text != bv[j as int].text,
            decreases j - i,
        {
            proof {
                assert(bv[i as int] == bindings@[i as int]@);
            }
            let a = &bindings[i];
            let b = &bindings[j];
            if a.text == b.text {
                proof {
                    assert(bv[i as int].text == bv[j as int].text);
                }
                found = true;
            }
            i = i + 1;
        }
        if found {
            proof {
                assert(spec_first_dup_from(bv, j as int) == Some(j as int));
            }
            return Some(j);
        }
        proof {
            assert(forall|x: int| 0 <= x < j ==> bv[x].text != bv[j as int].text);
        }
        j = j + 1;
    }
    None
}

/// Collects the excluded names of the statement list, in order.
fn collect_excepts(args: &Vec<Arg>) -> (r: Vec<String>)
    ensures
        crate::emit::strs_v(r@) == spec_except_names(args_v(args@)),
{
    let ghost av = args_v(args@);
    let mut out: Vec<String> = Vec::new();
    proof {
        assert(crate::emit::strs_v(out@) =~= spec_except_names(av.take(0)));
    }
    let mut i: usize = 0;
    while i < args.len()
        invariant
            i <= args@.len(),
            av == args_v(args@),
            crate::emit::strs_v(out@) == spec_except_names(av.take(i as int)),
        decreases args@.len() - i,
    {
        proof {
            assert(av[i as int] == args@[i as int]@);
        }
        let ghost stmt = spec_stmt_excepts(av[i as int]);
        match &args[i] {
            Arg::Except(ex) => {
                let mut k: usize = 0;
                proof {
                    assert(stmt.len() == ex.idents@.len());
                    assert(crate::emit::strs_v(out@) =~= spec_except_names(av.take(i as int))
                        + stmt.take(0));
                }
                while k < ex.idents.len()
                    invariant
                        k <= ex.idents@.len(),
                        av == args_v(args@),
                        i < args@.len(),
                        av[i as int] == args@[i as int]@,
                        args@[i as int] matches Arg::Except(s) && s == *ex,
                        stmt == spec_stmt_excepts(av[i as int]),
                        stmt.len() == ex.idents@.len(),
                        crate::emit::strs_v(out@) == spec_except_names(av.take(i as int))
                            + stmt.take(k as int),
                    decreases ex.idents@.len() - k,
                {
                    let n = &ex.idents[k];
                    let ghost before = out@;
                    let ghost tv = n.text@;
                    out.push(n.text.clone());
                    proof {
                        assert(stmt[k as int] == tv);
                        assert(stmt.take(k + 1) =~= stmt.take(k as int).push(stmt[k as int]));
                        assert(crate::emit::strs_v(out@) =~= crate::emit::strs_v(before).push(tv));
                        assert(crate::emit::strs_v(out@) =~= spec_except_names(av.take(i as int))
                            + stmt.take(k + 1));
                    }
                    k = k + 1;
                }
                proof {
                    assert(stmt.take(ex.idents@.len() as int) =~= stmt);
                }
            },
            _ => {
                proof {
                    assert(stmt =~= Seq::<Seq<char>>::empty());
                }
            },
        }
        proof {
            assert(av.take(i + 1).drop_last() =~= av.take(i as int));
            assert(av.take(i + 1).last() == av[i as int]);
            assert(crate::emit::strs_v(out@) =~= spec_except_names(av.take(i + 1)));
        }
        i = i + 1;
    }
    proof {
        assert(av.take(args@.len() as int) =~= av);
    }
    out
}

/// Whether the list holds the name.
fn contains_str(names: &Vec<String>, target: &String) -> (r: bool)
    ensures
        r == crate::emit::strs_v(names@).contains(target@),
{
    let ghost nv = crate::emit::strs_v(names@);
    let mut i: usize = 0;
    while i < names.len()
        invariant
            i <= names@.len(),
            nv == crate::emit::strs_v(names@),
            forall|x: int| 0 <= x < i ==> nv[x] != target@,
        decreases names@.len() - i,
    {
        proof {
            assert(nv[i as int] == names@[i as int]@);
        }
        if crate::token::str_eq(names[i].as_str(), target.as_str()) {
            proof {
                assert(nv.contains(target@));
            }
            return true;
        }
        i = i + 1;
    }
    proof {
        assert(!nv.contains(target@)) by {
            if nv.contains(target@) {
                let x = choose|x: int| 0 <= x < nv.len() && nv[x] == target@;
                assert(nv[x] != target@);
            }
        }
    }
    false
}

/// Finds the index of the first binding of the name, if any.
fn find_binding(bindings: &Vec<SvBinding>, name: &String) -> (r: Option<usize>)
    ensures
        match r {
            Some(idx) => idx < bindings@.len() && spec_find_sv(bindings_v(bindings@), name@)
                == Some(bindings@[idx as int]@),
            None => spec_find_sv(bindings_v(bindings@), name@) is None,
        },
{
    let ghost bv = bindings_v(bindings@);
    let mut i: usize = 0;
    while i < bindings.len()
        invariant
            i <= bindings@.len(),
            bv == bindings_v(bindings@),
            spec_find_sv_from(bv, name@, 0) == spec_find_sv_from(bv, name@, i as int),
        decreases bindings@.len() - i,
    {
        proof {
            assert(bv[i as int] == bindings@[i as int]@);
        }
        let b = &bindings[i];
        if b.text == *name {
            proof {
                assert(spec_find_sv_from(bv, name@, i as int) == Some(bv[i as int]));
            }
            return Some(i);
        }
        i = i + 1;
    }
    None
}

/// The effective default for file entries of the statement list.
fn default_file_of(args: &Vec<Arg>) -> (r: Modifier)
    ensures
        r@ == spec_default_file(args_v(args@)),
{
    let ghost av = args_v(args@);
    let mut i: usize = 0;
    while i < args.len()
        invariant
            i <= args@.len(),
            av == args_v(args@),
            spec_default_file_from(av, 0) == spec_default_file_from(av, i as int),
        decreases args@.len() - i,
    {
        proof {
            assert(av[i as int] == args@[i as int]@);
        }
        match &args[i] {
            Arg::DefaultVis(dv) => {
                if dv.module_type.is_file() {
                    return dv.modifier.dup();
                }
            },
            _ => {},
        }
        i = i + 1;
    }
    Modifier::default_file()
}

/// The effective default for directory entries of the statement list.
fn default_dir_of(args: &Vec<Arg>) -> (r: Modifier)
    ensures
        r@ == spec_default_dir(args_v(args@)),
{
    let ghost av = args_v(args@);
    let mut i: usize = 0;
    while i < args.len()
        invariant
            i <= args@.len(),
            av == args_v(args@),
            spec_default_dir_from(av, 0) == spec_default_dir_from(av, i as int),
        decreases args@.len() - i,
    {
        proof {
            assert(av[i as int] == args@[i as int]@);
        }
        match &args[i] {
            Arg::DefaultVis(dv) => {
                if dv.module_type.is_dir() {
                    return dv.modifier.dup();
                }
            },
            _ => {},
        }
        i = i + 1;
    }
    Modifier::default_dir()
}

/// Resolves a parsed statement list against the entries: the executable
/// counterpart of [`spec_resolve`].
pub fn resolve_args(args: &Vec<Arg>, entries: &Vec<Entry>) -> (r: Result<Vec<Decl>, Error>)
    ensures
        match r {
            Ok(ds) => spec_resolve(args_v(args@), entries_v(entries@)) matches Ok(s) && s
                == decls_v(ds@),
            Err(e) => spec_resolve(args_v(args@), entries_v(entries@)) matches Err(se) && se == e,
        },
{
    let ghost av = args_v(args@);
    let ghost ev = entries_v(entries@);
    let bindings = collect_bindings(args);
    match find_dup(&bindings) {
        Some(j) => {
            let b = &bindings[j];
            return Err(Error::MultipleVisibilities { loc: b.name_loc });
        },
        None => {},
    }
    let excepts = collect_excepts(args);
    let default_file = default_file_of(args);
    let default_dir = default_dir_of(args);
    let mut out: Vec<Decl> = Vec::new();
    proof {
        assert(decls_v(out@) =~= Seq::<DeclV>::empty());
    }
    let mut k: usize = 0;
    while k < entries.len()
        invariant
            k <= entries@.len(),
            av == args_v(args@),
            ev == entries_v(entries@),
            bindings_v(bindings@) == spec_sv_bindings(av),
            crate::emit::strs_v(excepts@) == spec_except_names(av),
            default_file@ == spec_default_file(av),
            default_dir@ == spec_default_dir(av),
            spec_first_dup(spec_sv_bindings(av)) is None,
            spec_resolve_entries(av, ev.take(k as int)) == Ok::<Seq<DeclV>, Error>(decls_v(out@)),
        decreases entries@.len() - k,
    {
        proof {
            assert(ev[k as int] == entries@[k as int]@);
            assert(ev.take(k + 1).drop_last() =~= ev.take(k as int));
            assert(ev.take(k + 1).last() == ev[k as int]);
        }
        let e = &entries[k];
        let ghost before = out@;
        if contains_str(&excepts, &e.name) {
            match find_binding(&bindings, &e.name) {
                Some(idx) => {
                    let b = &bindings[idx];
                    proof {
                        assert(spec_resolve_entries(av, ev.take(k + 1)) matches Err(_));
                        lemma_resolve_entries_prefix_err(av, ev, k + 1);
                    }
                    return Err(Error::SpecialButExcluded { loc: b.stmt_loc });
                },
                None => {
                    proof {
                        assert(spec_resolve_entries(av, ev.take(k + 1)) == Ok::<
                            Seq<DeclV>,
                            Error,
                        >(decls_v(out@)));
                    }
                },
            }
        } else {
            let m = match find_binding(&bindings, &e.name) {
                Some(idx) => bindings[idx].modifier.dup(),
                None => {
                    if matches!(e.kind, ModuleType::File) {
                        default_file.dup()
                    } else {
                        default_dir.dup()
                    }
                },
            };
            proof {
                assert(m@ == spec_modifier_for(av, ev[k as int]));
            }
            let d = apply_modifier(&m, e.name.clone(), None);
            let ghost dv = d@;
            out.push(d);
            proof {
                assert(opt_cond_v(None) is None);
                assert(decls_v(out@) =~= decls_v(before).push(dv));
                assert(spec_resolve_entries(av, ev.take(k + 1)) == Ok::<Seq<DeclV>, Error>(
                    decls_v(out@),
                ));
            }
        }
        k = k + 1;
    }
    proof {
        assert(ev.take(entries@.len() as int) =~= ev);
    }
    Ok(out)
}

} // verus!
