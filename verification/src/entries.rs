//! The entry classifier: turns a raw directory listing, supplied by an
//! external collaborator, into canonical `(name, kind)` entries.
//!
//! The collaborator hands over one [`RawSibling`] per directory entry, in
//! directory order, plus the file name of the invoking file. Classification
//! itself is pure: a sibling is a `File` entry when it is a regular file with
//! the `.rs` extension other than the invoking file (its name loses the
//! extension), and a `Directory` entry when it is a directory that contains a
//! module-root file. Everything else is ignored.

use vstd::prelude::*;

use crate::token::str_eq;

verus! {

/// The kind of a classified entry.
#[derive(Debug, Clone, Copy, PartialEq, Eq, Structural)]
pub enum ModuleType {
    /// A declaration file.
    File,
    /// A sub-directory with a module-root file.
    Dir,
}

/// One classified entry: a module name and its kind.
#[derive(Debug, Clone, PartialEq, Eq)]
pub struct Entry {
    /// The derived module name (extension already stripped for files).
    pub name: String,
    /// The entry's kind.
    pub kind: ModuleType,
}

/// Mathematical model of an [`Entry`].
#[verifier::ext_equal]
pub ghost struct EntryV {
    pub name: Seq<char>,
    pub kind: ModuleType,
}

impl View for Entry {
    type V = EntryV;

    open spec fn view(&self) -> EntryV {
        EntryV { name: self.name@, kind: self.kind }
    }
}

/// The models of an entry list.
pub open spec fn entries_v(s: Seq<Entry>) -> Seq<EntryV> {
    s.map_values(|e: Entry| e@)
}

/// One raw directory sibling, as the listing collaborator reports it. For a
/// directory, `has_module_root` says whether it contains a module-root file;
/// for other siblings the flag is meaningless.
#[derive(Debug, Clone, PartialEq, Eq)]
pub struct RawSibling {
    /// The sibling's file name, extension included.
    pub name: String,
    /// Whether the sibling is a regular file.
    pub is_file: bool,
    /// Whether the sibling is a directory.
    pub is_dir: bool,
    /// Whether the directory contains a module-root file.
    pub has_module_root: bool,
}

/// Mathematical model of a [`RawSibling`].
#[verifier::ext_equal]
pub ghost struct RawSiblingV {
    pub name: Seq<char>,
    pub is_file: bool,
    pub is_dir: bool,
    pub has_module_root: bool,
}

impl View for RawSibling {
    type V = RawSiblingV;

    open spec fn view(&self) -> RawSiblingV {
        RawSiblingV {
            name: self.name@,
            is_file: self.is_file,
            is_dir: self.is_dir,
            has_module_root: self.has_module_root,
        }
    }
}

/// The models of a sibling list.
pub open spec fn sibs_v(s: Seq<RawSibling>) -> Seq<RawSiblingV> {
    s.map_values(|r: RawSibling| r@)
}

/// Whether a file name carries the declaration-file extension: it ends in
/// `.rs` and keeps at least one character once the extension is stripped.
pub open spec fn spec_is_rs_name(n: Seq<char>) -> bool {
    n.len() > 3 && n.subrange(n.len() - 3, n.len() as int) == ".rs"@
}

/// The module name of a declaration file: the file name without `.rs`.
pub open spec fn spec_module_stem(n: Seq<char>) -> Seq<char> {
    n.subrange(0, n.len() - 3)
}

/// The entries (none or one) that a single sibling classifies to.
pub open spec fn spec_classify_one(s: RawSiblingV, invoking: Seq<char>) -> Seq<EntryV> {
    if s.is_file && spec_is_rs_name(s.name) && s.name != invoking {
        seq![EntryV { name: spec_module_stem(s.name), kind: ModuleType::File }]
    } else if s.is_dir && s.has_module_root {
        seq![EntryV { name: s.name, kind: ModuleType::Dir }]
    } else {
        seq![]
    }
}

/// The entries that a sibling listing classifies to, in listing order.
pub open spec fn spec_classify(sibs: Seq<RawSiblingV>, invoking: Seq<char>) -> Seq<EntryV>
    decreases sibs.len(),
{
    if sibs.len() == 0 {
        seq![]
    } else {
        spec_classify(sibs.drop_last(), invoking) + spec_classify_one(sibs.last(), invoking)
    }
}

/// Whether a file name carries the declaration-file extension.
pub fn is_rs_name(s: &str) -> (r: bool)
    ensures
        r == spec_is_rs_name(s@),
{
    let len = s.unicode_len();
    if len <= 3 {
        return false;
    }
    let r = s.get_char(len - 3) == '.' && s.get_char(len - 2) == 'r' && s.get_char(len - 1) == 's';
    proof {
        reveal_strlit(".rs");
        let sub = s@.subrange(s@.len() - 3, s@.len() as int);
        assert(sub.len() == 3);
        assert(sub[0] == s@[s@.len() - 3]);
        assert(sub[1] == s@[s@.len() - 2]);
        assert(sub[2] == s@[s@.len() - 1]);
        if r {
            assert(sub =~= ".rs"@);
        }
    }
    r
}

/// The module name of a declaration file.
pub fn module_stem(s: &str) -> (r: String)
    requires
        spec_is_rs_name(s@),
    ensures
        r@ == spec_module_stem(s@),
{
    let len = s.unicode_len();
    let stem = s.substring_char(0, len - 3);
    stem.to_owned()
}

/// Classifies a raw sibling listing into entries, in listing order.
/// `invoking` is the file name of the invoking file, which never yields an
/// entry of its own.
pub fn classify_siblings(siblings: &Vec<RawSibling>, invoking: &str) -> (r: Vec<Entry>)
    ensures
        entries_v(r@) == spec_classify(sibs_v(siblings@), invoking@),
{
    let ghost full = sibs_v(siblings@);
    let mut out: Vec<Entry> = Vec::new();
    proof {
        assert(entries_v(out@) =~= spec_classify(full.take(0), invoking@));
    }
    let mut i: usize = 0;
    while i < siblings.len()
        invariant
            i <= siblings@.len(),
            full == sibs_v(siblings@),
            entries_v(out@) == spec_classify(full.take(i as int), invoking@),
        decreases siblings@.len() - i,
    {
        let s = &siblings[i];
        proof {
            assert(full[i as int] == siblings@[i as int]@);
            assert(full.take(i + 1).drop_last() =~= full.take(i as int));
            assert(full.take(i + 1).last() == full[i as int]);
        }
        let ghost before = out@;
        if s.is_file && is_rs_name(s.name.as_str()) && !str_eq(s.name.as_str(), invoking) {
            let entry = Entry { name: module_stem(s.name.as_str()), kind: ModuleType::File };
            let ghost ev = entry@;
            out.push(entry);
            proof {
                assert(entries_v(out@) =~= entries_v(before) + seq![ev]);
            }
        } else if s.is_dir && s.has_module_root {
            let entry = Entry { name: s.name.clone(), kind: ModuleType::Dir };
            let ghost ev = entry@;
            out.push(entry);
            proof {
                assert(entries_v(out@) =~= entries_v(before) + seq![ev]);
            }
        } else {
            proof {
                assert(entries_v(out@) =~= entries_v(before) + spec_classify_one(
                    full[i as int],
                    invoking@,
                ));
            }
        }
        i = i + 1;
    }
    proof {
        assert(full.take(siblings@.len() as int) =~= full);
    }
    out
}

} // verus!
