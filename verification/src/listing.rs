//! Directory-listing construction.
//!
//! The host shell enumerates a directory and hands over one raw record per
//! entry: its display name, its absolute path, and whether it is a
//! directory. The library tags each record with a markdown flag derived
//! from the name's extension and orders the result: directories first,
//! then case-insensitive name order.

use vstd::prelude::*;
use vstd::seq_lib::to_multiset_build;
use vstd::seq_lib::to_multiset_len;
use crate::order::caseless_le;
use crate::order::lemma_lex_le_total;
use crate::order::lemma_lex_le_trans;
use crate::order::lex_le;
use crate::order::lower_of;

verus! {

/// One directory entry as the host shell enumerated it.
pub struct RawEntry {
    /// Display name of the entry (its final path component).
    pub name: String,
    /// Absolute path of the entry.
    pub path: String,
    /// Whether the entry is a directory.
    pub is_dir: bool,
}

/// One directory entry as the listing reports it.
pub struct FileInfo {
    /// Display name of the entry.
    pub name: String,
    /// Absolute path of the entry.
    pub path: String,
    /// Whether the entry is a directory.
    pub is_dir: bool,
    /// Whether the name carries a markdown extension.
    pub is_md: bool,
}

/// Position `j` holds the last `.` of `s`.
pub open spec fn last_dot_at(s: Seq<char>, j: int) -> bool {
    &&& 0 <= j < s.len()
    &&& s[j] == '.'
    &&& forall|k: int| j < k < s.len() ==> s[k] != '.'
}

/// The part of `s` after position `j` spells `md` or `markdown`.
pub open spec fn md_ext_at(s: Seq<char>, j: int) -> bool {
    ||| (s.len() - j == 3 && s[j + 1] == 'm' && s[j + 2] == 'd')
    ||| (s.len() - j == 9 && s[j + 1] == 'm' && s[j + 2] == 'a' && s[j + 3] == 'r' && s[j + 4]
        == 'k' && s[j + 5] == 'd' && s[j + 6] == 'o' && s[j + 7] == 'w' && s[j + 8] == 'n')
}

/// The name has extension `md` or `markdown`: its last `.` is neither the
/// first character (a leading `.` marks a hidden name, not an extension)
/// nor absent, and what follows it spells one of the two.
pub open spec fn is_markdown_name(s: Seq<char>) -> bool {
    exists|j: int| #[trigger] last_dot_at(s, j) && 1 <= j && md_ext_at(s, j)
}

/// A name has at most one last dot.
proof fn lemma_last_dot_unique(s: Seq<char>, i: int, j: int)
    requires
        last_dot_at(s, i),
        last_dot_at(s, j),
    ensures
        i == j,
{
    if i < j {
        assert(s[j] != '.');
    }
    if j < i {
        assert(s[i] != '.');
    }
}

/// Decides whether `name` carries a markdown extension.
pub fn has_markdown_extension(name: &str) -> (r: bool)
    ensures
        r == is_markdown_name(name@),
{
    let n = name.unicode_len();
    let mut i: usize = n;
    loop
        invariant
            i <= n,
            n == name@.len(),
            forall|t: int| i <= t < n ==> name@[t] != '.',
        decreases i,
    {
        if i == 0 {
            assert(forall|j: int| !last_dot_at(name@, j));
            return false;
        }
        let c = name.get_char(i - 1);
        if c == '.' {
            let j = i - 1;
            assert(last_dot_at(name@, j as int));
            if j == 0 {
                assert forall|j2: int| !(last_dot_at(name@, j2) && 1 <= j2) by {
                    if last_dot_at(name@, j2) {
                        lemma_last_dot_unique(name@, j as int, j2);
                    }
                }
                return false;
            }
            let tail = n - j;
            let r: bool = if tail == 3 {
                name.get_char(j + 1) == 'm' && name.get_char(j + 2) == 'd'
            } else if tail == 9 {
                name.get_char(j + 1) == 'm' && name.get_char(j + 2) == 'a' && name.get_char(
                    j + 3,
                ) == 'r' && name.get_char(j + 4) == 'k' && name.get_char(j + 5) == 'd'
                    && name.get_char(j + 6) == 'o' && name.get_char(j + 7) == 'w'
                    && name.get_char(j + 8) == 'n'
            } else {
                false
            };
            proof {
                assert(r == md_ext_at(name@, j as int));
                if r {
                    assert(is_markdown_name(name@));
                } else {
                    assert forall|j2: int| !(last_dot_at(name@, j2) && 1 <= j2 && md_ext_at(
                        name@,
                        j2,
                    )) by {
                        if last_dot_at(name@, j2) {
                            lemma_last_dot_unique(name@, j as int, j2);
                        }
                    }
                }
            }
            return r;
        }
        i = i - 1;
    }
}

/// The listing record that a raw entry turns into.
pub open spec fn info_of(e: RawEntry) -> FileInfo {
    FileInfo { name: e.name, path: e.path, is_dir: e.is_dir, is_md: is_markdown_name(e.name@) }
}

/// The listing records of a whole enumeration, in enumeration order.
pub open spec fn infos_of(s: Seq<RawEntry>) -> Seq<FileInfo> {
    s.map_values(|e: RawEntry| info_of(e))
}

/// `a` comes no later than `b` in the listing: directories before files,
/// and within one kind case-insensitive name order.
pub open spec fn entry_le(a: FileInfo, b: FileInfo) -> bool {
    if a.is_dir != b.is_dir {
        a.is_dir
    } else {
        lex_le(lower_of(a.name@), lower_of(b.name@))
    }
}

/// The sequence is ordered under `entry_le`.
pub open spec fn sorted(s: Seq<FileInfo>) -> bool {
    forall|i: int, j: int| 0 <= i < j < s.len() ==> #[trigger] entry_le(s[i], s[j])
}

/// Any two listing records are comparable under `entry_le`.
pub proof fn lemma_entry_le_total(a: FileInfo, b: FileInfo)
    ensures
        entry_le(a, b) || entry_le(b, a),
{
    if a.is_dir == b.is_dir {
        lemma_lex_le_total(lower_of(a.name@), lower_of(b.name@));
    }
}

/// `entry_le` is transitive.
pub proof fn lemma_entry_le_trans(a: FileInfo, b: FileInfo, c: FileInfo)
    requires
        entry_le(a, b),
        entry_le(b, c),
    ensures
        entry_le(a, c),
{
    if a.is_dir == b.is_dir && b.is_dir == c.is_dir {
        lemma_lex_le_trans(lower_of(a.name@), lower_of(b.name@), lower_of(c.name@));
    }
}

/// Decides `entry_le` on two listing records.
pub fn entry_le_exec(a: &FileInfo, b: &FileInfo) -> (r: bool)
    ensures
        r == entry_le(*a, *b),
{
    if a.is_dir != b.is_dir {
        a.is_dir
    } else {
        caseless_le(a.name.as_str(), b.name.as_str())
    }
}

/// Inserts `e` into the ordered vector `out`, keeping it ordered.
fn insert_sorted(out: &mut Vec<FileInfo>, e: FileInfo)
    requires
        sorted(old(out)@),
    ensures
        sorted(final (out)@),
        final (out)@.to_multiset() == old(out)@.to_multiset().insert(e),
{
    let ghost orig = out@;
    let mut p: usize = 0;
    while p < out.len() && entry_le_exec(&out[p], &e)
        invariant
            p <= out.len(),
            out@ == orig,
            sorted(orig),
            forall|k: int| 0 <= k < p ==> entry_le(orig[k], e),
        decreases out.len() - p,
    {
        p = p + 1;
    }
    proof {
        if (p as int) < orig.len() {
            lemma_entry_le_total(orig[p as int], e);
        }
    }
    out.insert(p, e);
    proof {
        let newv = orig.insert(p as int, e);
        assert(out@ == newv);
        vstd::seq_lib::to_multiset_insert(orig, p as int, e);
        assert forall|i: int, j: int| 0 <= i < j < newv.len() implies #[trigger] entry_le(
            newv[i],
            newv[j],
        ) by {
            if i < p && j < p {
                assert(entry_le(orig[i], orig[j]));
            } else if i < p && j == p {
                assert(entry_le(orig[i], e));
            } else if i < p && j > p {
                assert(entry_le(orig[i], orig[j - 1]));
            } else if i == p && j > p {
                assert(entry_le(e, orig[p as int]));
                if j - 1 > p {
                    assert(entry_le(orig[p as int], orig[j - 1]));
                    lemma_entry_le_trans(e, orig[p as int], orig[j - 1]);
                }
            } else {
                assert(entry_le(orig[i - 1], orig[j - 1]));
            }
        }
    }
}

/// Turns a raw enumeration into the listing: tags every entry with its
/// markdown flag and orders the result, directories first, then
/// case-insensitive name order. Exactly the records of the input come
/// back, each tagged, and nothing else.
pub fn build_listing(entries: Vec<RawEntry>) -> (r: Vec<FileInfo>)
    ensures
        sorted(r@),
        r@.to_multiset() == infos_of(entries@).to_multiset(),
        r@.len() == entries@.len(),
{
    let ghost all = entries@;
    let mut rest = entries;
    let mut out: Vec<FileInfo> = Vec::new();
    let ghost mut done: int = 0;
    proof {
        assert(rest@ =~= all.subrange(0, all.len() as int));
        assert(infos_of(all.subrange(0, 0)) =~= Seq::<FileInfo>::empty());
        assert(Seq::<FileInfo>::empty().to_multiset() =~= out@.to_multiset());
    }
    while rest.len() > 0
        invariant
            0 <= done <= all.len(),
            rest@ == all.subrange(done, all.len() as int),
            sorted(out@),
            out@.to_multiset() == infos_of(all.subrange(0, done)).to_multiset(),
        decreases rest.len(),
    {
        let e = rest.remove(0);
        let ghost ge = e;
        let is_md = has_markdown_extension(e.name.as_str());
        let info = FileInfo { name: e.name, path: e.path, is_dir: e.is_dir, is_md };
        proof {
            assert(ge == all[done]);
            assert(info == info_of(ge));
        }
        insert_sorted(&mut out, info);
        proof {
            assert(rest@ =~= all.subrange(done + 1, all.len() as int));
            assert(infos_of(all.subrange(0, done + 1)) =~= infos_of(
                all.subrange(0, done),
            ).push(info_of(all[done])));
            to_multiset_build(infos_of(all.subrange(0, done)), info_of(all[done]));
            done = done + 1;
        }
    }
    proof {
        assert(all.subrange(done, all.len() as int).len() == 0);
        assert(done == all.len());
        assert(all.subrange(0, done) =~= all);
        to_multiset_len(out@);
        to_multiset_len(infos_of(all));
    }
    out
}

} // verus!
