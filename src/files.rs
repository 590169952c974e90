//! Listing and editing the files of a server's data directory.
use vstd::prelude::*;
use crate::manager::chars_le;
use crate::text::chars_of;

verus! {

broadcast use vstd::string::group_string_axioms;

/// An entry of a directory listing.
#[derive(Debug)]
pub struct FileEntry {
    pub name: String,
    pub path: String,
    pub is_dir: bool,
    pub size: u64,
    /// Last modification, in seconds since the Unix epoch.
    pub modified: Option<u64>,
    pub extension: Option<String>,
}

/// A directory listing.
#[derive(Debug)]
pub struct DirectoryContents {
    pub path: String,
    pub parent: Option<String>,
    pub entries: Vec<FileEntry>,
}

/// Whether a file name is hidden from listings: it starts with a dot.
pub fn is_hidden(name: &str) -> (r: bool)
    ensures
        r == (name@.len() > 0 && name@[0] == '.'),
{
    let v = chars_of(name);
    v.len() > 0 && v[0] == '.'
}

/// Largest file, in bytes, that is opened for editing as text.
pub const MAX_EDIT_BYTES: u64 = 5 * 1024 * 1024;

/// Whether a file of `len` bytes may be opened for editing.
pub fn editable_size(len: u64) -> (r: bool)
    ensures
        r == (len <= MAX_EDIT_BYTES),
{
    len <= MAX_EDIT_BYTES
}

/// Whether a new name for a file is acceptable: it holds no path separator.
pub fn valid_new_name(name: &str) -> (r: bool)
    ensures
        r == forall|i: int| 0 <= i < name@.len() ==> name@[i] != '/' && name@[i] != '\\',
{
    let v = chars_of(name);
    let mut i: usize = 0;
    while i < v.len()
        invariant
            i <= v.len(),
            v@ == name@,
            forall|k: int| 0 <= k < i ==> v@[k] != '/' && v@[k] != '\\',
        decreases v.len() - i,
    {
        if v[i] == '/' || v[i] == '\\' {
            return false;
        }
        i = i + 1;
    }
    true
}

/// The lower-case form of a text, as `str::to_lowercase` gives it.
pub uninterp spec fn lower_of(s: Seq<char>) -> Seq<char>;

/// Relies on `str::to_lowercase`: the Unicode lower-case mapping, which depends on the
/// characters alone.
#[verifier::external_body]
fn lowercase(s: &str) -> (r: String)
    ensures
        r@ == lower_of(s@),
        s@.len() == 0 ==> r@.len() == 0,
{
    s.to_lowercase()
}

/// The order of a listing: directories first, then by lower-case name.
pub open spec fn entry_before(a: FileEntry, b: FileEntry) -> bool {
    (a.is_dir && !b.is_dir) || (a.is_dir == b.is_dir && chars_le(lower_of(a.name@), lower_of(b.name@)))
}

/// Each entry sorts no later than the next.
pub open spec fn in_entry_order(es: Seq<FileEntry>) -> bool {
    forall|i: int| 0 <= i < es.len() - 1 ==> entry_before(#[trigger] es[i], es[i + 1])
}

fn entry_before_exec(a: &FileEntry, b: &FileEntry) -> (r: bool)
    ensures
        r == entry_before(*a, *b),
{
    if a.is_dir != b.is_dir {
        return a.is_dir;
    }
    let x = lowercase(a.name.as_str());
    let y = lowercase(b.name.as_str());
    crate::manager::chars_le_exec(&x, &y)
}

/// Puts the entries of a listing in order: directories first, then by lower-case name.
pub fn sort_entries(entries: Vec<FileEntry>) -> (r: Vec<FileEntry>)
    ensures
        in_entry_order(r@),
        r@.to_multiset() == entries@.to_multiset(),
{
    broadcast use vstd::multiset::group_multiset_axioms;

    let ghost all = entries@;
    let mut rest = entries;
    let mut out: Vec<FileEntry> = Vec::new();
    proof {
        broadcast use vstd::seq_lib::to_multiset_len;
        assert(out@.to_multiset().len() == 0);
        assert(out@.to_multiset() =~= vstd::multiset::Multiset::<FileEntry>::empty());
    }
    while rest.len() > 0
        invariant
            in_entry_order(out@),
            out@.to_multiset().add(rest@.to_multiset()) == all.to_multiset(),
        decreases rest.len(),
    {
        let ghost before = rest@;
        let x = rest.pop().unwrap();
        assert(before == rest@.push(x));
        let mut p: usize = 0;
        while p < out.len() && entry_before_exec(&out[p], &x)
            invariant
                p <= out.len(),
                p > 0 ==> entry_before(out@[p - 1], x),
            decreases out.len() - p,
        {
            p = p + 1;
        }
        let ghost o = out@;
        proof {
            if p < o.len() {
                crate::manager::lemma_chars_le_total(lower_of(o[p as int].name@), lower_of(x.name@));
                assert(entry_before(x, o[p as int]));
            }
        }
        out.insert(p, x);
        assert(out@ == o.insert(p as int, x));
        assert(in_entry_order(out@)) by {
            assert forall|i: int| 0 <= i < out@.len() - 1 implies entry_before(#[trigger] out@[i], out@[i + 1]) by {
                if i < p - 1 {
                    assert(out@[i] == o[i] && out@[i + 1] == o[i + 1]);
                } else if i == p - 1 {
                } else if i == p {
                    assert(out@[i + 1] == o[p as int]);
                } else {
                    assert(out@[i] == o[i - 1] && out@[i + 1] == o[i]);
                }
            }
        }
        proof {
            vstd::seq_lib::to_multiset_insert(o, p as int, x);
            vstd::seq_lib::to_multiset_build(rest@, x);
            assert(out@.to_multiset().add(rest@.to_multiset()) =~= o.to_multiset().add(before.to_multiset()));
        }
    }
    proof {
        broadcast use vstd::seq_lib::to_multiset_len;
        assert(rest@.to_multiset().len() == 0);
        assert(rest@.to_multiset() =~= vstd::multiset::Multiset::<FileEntry>::empty());
        assert(out@.to_multiset() =~= out@.to_multiset().add(rest@.to_multiset()));
    }
    out
}

} // verus!
