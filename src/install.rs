//! Where an installed release lives on disk, and what is pruned after an install.
use vstd::prelude::*;
use crate::platform::{binary_name, binary_name_spec, PlatformKey};
use crate::text::append;

verus! {

/// `<tool>-<version>`: the directory that holds one release.
pub open spec fn version_dir_spec(tool: Seq<char>, version: Seq<char>) -> Seq<char> {
    tool + seq!['-'] + version
}

/// `<tool>-<version>/<tool>-<arch>-<os>`: the binary unpacked from that release.
pub open spec fn binary_path_spec(tool: Seq<char>, version: Seq<char>, key: PlatformKey) -> Seq<
    char,
> {
    version_dir_spec(tool, version) + seq!['/'] + binary_name_spec(tool, key)
}

/// `entries` without those equal to `keep`, in order.
pub open spec fn without(entries: Seq<Seq<char>>, keep: Seq<char>) -> Seq<Seq<char>>
    decreases entries.len(),
{
    if entries.len() == 0 {
        Seq::empty()
    } else if entries.last() == keep {
        without(entries.drop_last(), keep)
    } else {
        without(entries.drop_last(), keep).push(entries.last())
    }
}

/// The directory for `version` of `tool`.
pub fn version_dir(tool: &str, version: &str) -> (r: String)
    ensures
        r@ == version_dir_spec(tool@, version@),
{
    let mut r = String::new();
    proof { reveal_strlit("-"); }
    append(&mut r, tool);
    append(&mut r, "-");
    append(&mut r, version);
    assert(r@ =~= version_dir_spec(tool@, version@));
    r
}

/// The path of the binary for `key` in the directory of `version`.
pub fn binary_path(tool: &str, version: &str, key: PlatformKey) -> (r: String)
    ensures
        r@ == binary_path_spec(tool@, version@, key),
{
    let mut r = version_dir(tool, version);
    proof { reveal_strlit("/"); }
    append(&mut r, "/");
    let name = binary_name(tool, key);
    append(&mut r, name.as_str());
    r
}

/// The entries of the working directory to remove after `keep` was installed:
/// all but `keep`, in the order listed.
pub fn stale_entries(entries: &Vec<String>, keep: &String) -> (r: Vec<String>)
    ensures
        r.deep_view() == without(entries.deep_view(), keep@),
{
    let mut r: Vec<String> = Vec::new();
    let mut i: usize = 0;
    while i < entries.len()
        invariant
            0 <= i <= entries@.len(),
            r.deep_view() == without(entries.deep_view().subrange(0, i as int), keep@),
        decreases entries@.len() - i,
    {
        let ghost before = entries.deep_view().subrange(0, i as int);
        let ghost after = entries.deep_view().subrange(0, i + 1);
        assert(after.drop_last() =~= before);
        if entries[i] != *keep {
            r.push(entries[i].clone());
            assert(r.deep_view() =~= without(before, keep@).push(entries[i as int]@));
        }
        i = i + 1;
    }
    assert(entries.deep_view().subrange(0, entries@.len() as int) =~= entries.deep_view());
    r
}

/// An entry is pruned exactly when it was listed and is not the kept directory.
pub proof fn lemma_without_contains(entries: Seq<Seq<char>>, keep: Seq<char>, e: Seq<char>)
    ensures
        without(entries, keep).contains(e) <==> (entries.contains(e) && e != keep),
    decreases entries.len(),
{
    if entries.len() > 0 {
        let rest = entries.drop_last();
        let last = entries.last();
        lemma_without_contains(rest, keep, e);
        assert(entries =~= rest.push(last));
        lemma_push_contains(rest, last, e);
        if last != keep {
            lemma_push_contains(without(rest, keep), last, e);
        }
    }
}

proof fn lemma_push_contains(s: Seq<Seq<char>>, x: Seq<char>, e: Seq<char>)
    ensures
        s.push(x).contains(e) <==> (s.contains(e) || e == x),
{
    if s.push(x).contains(e) && e != x {
        let i = choose|i: int| 0 <= i < s.len() + 1 && s.push(x)[i] == e;
        assert(i < s.len());
        assert(s[i] == e);
    }
    if s.contains(e) {
        let i = choose|i: int| 0 <= i < s.len() && s[i] == e;
        assert(s.push(x)[i] == e);
    }
    if e == x {
        assert(s.push(x)[s.len() as int] == e);
    }
}

/// After an install into `keep`, pruning the listed entries leaves exactly one
/// of them: the version directory itself.
pub proof fn lemma_prune_leaves_version_dir(entries: Seq<Seq<char>>, keep: Seq<char>)
    requires
        entries.contains(keep),
    ensures
        entries.to_set().difference(without(entries, keep).to_set()) == set![keep],
{
    assert forall|e: Seq<char>|
        entries.to_set().difference(without(entries, keep).to_set()).contains(e) <==> e
            == keep by {
        lemma_without_contains(entries, keep, e);
    }
    assert(entries.to_set().difference(without(entries, keep).to_set()) =~= set![keep]);
}

} // verus!
