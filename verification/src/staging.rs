//! The staging inspector: whether the index holds anything to commit.

use vstd::prelude::*;

verus! {

/// The path is new in the index.
pub const INDEX_NEW: u32 = 0x01;

/// The path is modified in the index.
pub const INDEX_MODIFIED: u32 = 0x02;

/// The path is renamed in the index.
pub const INDEX_RENAMED: u32 = 0x08;

/// The path has changed its type in the index.
pub const INDEX_TYPECHANGE: u32 = 0x10;

/// The status of one path, as the repository reports it: a set of flags,
/// one bit each.
#[derive(Clone, Copy, Debug, PartialEq, Eq, Structural)]
pub struct EntryStatus {
    pub bits: u32,
}

/// How the repository is asked for its status.
#[derive(Clone, Copy, Debug, PartialEq, Eq, Structural)]
pub struct StatusQuery {
    pub include_untracked: bool,
    pub include_ignored: bool,
    pub renames_head_to_index: bool,
}

impl EntryStatus {
    /// Whether a flag of `mask` is set.
    pub open spec fn has(self, mask: u32) -> bool {
        self.bits & mask != 0
    }

    /// Whether the path is staged: new, modified, renamed or changed in type
    /// in the index, against HEAD. What the working tree holds does not count.
    pub open spec fn is_staged(self) -> bool {
        self.has(INDEX_NEW) || self.has(INDEX_MODIFIED) || self.has(INDEX_RENAMED) || self.has(
            INDEX_TYPECHANGE,
        )
    }

    /// Whether the path is staged.
    pub fn staged(&self) -> (r: bool)
        ensures
            r == self.is_staged(),
    {
        is_index_new(self.bits) || is_index_modified(self.bits) || is_index_renamed(self.bits)
            || is_index_typechange(self.bits)
    }
}

/// Whether a path of `entries` is staged.
pub open spec fn any_staged(entries: Seq<EntryStatus>) -> bool {
    exists|i: int| 0 <= i < entries.len() && entries[i].is_staged()
}

/// The query to run before the statuses are inspected: untracked and
/// ignored paths are left out, and renames between HEAD and the index are
/// looked for.
pub fn status_query() -> (r: StatusQuery)
    ensures
        !r.include_untracked,
        !r.include_ignored,
        r.renames_head_to_index,
{
    StatusQuery { include_untracked: false, include_ignored: false, renames_head_to_index: true }
}

/// Whether anything is staged among the statuses that the repository
/// reported.
pub fn has_staged_changes(entries: &[EntryStatus]) -> (r: bool)
    ensures
        r == any_staged(entries@),
{
    let mut i: usize = 0;
    while i < entries.len()
        invariant
            i <= entries.len(),
            forall|j: int| 0 <= j < i ==> !entries@[j].is_staged(),
        decreases entries.len() - i,
    {
        if entries[i].staged() {
            return true;
        }
        i += 1;
    }
    false
}

/// Only the four index flags decide whether a path is staged. What the
/// other flags say (of the working tree, of ignored paths, of conflicts, of
/// a removal from the index) changes nothing.
pub proof fn lemma_index_flags_decide(e: EntryStatus)
    ensures
        e.is_staged() <==> e.bits & (INDEX_NEW | INDEX_MODIFIED | INDEX_RENAMED | INDEX_TYPECHANGE)
            != 0,
{
    let bits = e.bits;
    assert((bits & 0x01u32 != 0 || bits & 0x02u32 != 0 || bits & 0x08u32 != 0 || bits & 0x10u32
        != 0) <==> bits & (0x01u32 | 0x02u32 | 0x08u32 | 0x10u32) != 0) by (bit_vector);
}

/// Where no reported path carries one of the four index flags, nothing is
/// staged: so it is where nothing is reported at all, and where only the
/// working tree has changed.
pub proof fn lemma_clean_index(entries: Seq<EntryStatus>)
    requires
        forall|i: int|
            0 <= i < entries.len() ==> (#[trigger] entries[i]).bits & (INDEX_NEW | INDEX_MODIFIED
                | INDEX_RENAMED | INDEX_TYPECHANGE) == 0,
    ensures
        !any_staged(entries),
{
    assert forall|i: int| 0 <= i < entries.len() implies !entries[i].is_staged() by {
        lemma_index_flags_decide(entries[i]);
    }
}

/// `git2::Status::is_index_new`, on the status that `git2::Status::from_bits_truncate`
/// makes of `bits`: whether the flag `INDEX_NEW`, the lowest bit, is set.
#[verifier::external_body]
fn is_index_new(bits: u32) -> (r: bool)
    ensures
        r == (bits & INDEX_NEW != 0),
{
    git2::Status::from_bits_truncate(bits).is_index_new()
}

/// `git2::Status::is_index_modified`, on the status that
/// `git2::Status::from_bits_truncate` makes of `bits`: whether the flag
/// `INDEX_MODIFIED`, the second bit, is set.
#[verifier::external_body]
fn is_index_modified(bits: u32) -> (r: bool)
    ensures
        r == (bits & INDEX_MODIFIED != 0),
{
    git2::Status::from_bits_truncate(bits).is_index_modified()
}

/// `git2::Status::is_index_renamed`, on the status that
/// `git2::Status::from_bits_truncate` makes of `bits`: whether the flag
/// `INDEX_RENAMED`, the fourth bit, is set.
#[verifier::external_body]
fn is_index_renamed(bits: u32) -> (r: bool)
    ensures
        r == (bits & INDEX_RENAMED != 0),
{
    git2::Status::from_bits_truncate(bits).is_index_renamed()
}

/// `git2::Status::is_index_typechange`, on the status that
/// `git2::Status::from_bits_truncate` makes of `bits`: whether the flag
/// `INDEX_TYPECHANGE`, the fifth bit, is set.
#[verifier::external_body]
fn is_index_typechange(bits: u32) -> (r: bool)
    ensures
        r == (bits & INDEX_TYPECHANGE != 0),
{
    git2::Status::from_bits_truncate(bits).is_index_typechange()
}

} // verus!
