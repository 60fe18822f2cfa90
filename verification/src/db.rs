//! The file record model: what the metadata store holds for every stored
//! object, which records a lookup may return, and which records the
//! background reaper erases.

use vstd::prelude::*;

use crate::config::Tag;
use crate::result::Error;

verus! {

/// Per-kind metadata, set once at ingest and never mutated. The variant
/// matches the media class of the stored bytes, with `File` and `Text`
/// as the generic fallbacks.
#[derive(Clone, Copy, Debug, PartialEq, Eq, Structural)]
pub enum Metadata {
    File,
    Text,
    Image { width: isize, height: isize },
    Video { width: isize, height: isize },
    Audio,
}

/// One stored object's record. `(id, tag)` identifies it; the bytes it
/// describes live in the storage backend under `id`.
#[derive(Clone, Debug)]
pub struct File {
    pub id: String,
    pub tag: String,
    pub filename: String,
    pub metadata: Metadata,
    pub content_type: String,
    pub size: isize,
    /// Soft-delete marker; absent means live.
    pub deleted: Option<bool>,
    /// Set by moderation to keep the bytes despite a soft delete.
    pub reported: Option<bool>,
}

/// Whether the record is soft-deleted.
pub open spec fn spec_is_deleted(f: File) -> bool {
    f.deleted == Some(true)
}

/// Whether moderation has flagged the record.
pub open spec fn spec_is_reported(f: File) -> bool {
    f.reported == Some(true)
}

/// The reaper erases exactly the soft-deleted records that moderation
/// has not flagged.
pub open spec fn spec_should_reap(f: File) -> bool {
    spec_is_deleted(f) && !spec_is_reported(f)
}

/// `spec_should_reap` as a first-class predicate, for use with `filter`.
pub open spec fn reapable() -> spec_fn(File) -> bool {
    |f: File| spec_should_reap(f)
}

impl File {
    /// Whether this record is soft-deleted; a deleted record serves as
    /// `NotFound` even while its bytes still exist.
    pub fn is_deleted(&self) -> (b: bool)
        ensures
            b == spec_is_deleted(*self),
    {
        matches!(self.deleted, Some(true))
    }

    /// Whether the reaper must erase this record's bytes and metadata.
    pub fn should_reap(&self) -> (b: bool)
        ensures
            b == spec_should_reap(*self),
    {
        matches!(self.deleted, Some(true)) && !matches!(self.reported, Some(true))
    }
}

/// A serve or download of a soft-deleted record fails with `NotFound`,
/// exactly as if the record did not exist.
pub fn check_not_deleted(f: &File) -> (r: Result<(), Error>)
    ensures
        r is Ok <==> !spec_is_deleted(*f),
        r matches Err(e) ==> e == Error::NotFound,
{
    if f.is_deleted() {
        Err(Error::NotFound)
    } else {
        Ok(())
    }
}

/// Whether a record with the given present fields passes a tag's gate:
/// either the tag gates on nothing, or at least one gating field is
/// present on the record.
pub open spec fn spec_gate_passes(present: Seq<String>, tag: Tag) -> bool {
    tag.serve_if_field_present@.len() == 0 || exists|i: int, j: int|
        0 <= i < tag.serve_if_field_present@.len() && 0 <= j < present.len()
            && tag.serve_if_field_present@[i]@ == present[j]@
}

/// Decides a tag's serve gate, given the names of the fields that the
/// metadata store reports present on the record.
pub fn gate_passes(present: &Vec<String>, tag: &Tag) -> (b: bool)
    ensures
        b == spec_gate_passes(present@, *tag),
{
    let n = tag.serve_if_field_present.len();
    if n == 0 {
        return true;
    }
    let m = present.len();
    let mut i: usize = 0;
    while i < n
        invariant
            n == tag.serve_if_field_present@.len(),
            m == present@.len(),
            0 <= i <= n,
            forall|a: int, b: int|
                0 <= a < i && 0 <= b < m ==> tag.serve_if_field_present@[a]@ != present@[b]@,
        decreases n - i,
    {
        let mut j: usize = 0;
        while j < m
            invariant
                n == tag.serve_if_field_present@.len(),
                m == present@.len(),
                0 <= i < n,
                0 <= j <= m,
                forall|b: int| 0 <= b < j ==> tag.serve_if_field_present@[i as int]@ != present@[b]@,
            decreases m - j,
        {
            if tag.serve_if_field_present[i] == present[j] {
                return true;
            }
            j += 1;
        }
        i += 1;
    }
    false
}

/// Plans one reaper pass: the indices, in order, of exactly those
/// records that are soft-deleted and not reported. Flagged or live
/// records never appear in the plan.
pub fn reap_candidates(records: &Vec<File>) -> (idx: Vec<usize>)
    ensures
        forall|k: int|
            0 <= k < idx@.len() ==> idx@[k] < records@.len()
                && spec_should_reap(records@[idx@[k] as int]),
        forall|i: int|
            0 <= i < records@.len() && spec_should_reap(records@[i]) ==> exists|k: int|
                0 <= k < idx@.len() && idx@[k] == i,
        forall|k1: int, k2: int| 0 <= k1 < k2 < idx@.len() ==> idx@[k1] < idx@[k2],
        idx@.len() == records@.filter(reapable()).len(),
{
    let n = records.len();
    let mut idx: Vec<usize> = Vec::new();
    let mut i: usize = 0;
    while i < n
        invariant
            n == records@.len(),
            0 <= i <= n,
            forall|k: int|
                0 <= k < idx@.len() ==> idx@[k] < i && spec_should_reap(records@[idx@[k] as int]),
            forall|r: int|
                0 <= r < i && spec_should_reap(records@[r]) ==> exists|k: int|
                    0 <= k < idx@.len() && idx@[k] == r,
            forall|k1: int, k2: int| 0 <= k1 < k2 < idx@.len() ==> idx@[k1] < idx@[k2],
            idx@.len() == records@.take(i as int).filter(reapable()).len(),
        decreases n - i,
    {
        proof {
            lemma_filter_take_step(records@, reapable(), i as int);
        }
        let ghost pre = idx@;
        if records[i].should_reap() {
            idx.push(i);
        }
        proof {
            assert forall|r: int| 0 <= r < i + 1 && spec_should_reap(records@[r]) implies exists|
                k: int,
            | 0 <= k < idx@.len() && idx@[k] == r by {
                if r < i {
                    let k = choose|k: int| 0 <= k < pre.len() && pre[k] == r;
                    assert(idx@[k] == r);
                } else {
                    assert(idx@[idx@.len() - 1] == r);
                }
            }
        }
        i += 1;
    }
    proof {
        assert(records@.take(n as int) =~= records@);
    }
    idx
}

/// Filtering a prefix one element longer keeps the old matches and adds
/// the new element exactly when the predicate holds of it.
proof fn lemma_filter_take_step<A>(s: Seq<A>, pred: spec_fn(A) -> bool, i: int)
    requires
        0 <= i < s.len(),
    ensures
        s.take(i + 1).filter(pred).len() == s.take(i).filter(pred).len() + if pred(s[i]) {
            1int
        } else {
            0int
        },
{
    reveal(Seq::filter);
    assert(s.take(i + 1).drop_last() =~= s.take(i));
    assert(s.take(i + 1).last() == s[i]);
}

} // verus!
