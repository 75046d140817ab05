//! Orphan-chain detection.
//!
//! The monitor guards against the node having silently re-organized onto a
//! minority fork: a window of the node's historical block hashes is held
//! against the same heights as seen by an independent external source. The
//! fetches belong to the caller; the probe heights and the mismatch decision
//! are here.

use crate::service::NodeAdapterService;
use vstd::prelude::*;

verus! {

/// `a - b`, stopping at zero.
pub open spec fn spec_saturating_sub(a: u64, b: u64) -> u64 {
    if a >= b {
        (a - b) as u64
    } else {
        0
    }
}

/// The probe heights checked against the external source: 50, 100 and 200
/// blocks below the external tip, highest first, never below zero.
pub open spec fn spec_probe_heights(tip: u64) -> Seq<u64> {
    seq![
        spec_saturating_sub(tip, 50),
        spec_saturating_sub(tip, 100),
        spec_saturating_sub(tip, 200),
    ]
}

/// Whether some local block carries `hash`.
pub open spec fn local_has_hash(local: Seq<(u64, String)>, hash: Seq<char>) -> bool {
    exists|j: int| 0 <= j < local.len() && local[j].1@ == hash
}

/// Whether the externally seen block at position `i` has no local block with
/// the same hash.
pub open spec fn mismatch_at(scan: Seq<(u64, String)>, local: Seq<(u64, String)>, i: int) -> bool {
    !local_has_hash(local, scan[i].1@)
}

/// The heights probed for a given external tip height.
pub fn probe_heights(tip: u64) -> (r: Vec<u64>)
    ensures
        r@ == spec_probe_heights(tip),
{
    let mut r: Vec<u64> = Vec::new();
    r.push(tip.saturating_sub(50));
    r.push(tip.saturating_sub(100));
    r.push(tip.saturating_sub(200));
    proof {
        assert(r@ =~= spec_probe_heights(tip));
    }
    r
}

fn local_contains_hash(local: &Vec<(u64, String)>, hash: &String) -> (r: bool)
    ensures
        r == local_has_hash(local@, hash@),
{
    let mut j: usize = 0;
    while j < local.len()
        invariant
            j <= local@.len(),
            forall|k: int| 0 <= k < j ==> local@[k].1@ != hash@,
        decreases local@.len() - j,
    {
        let entry = &local[j];
        if entry.1 == *hash {
            return true;
        }
        j += 1;
    }
    false
}

/// The first externally seen block whose hash no local block carries, in
/// probe order (highest height first), if any: the position at which
/// detection stops.
pub fn first_orphan_mismatch(scan_blocks: &Vec<(u64, String)>, local_blocks: &Vec<(u64, String)>)
    -> (r: Option<usize>)
    ensures
        match r {
            Some(i) => i < scan_blocks@.len() && mismatch_at(scan_blocks@, local_blocks@, i as int)
                && (forall|j: int|
                0 <= j < i ==> !mismatch_at(scan_blocks@, local_blocks@, j)),
            None => forall|j: int|
                0 <= j < scan_blocks@.len() ==> !mismatch_at(scan_blocks@, local_blocks@, j),
        },
{
    let mut i: usize = 0;
    while i < scan_blocks.len()
        invariant
            i <= scan_blocks@.len(),
            forall|j: int| 0 <= j < i ==> !mismatch_at(scan_blocks@, local_blocks@, j),
        decreases scan_blocks@.len() - i,
    {
        let entry = &scan_blocks[i];
        if !local_contains_hash(local_blocks, &entry.1) {
            return Some(i);
        }
        i += 1;
    }
    None
}

impl NodeAdapterService {
    /// Whether the node sits on an orphaned chain: it reports itself synced,
    /// yet some externally seen block hash in the probe window has no local
    /// counterpart. While the node is not synced there is no reliable
    /// signal, and the answer is no.
    pub fn check_if_is_orphan_chain(
        &self,
        is_synced: bool,
        scan_blocks: &Vec<(u64, String)>,
        local_blocks: &Vec<(u64, String)>,
    ) -> (r: bool)
        ensures
            r == (is_synced && exists|i: int|
                0 <= i < scan_blocks@.len() && mismatch_at(scan_blocks@, local_blocks@, i)),
    {
        if !is_synced {
            return false;
        }
        match first_orphan_mismatch(scan_blocks, local_blocks) {
            Some(i) => {
                proof {
                    assert(mismatch_at(scan_blocks@, local_blocks@, i as int));
                }
                true
            },
            None => false,
        }
    }
}

} // verus!
