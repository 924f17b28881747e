//! Segment descriptors and notification routing.
//!
//! A segment is a fixed window of the device's address space mirrored
//! host-side as a typed state.  Its descriptor carries the window's byte
//! offset and size and, for segments the device changes on its own, the
//! single bit of the 32-bit notification mask that marks the segment stale.

use vstd::prelude::*;

verus! {

/// A typed segment: the live host-side mirror of one window.
#[derive(Clone, Copy, Debug, PartialEq, Eq, Default)]
pub struct TcKonnektSegment<T> {
    /// The typed state; mutated only by parsing bytes read from the device
    /// or by local preparation of a host-initiated write.
    pub data: T,
}

/// The fixed facts about one segment window.
#[derive(Clone, Copy, Debug, PartialEq, Eq)]
pub struct SegmentDescriptor {
    /// The byte address of the window in device space.
    pub offset: usize,
    /// The byte length of the window.
    pub size: usize,
    /// The notification bit the device raises when this window changed
    /// out-of-band, if it ever does.
    pub notify_flag: Option<u32>,
}

/// Whether a notification mask marks this segment stale: the segment has a
/// flag and shares at least one bit with the mask.
pub open spec fn segment_notified(d: SegmentDescriptor, mask: u32) -> bool {
    match d.notify_flag {
        Some(flag) => flag & mask != 0u32,
        None => false,
    }
}

/// Whether this segment's descriptor matches a notification mask.
pub fn descriptor_matches_mask(d: &SegmentDescriptor, mask: u32) -> (r: bool)
    ensures
        r == segment_notified(*d, mask),
{
    match d.notify_flag {
        Some(flag) => flag & mask != 0,
        None => false,
    }
}

/// The indices of exactly the segments of `descs` that `mask` marks stale,
/// in registry order: an index is in the result if and only if its
/// descriptor has a flag sharing a bit with `mask`, and the result is
/// strictly increasing.  Segments without a flag are never selected.
pub fn notified_indices(descs: &Vec<SegmentDescriptor>, mask: u32) -> (r: Vec<usize>)
    ensures
        forall|j: int|
            0 <= j < r@.len() ==> (r@[j] as int) < descs@.len() && segment_notified(
                descs@[r@[j] as int],
                mask,
            ),
        forall|i: int|
            0 <= i < descs@.len() && segment_notified(descs@[i], mask) ==> r@.contains(
                i as usize,
            ),
        forall|j1: int, j2: int| 0 <= j1 < j2 < r@.len() ==> r@[j1] < r@[j2],
{
    let count: usize = descs.len();
    let mut out: Vec<usize> = Vec::new();
    let mut k: usize = 0;
    while k < count
        invariant
            count == descs@.len(),
            0 <= k <= count,
            forall|j: int|
                0 <= j < out@.len() ==> (out@[j] as int) < k && segment_notified(
                    descs@[out@[j] as int],
                    mask,
                ),
            forall|i: int|
                0 <= i < k && segment_notified(descs@[i], mask) ==> out@.contains(i as usize),
            forall|j1: int, j2: int| 0 <= j1 < j2 < out@.len() ==> out@[j1] < out@[j2],
        decreases count - k,
    {
        let ghost prev = out@;
        if descriptor_matches_mask(&descs[k], mask) {
            out.push(k);
            proof {
                assert(forall|i: int|
                    0 <= i < k && segment_notified(descs@[i], mask) ==> prev.contains(i as usize));
                assert forall|i: int|
                    0 <= i < k + 1 && segment_notified(descs@[i], mask) implies out@.contains(
                    i as usize,
                ) by {
                    if i < k {
                        let w = choose|w: int| 0 <= w < prev.len() && prev[w] == i as usize;
                        assert(out@[w] == i as usize);
                    } else {
                        assert(out@[out@.len() - 1] == k);
                    }
                }
            }
        }
        k = k + 1;
    }
    out
}

} // verus!
