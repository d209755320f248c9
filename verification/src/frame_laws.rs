//! What holds of the frames that a memory map yields.

use vstd::prelude::*;
use crate::addr::PAGE_SIZE;
use crate::memory::{frames_from, usable_frames, MemoryRegion, MemoryRegionKind};

verus! {

/// The usable bytes of the regions from index `from` on.
pub open spec fn usable_bytes_from(regions: Seq<MemoryRegion>, from: int) -> nat
    decreases regions.len() - from,
{
    if 0 <= from < regions.len() {
        regions[from].usable_bytes() + usable_bytes_from(regions, from + 1)
    } else {
        0
    }
}

/// The sum of the sizes of the usable regions of a memory map.
pub open spec fn usable_bytes(regions: Seq<MemoryRegion>) -> nat {
    usable_bytes_from(regions, 0)
}

/// The number of frames of the regions from index `from` up to `to`, `to`
/// excluded.
spec fn frames_between(regions: Seq<MemoryRegion>, from: int, to: int) -> nat
    decreases to - from,
{
    if from < to {
        regions[from].frame_count() + frames_between(regions, from + 1, to)
    } else {
        0
    }
}

/// Whether every usable region of the map begins and ends on a frame boundary.
pub open spec fn page_aligned(regions: Seq<MemoryRegion>) -> bool {
    forall|i: int| 0 <= i < regions.len() ==> (#[trigger] regions[i]).page_aligned()
}

/// Whether no two usable regions of the map share a byte.
pub open spec fn disjoint(regions: Seq<MemoryRegion>) -> bool {
    forall|i: int, j: int|
        0 <= i < j < regions.len() && (#[trigger] regions[i]).yields_frames()
            && (#[trigger] regions[j]).yields_frames() ==> regions[i].end <= regions[j].start
            || regions[j].end <= regions[i].start
}

/// Whether `frame` is the first address of a frame that lies wholly inside
/// the region, and the region is usable.
pub open spec fn holds_frame(region: MemoryRegion, frame: u64) -> bool {
    &&& region.kind == MemoryRegionKind::Usable
    &&& region.start <= frame
    &&& frame + PAGE_SIZE <= region.end
}

/// Whether `frame` lies wholly inside some usable region of the map.
pub open spec fn within_usable(regions: Seq<MemoryRegion>, frame: u64) -> bool {
    exists|j: int| 0 <= j < regions.len() && holds_frame(#[trigger] regions[j], frame)
}

proof fn lemma_count_from(regions: Seq<MemoryRegion>, from: int)
    requires
        page_aligned(regions),
        0 <= from,
    ensures
        frames_from(regions, from).len() * PAGE_SIZE == usable_bytes_from(regions, from),
    decreases regions.len() - from,
{
    if from < regions.len() {
        lemma_count_from(regions, from + 1);
        let r = regions[from];
        assert(r.page_aligned());
        assert(r.frames().len() * PAGE_SIZE == r.usable_bytes());
    }
}

/// The region and the stride that the frame at `index` comes from: the frame
/// is that stride's, and `index` counts the strides of the regions before it
/// and the strides before it in its own region.
proof fn lemma_origin(regions: Seq<MemoryRegion>, from: int, index: int) -> (origin: (int, int))
    requires
        0 <= from,
        0 <= index < frames_from(regions, from).len(),
    ensures
        from <= origin.0 < regions.len(),
        0 <= origin.1 < regions[origin.0].frame_count(),
        frames_from(regions, from)[index] == regions[origin.0].frame_at(origin.1),
        index == frames_between(regions, from, origin.0) + origin.1,
    decreases regions.len() - from,
{
    let here = regions[from].frames();
    if index < here.len() {
        (from, index)
    } else {
        let origin = lemma_origin(regions, from + 1, index - here.len());
        origin
    }
}

proof fn lemma_frames_between_grows(regions: Seq<MemoryRegion>, from: int, mid: int, to: int)
    requires
        from <= mid < to,
    ensures
        frames_between(regions, from, to) >= frames_between(regions, from, mid)
            + regions[mid].frame_count(),
    decreases mid - from,
{
    if from < mid {
        lemma_frames_between_grows(regions, from + 1, mid, to);
    } else {
        assert(frames_between(regions, mid + 1, to) >= 0);
    }
}

/// A map whose usable regions begin and end on frame boundaries yields as
/// many frames as its usable bytes hold whole frames.
pub proof fn lemma_frame_count(regions: Seq<MemoryRegion>)
    requires
        page_aligned(regions),
    ensures
        usable_frames(regions).len() == usable_bytes(regions) / (PAGE_SIZE as nat),
{
    lemma_count_from(regions, 0);
}

/// Every frame that a map yields begins on a frame boundary.
pub proof fn lemma_frames_aligned(regions: Seq<MemoryRegion>)
    ensures
        forall|i: int|
            0 <= i < usable_frames(regions).len() ==> (#[trigger] usable_frames(regions)[i])
                % PAGE_SIZE == 0,
{
    assert forall|i: int| 0 <= i < usable_frames(regions).len() implies (#[trigger] usable_frames(
        regions,
    )[i]) % PAGE_SIZE == 0 by {
        let origin = lemma_origin(regions, 0, i);
    }
}

/// Every frame that a map yields lies wholly inside one of its usable
/// regions, where those begin and end on frame boundaries.
pub proof fn lemma_frames_within_usable(regions: Seq<MemoryRegion>)
    requires
        page_aligned(regions),
    ensures
        forall|i: int|
            0 <= i < usable_frames(regions).len() ==> within_usable(
                regions,
                #[trigger] usable_frames(regions)[i],
            ),
{
    assert forall|i: int| 0 <= i < usable_frames(regions).len() implies within_usable(
        regions,
        #[trigger] usable_frames(regions)[i],
    ) by {
        let origin = lemma_origin(regions, 0, i);
        lemma_stride_inside(regions[origin.0], origin.1);
        assert(holds_frame(regions[origin.0], usable_frames(regions)[i]));
    }
}

proof fn lemma_stride_inside(region: MemoryRegion, k: int)
    requires
        region.page_aligned(),
        0 <= k < region.frame_count(),
    ensures
        region.frame_at(k) == region.start + k * PAGE_SIZE,
        holds_frame(region, region.frame_at(k)),
{
}

/// No frame is yielded twice by a map whose usable regions begin and end on
/// frame boundaries and share no byte.
pub proof fn lemma_frames_distinct(regions: Seq<MemoryRegion>)
    requires
        page_aligned(regions),
        disjoint(regions),
    ensures
        forall|i: int, j: int|
            0 <= i < j < usable_frames(regions).len() ==> usable_frames(regions)[i]
                != usable_frames(regions)[j],
{
    assert forall|i: int, j: int| 0 <= i < j < usable_frames(regions).len() implies usable_frames(
        regions,
    )[i] != usable_frames(regions)[j] by {
        let a = lemma_origin(regions, 0, i);
        let b = lemma_origin(regions, 0, j);
        lemma_stride_inside(regions[a.0], a.1);
        lemma_stride_inside(regions[b.0], b.1);
        if a.0 < b.0 {
            assert(regions[a.0].yields_frames() && regions[b.0].yields_frames());
        } else if b.0 < a.0 {
            lemma_frames_between_grows(regions, 0, b.0, a.0);
            assert(false);
        } else {
            assert(a.1 != b.1);
        }
    }
}

} // verus!
