//! The 16-entry table from corner pattern to contour segments.

use vstd::prelude::*;

verus! {

/// One contour segment inside a cell. Endpoints are in half-cell units:
/// 0 is the cell's left or top edge, 1 its centre line, 2 its right or
/// bottom edge.
#[derive(Clone, Copy, PartialEq, Eq, Structural, Debug)]
pub struct Segment {
    pub x0: u8,
    pub y0: u8,
    pub x1: u8,
    pub y1: u8,
}

/// The contour table: the segments drawn for each corner pattern.
/// Patterns 5 and 10 are the ambiguous saddle cases; each resolves to a
/// fixed choice of the two valid topologies, and the two choices differ.
pub open spec fn segments_of(p: int) -> Seq<Segment> {
    if p == 1 || p == 14 {
        seq![Segment { x0: 0, y0: 1, x1: 1, y1: 2 }]
    } else if p == 2 || p == 13 {
        seq![Segment { x0: 1, y0: 2, x1: 2, y1: 1 }]
    } else if p == 3 || p == 12 {
        seq![Segment { x0: 0, y0: 1, x1: 2, y1: 1 }]
    } else if p == 4 || p == 11 {
        seq![Segment { x0: 1, y0: 0, x1: 2, y1: 1 }]
    } else if p == 5 {
        seq![
            Segment { x0: 1, y0: 2, x1: 2, y1: 1 },
            Segment { x0: 0, y0: 1, x1: 1, y1: 0 },
        ]
    } else if p == 6 || p == 9 {
        seq![Segment { x0: 1, y0: 0, x1: 1, y1: 2 }]
    } else if p == 7 || p == 8 {
        seq![Segment { x0: 0, y0: 1, x1: 1, y1: 0 }]
    } else if p == 10 {
        seq![
            Segment { x0: 0, y0: 1, x1: 1, y1: 2 },
            Segment { x0: 1, y0: 0, x1: 2, y1: 1 },
        ]
    } else {
        seq![]
    }
}

/// Maps a corner pattern to the segments drawn inside its cell: none for a
/// uniform cell, two for a saddle, one otherwise.
pub fn resolve(pattern: i64) -> (segs: Vec<Segment>)
    requires
        0 <= pattern <= 15,
    ensures
        segs@ == segments_of(pattern as int),
        segs@.len() <= 2,
        (pattern == 0 || pattern == 15) ==> segs@.len() == 0,
        (pattern == 5 || pattern == 10) ==> segs@.len() == 2,
        (pattern != 0 && pattern != 15 && pattern != 5 && pattern != 10) ==> segs@.len() == 1,
{
    let mut segs: Vec<Segment> = Vec::new();
    if pattern == 1 || pattern == 14 {
        segs.push(Segment { x0: 0, y0: 1, x1: 1, y1: 2 });
    } else if pattern == 2 || pattern == 13 {
        segs.push(Segment { x0: 1, y0: 2, x1: 2, y1: 1 });
    } else if pattern == 3 || pattern == 12 {
        segs.push(Segment { x0: 0, y0: 1, x1: 2, y1: 1 });
    } else if pattern == 4 || pattern == 11 {
        segs.push(Segment { x0: 1, y0: 0, x1: 2, y1: 1 });
    } else if pattern == 5 {
        segs.push(Segment { x0: 1, y0: 2, x1: 2, y1: 1 });
        segs.push(Segment { x0: 0, y0: 1, x1: 1, y1: 0 });
    } else if pattern == 6 || pattern == 9 {
        segs.push(Segment { x0: 1, y0: 0, x1: 1, y1: 2 });
    } else if pattern == 7 || pattern == 8 {
        segs.push(Segment { x0: 0, y0: 1, x1: 1, y1: 0 });
    } else if pattern == 10 {
        segs.push(Segment { x0: 0, y0: 1, x1: 1, y1: 2 });
        segs.push(Segment { x0: 1, y0: 0, x1: 2, y1: 1 });
    }
    proof {
        assert(segs@ =~= segments_of(pattern as int));
    }
    segs
}

/// Complement symmetry of the contour table: swapping which side of the
/// contour counts as inside leaves the drawn segments unchanged. The two
/// saddle patterns are each other's complement but carry the two opposite
/// topology choices, so they are the one exception.
pub proof fn lemma_complement_symmetry(p: int)
    requires
        0 <= p <= 15,
        p != 5,
        p != 10,
    ensures
        segments_of(p).to_set() == segments_of(15 - p).to_set(),
{
    assert(segments_of(p) =~= segments_of(15 - p));
}

} // verus!
