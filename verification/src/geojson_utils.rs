use vstd::prelude::*;

use crate::polygon::{Coord, Polygon, PolyView};

verus! {

/// The coordinate a raw ordinate list converts to: the first two ordinates
/// where there are at least two, and the origin (bit pattern of `0.0`)
/// otherwise.  The silent coercion of a short tuple to the origin mirrors
/// the conversion boundary's documented behaviour.
pub open spec fn coerce_coord(c: Seq<u64>) -> Coord {
    if c.len() >= 2 {
        Coord { x: c[0], y: c[1] }
    } else {
        Coord { x: 0, y: 0 }
    }
}

/// The coordinate ring a raw ring converts to, pointwise.
pub open spec fn coerce_ring(r: Seq<Seq<u64>>) -> Seq<Coord> {
    r.map_values(|c: Seq<u64>| coerce_coord(c))
}

/// The polygon a non-empty raw ring list converts to: ring 0 is the
/// exterior, rings 1.. are the holes.
pub open spec fn converted_polygon(coords: Seq<Seq<Seq<u64>>>) -> PolyView {
    PolyView {
        exterior: coerce_ring(coords[0]),
        holes: coords.subrange(1, coords.len() as int).map_values(|r: Seq<Seq<u64>>| coerce_ring(r)),
    }
}

/// Converts one raw ring of ordinate lists (each ordinate an `f64` bit
/// pattern) into a coordinate ring, coercing short tuples to the origin.
fn convert_ring(ring: &Vec<Vec<u64>>) -> (r: Vec<Coord>)
    ensures
        r@ == coerce_ring(ring.deep_view()),
{
    let mut out: Vec<Coord> = Vec::new();
    let n = ring.len();
    for j in 0..n
        invariant
            n == ring.len(),
            out@ == coerce_ring(ring.deep_view().take(j as int)),
    {
        let c = &ring[j];
        let coord = if c.len() >= 2 {
            Coord { x: c[0], y: c[1] }
        } else {
            Coord { x: 0, y: 0 }
        };
        out.push(coord);
        proof {
            assert(coerce_ring(ring.deep_view().take(j + 1))
                =~= coerce_ring(ring.deep_view().take(j as int)).push(coerce_coord(ring.deep_view()[j as int])));
        }
    }
    proof {
        assert(ring.deep_view().take(n as int) =~= ring.deep_view());
    }
    out
}

/// Converts a raw GeoJSON-style ring list `[ring][point][ordinate]` (each
/// ordinate an `f64` bit pattern) into a polygon: ring 0 becomes the
/// exterior, the remaining rings become holes.  A coordinate with fewer than
/// two ordinates is coerced to the origin rather than rejected.  Returns
/// nothing exactly when there is no ring or the exterior ring is empty.
pub fn convert_coordinates_to_polygon(coords: &Vec<Vec<Vec<u64>>>) -> (r: Option<Polygon>)
    ensures
        match r {
            Option::None => coords@.len() == 0 || coords@[0]@.len() == 0,
            Option::Some(p) => {
                &&& coords@.len() > 0
                &&& coords@[0]@.len() > 0
                &&& p@ == converted_polygon(coords.deep_view())
            },
        },
{
    if coords.len() == 0 || coords[0].len() == 0 {
        return Option::None;
    }
    let exterior = convert_ring(&coords[0]);
    let mut holes: Vec<Vec<Coord>> = Vec::new();
    let n = coords.len();
    let mut i: usize = 1;
    while i < n
        invariant
            1 <= i <= n,
            n == coords.len(),
            holes@.map_values(|h: Vec<Coord>| h@)
                == coords.deep_view().subrange(1, i as int).map_values(|r: Seq<Seq<u64>>| coerce_ring(r)),
        decreases n - i,
    {
        let h = convert_ring(&coords[i]);
        holes.push(h);
        proof {
            assert(coords.deep_view().subrange(1, i + 1)
                =~= coords.deep_view().subrange(1, i as int).push(coords.deep_view()[i as int]));
            assert(coords.deep_view().subrange(1, i + 1).map_values(|r: Seq<Seq<u64>>| coerce_ring(r))
                =~= coords.deep_view().subrange(1, i as int).map_values(|r: Seq<Seq<u64>>| coerce_ring(r))
                    .push(coerce_ring(coords.deep_view()[i as int])));
            assert(holes@.map_values(|h: Vec<Coord>| h@)
                =~= holes@.drop_last().map_values(|h: Vec<Coord>| h@).push(holes@.last()@));
        }
        i = i + 1;
    }
    let p = Polygon { exterior, holes };
    proof {
        assert(coords.deep_view()[0] =~= coords[0].deep_view());
        assert(p@.exterior == converted_polygon(coords.deep_view()).exterior);
        assert(p@.holes =~= converted_polygon(coords.deep_view()).holes);
    }
    Option::Some(p)
}

/// Whether at least one answer in a list of per-polygon containment answers
/// is positive: containment over a region set is the logical OR of the
/// per-polygon ray-casting tests.
pub open spec fn any_hit(hits: Seq<bool>) -> bool {
    exists|i: int| 0 <= i < hits.len() && hits[i]
}

/// The exact containment test over a region set, given the per-polygon
/// answers of the ray-casting primitive for one point (`hits[i]` is the
/// primitive's answer for polygon `i`): true exactly when some polygon
/// contains the point.
pub fn point_in_polygons(hits: &[bool]) -> (r: bool)
    ensures
        r == any_hit(hits@),
{
    let n = hits.len();
    for i in 0..n
        invariant
            n == hits@.len(),
            forall|j: int| 0 <= j < i ==> !hits@[j],
    {
        if hits[i] {
            return true;
        }
    }
    false
}

} // verus!
