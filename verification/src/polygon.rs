use vstd::prelude::*;

verus! {

/// A 2-D geographic coordinate, carried as the IEEE-754 bit patterns of its
/// two `f64` ordinates: `x` is the longitude, `y` is the latitude, each in
/// degrees.  The engine never interprets the numeric value of an ordinate —
/// all geometry is delegated to the ray-casting and tessellation primitives
/// that run outside it — so an opaque 64-bit token per ordinate is the exact
/// model of what the engine reads.  The bit pattern `0` is the number `0.0`.
#[derive(Clone, Copy, PartialEq, Eq, Structural, Debug)]
pub struct Coord {
    pub x: u64,
    pub y: u64,
}

/// The mathematical value of a polygon: its exterior ring and its hole rings,
/// each an ordered coordinate sequence.  No closure of a ring is required or
/// enforced.
pub ghost struct PolyView {
    pub exterior: Seq<Coord>,
    pub holes: Seq<Seq<Coord>>,
}

/// A region polygon: one exterior ring plus zero or more interior rings
/// (holes).  A point inside a hole is not contained by the polygon.
#[derive(Clone, Debug)]
pub struct Polygon {
    pub exterior: Vec<Coord>,
    pub holes: Vec<Vec<Coord>>,
}

impl View for Polygon {
    type V = PolyView;

    open spec fn view(&self) -> PolyView {
        PolyView {
            exterior: self.exterior@,
            holes: self.holes@.map_values(|h: Vec<Coord>| h@),
        }
    }
}

/// The values of a sequence of polygons.
pub open spec fn views_of(polys: Seq<Polygon>) -> Seq<PolyView> {
    polys.map_values(|p: Polygon| p@)
}

} // verus!
