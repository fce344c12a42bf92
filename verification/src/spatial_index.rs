use vstd::prelude::*;

use std::collections::HashSet;

use crate::error::GeoContainsError;
use crate::geojson_utils::{any_hit, point_in_polygons};
use crate::polygon::{views_of, Polygon, PolyView};

verus! {

broadcast use vstd::std_specs::hash::group_hash_axioms;

/// The default tessellation resolution: a mid-range granularity, a
/// general-purpose balance of index size against approximation tightness.
pub const DEFAULT_RESOLUTION: u8 = 9;

/// The finest tessellation resolution the cell identifier space offers.
pub const MAX_RESOLUTION: u8 = 15;

/// The concatenation of the per-polygon cell lists; an index build stores
/// the distinct cells of this, i.e. the union of the fills' cell sets.
pub open spec fn concat_fills(fills: Seq<Seq<u64>>) -> Seq<u64>
    decreases fills.len(),
{
    if fills.len() == 0 {
        Seq::empty()
    } else {
        concat_fills(fills.drop_last()) + fills.last()
    }
}

/// A cell stands in the concatenation of the fills exactly when some fill
/// holds it.
pub proof fn lemma_concat_fills_contains(fills: Seq<Seq<u64>>, c: u64)
    ensures
        concat_fills(fills).contains(c) <==> exists|i: int| 0 <= i < fills.len() && fills[i].contains(c),
    decreases fills.len(),
{
    if fills.len() > 0 {
        lemma_concat_fills_contains(fills.drop_last(), c);
        if concat_fills(fills).contains(c) {
            let k = choose|k: int| 0 <= k < concat_fills(fills).len() && concat_fills(fills)[k] == c;
            if k < concat_fills(fills.drop_last()).len() {
                assert(concat_fills(fills.drop_last()).contains(c));
                let i = choose|i: int| 0 <= i < fills.drop_last().len() && fills.drop_last()[i].contains(c);
                assert(fills[i].contains(c));
            } else {
                assert(fills.last()[k - concat_fills(fills.drop_last()).len()] == c);
                assert(fills[fills.len() - 1].contains(c));
            }
        }
        if exists|i: int| 0 <= i < fills.len() && fills[i].contains(c) {
            let i = choose|i: int| 0 <= i < fills.len() && fills[i].contains(c);
            if i < fills.len() - 1 {
                assert(fills.drop_last()[i].contains(c));
                let k = choose|k: int| 0 <= k < concat_fills(fills.drop_last()).len()
                    && concat_fills(fills.drop_last())[k] == c;
                assert(concat_fills(fills)[k] == c);
            } else {
                let k = choose|k: int| 0 <= k < fills.last().len() && fills.last()[k] == c;
                assert(concat_fills(fills)[concat_fills(fills.drop_last()).len() + k] == c);
            }
        }
    }
}

/// Whether a cell occurs in a cell list.
fn cells_contain(cells: &Vec<u64>, c: u64) -> (r: bool)
    ensures
        r == cells@.contains(c),
{
    let n = cells.len();
    for i in 0..n
        invariant
            n == cells@.len(),
            forall|j: int| 0 <= j < i ==> cells@[j] != c,
    {
        if cells[i] == c {
            return true;
        }
    }
    false
}

/// A spatial index over a region set: the polygons, a tessellation
/// resolution, and — once built — the duplicate-free list of cells covering
/// the polygons, queried as a set.
///
/// The floating-point geometry primitives run outside the engine: a caller
/// hands `build_index` the per-polygon cell fills and `contains` the point's
/// cell and per-polygon ray-casting answers, and the engine makes every
/// decision over them.
pub struct SpatialIndex {
    polygons: Vec<Polygon>,
    indexed: bool,
    h3_cells: Vec<u64>,
    resolution: u8,
}

impl SpatialIndex {
    /// The values of the indexed polygons.
    pub closed spec fn polys(self) -> Seq<PolyView> {
        views_of(self.polygons@)
    }

    /// The tessellation resolution the index is configured for.
    pub closed spec fn res(self) -> u8 {
        self.resolution
    }

    /// Whether the index has been built.
    pub closed spec fn is_indexed(self) -> bool {
        self.indexed
    }

    /// The stored cell list: after a build, the distinct cells of the
    /// fills, in first-appearance order.
    pub closed spec fn cells_seq(self) -> Seq<u64> {
        self.h3_cells@
    }

    /// The stored cells as a set: membership is all a query reads.
    pub open spec fn cells_set(self) -> Set<u64> {
        self.cells_seq().to_set()
    }

    /// What a containment query answers, given the point's tessellation cell
    /// (`cell`, nothing when the coordinates cannot be mapped) and the
    /// per-polygon answers of the exact ray-casting test for the point
    /// (`hits`).  Unbuilt, the query is the exact test alone; built, it is
    /// false for an unmappable point, and otherwise the cell-set hit OR-ed
    /// with the exact test.
    pub open spec fn query_spec(self, cell: Option<u64>, hits: Seq<bool>) -> bool {
        if !self.is_indexed() {
            any_hit(hits)
        } else {
            match cell {
                Option::None => false,
                Option::Some(c) => self.cells_set().contains(c) || any_hit(hits),
            }
        }
    }

    /// A new, unbuilt index over the given polygons at the default
    /// resolution.
    pub fn new(polygons: Vec<Polygon>) -> (r: Self)
        ensures
            r.polys() == views_of(polygons@),
            !r.is_indexed(),
            r.cells_seq() == Seq::<u64>::empty(),
            r.res() == DEFAULT_RESOLUTION,
    {
        Self { polygons, indexed: false, h3_cells: Vec::new(), resolution: DEFAULT_RESOLUTION }
    }

    /// The same index, configured for the given resolution; an out-of-range
    /// value silently falls back to the default rather than failing.
    pub fn with_resolution(self, resolution: u8) -> (r: Self)
        ensures
            r.polys() == self.polys(),
            r.is_indexed() == self.is_indexed(),
            r.cells_seq() == self.cells_seq(),
            r.res() == if resolution <= MAX_RESOLUTION { resolution } else { DEFAULT_RESOLUTION },
            r.res() <= MAX_RESOLUTION,
    {
        let res = if resolution <= MAX_RESOLUTION { resolution } else { DEFAULT_RESOLUTION };
        Self { resolution: res, ..self }
    }

    /// Builds the cell index from the per-polygon fills (`fills[i]` is the
    /// list of cells covering polygon `i` at the index's resolution, empty
    /// for a polygon the tessellation primitive rejects).  The build never
    /// fails: a rejected polygon merely contributes nothing.  Building is
    /// idempotent — on an already-built index the call is a no-op — and on
    /// an unbuilt index it stores the union of the fills' cells: a cell
    /// shared by overlapping polygons collapses, the stored list holds no
    /// duplicates, and `index_size` then reports the distinct-cell count.
    pub fn build_index(&mut self, fills: &Vec<Vec<u64>>) -> (r: Result<(), GeoContainsError>)
        ensures
            r is Ok,
            final(self).is_indexed(),
            final(self).polys() == old(self).polys(),
            final(self).res() == old(self).res(),
            old(self).is_indexed() ==> *final(self) == *old(self),
            !old(self).is_indexed() ==> {
                &&& final(self).cells_seq().no_duplicates()
                &&& final(self).cells_set() == concat_fills(fills.deep_view()).to_set()
                &&& final(self).cells_seq().len() == final(self).cells_set().len()
            },
    {
        if self.indexed {
            return Result::Ok(());
        }
        let mut cells: Vec<u64> = Vec::new();
        let mut seen: HashSet<u64> = HashSet::new();
        let n = fills.len();
        proof {
            assert(cells@.to_set() =~= concat_fills(fills.deep_view().take(0)).to_set());
            assert(seen@ =~= cells@.to_set());
        }
        for i in 0..n
            invariant
                n == fills@.len(),
                cells@.no_duplicates(),
                seen@ == cells@.to_set(),
                cells@.to_set() == concat_fills(fills.deep_view().take(i as int)).to_set(),
        {
            let fill = &fills[i];
            let m = fill.len();
            for j in 0..m
                invariant
                    n == fills@.len(),
                    i < n,
                    m == fill@.len(),
                    fill == fills@[i as int],
                    cells@.no_duplicates(),
                    seen@ == cells@.to_set(),
                    cells@.to_set() == (concat_fills(fills.deep_view().take(i as int))
                        + fill@.take(j as int)).to_set(),
            {
                let ghost target = concat_fills(fills.deep_view().take(i as int)) + fill@.take(j as int);
                let ghost before = cells@;
                let c = fill[j];
                if !seen.contains(&c) {
                    seen.insert(c);
                    cells.push(c);
                    proof {
                        before.lemma_push_to_set_commute(c);
                        assert(cells@.no_duplicates()) by {
                            assert forall|p: int, q: int|
                                0 <= p < cells@.len() && 0 <= q < cells@.len() && p != q
                                implies cells@[p] != cells@[q] by {
                                let k = if p < before.len() { p } else { q };
                                if !(p < before.len() && q < before.len()) && before[k] == c {
                                    assert(before.contains(c));
                                }
                            }
                        }
                    }
                } else {
                    proof {
                        assert(before.to_set().contains(c));
                        assert(before.to_set().insert(c) =~= before.to_set());
                    }
                }
                proof {
                    target.lemma_push_to_set_commute(c);
                    assert(concat_fills(fills.deep_view().take(i as int)) + fill@.take(j + 1)
                        =~= target.push(c));
                    assert(cells@.to_set() =~= target.push(c).to_set());
                }
            }
            proof {
                assert(fill@.take(m as int) =~= fill@);
                assert(fills.deep_view().take(i + 1).drop_last() =~= fills.deep_view().take(i as int));
                assert(fills.deep_view().take(i + 1).last() =~= fill@);
                assert(concat_fills(fills.deep_view().take(i + 1))
                    =~= concat_fills(fills.deep_view().take(i as int)) + fill@);
                assert(cells@.to_set() =~= concat_fills(fills.deep_view().take(i + 1)).to_set());
            }
        }
        proof {
            assert(fills.deep_view().take(n as int) =~= fills.deep_view());
            cells@.unique_seq_to_set();
        }
        self.h3_cells = cells;
        self.indexed = true;
        Result::Ok(())
    }

    /// Whether a cell is in the stored cell set.
    fn cell_in_index(&self, c: u64) -> (r: bool)
        ensures
            r == self.cells_set().contains(c),
    {
        cells_contain(&self.h3_cells, c)
    }

    /// Answers a containment query.  `cell` is the point's tessellation cell
    /// at the index's resolution (nothing when the coordinates cannot be
    /// mapped; ignored while the index is unbuilt) and `hits[i]` is the
    /// ray-casting primitive's answer for the point against polygon `i`.
    pub fn contains(&self, cell: Option<u64>, hits: &[bool]) -> (r: bool)
        ensures
            r == self.query_spec(cell, hits@),
    {
        if !self.indexed {
            return point_in_polygons(hits);
        }
        match cell {
            Option::None => false,
            Option::Some(c) => self.cell_in_index(c) || point_in_polygons(hits),
        }
    }

    /// Answers one containment query per entry of `queries`, in order: the
    /// answer at `i` is exactly what `contains` answers for the cell and
    /// per-polygon hits at `i`.
    pub fn contains_batch(&self, queries: &Vec<(Option<u64>, Vec<bool>)>) -> (r: Vec<bool>)
        ensures
            r@.len() == queries@.len(),
            forall|i: int| 0 <= i < queries@.len()
                ==> r@[i] == self.query_spec(queries@[i].0, queries@[i].1@),
    {
        let mut out: Vec<bool> = Vec::new();
        let n = queries.len();
        for i in 0..n
            invariant
                n == queries@.len(),
                out@.len() == i,
                forall|k: int| 0 <= k < i ==> out@[k] == self.query_spec(queries@[k].0, queries@[k].1@),
        {
            let q = &queries[i];
            let answer = self.contains(q.0, q.1.as_slice());
            out.push(answer);
        }
        out
    }

    /// The number of stored cells (diagnostics); after a build this is the
    /// number of distinct cells covering the region set.
    pub fn index_size(&self) -> (r: usize)
        ensures
            r == self.cells_seq().len(),
    {
        self.h3_cells.len()
    }

    /// The number of indexed polygons.
    pub fn polygon_count(&self) -> (r: usize)
        ensures
            r == self.polys().len(),
    {
        self.polygons.len()
    }

    /// The configured tessellation resolution, always in range.
    pub fn resolution(&self) -> (r: u8)
        ensures
            r == self.res(),
    {
        self.resolution
    }

    /// Whether the index has been built; queries are answered in both
    /// states, unbuilt ones by the exact test alone.
    pub fn is_built(&self) -> (r: bool)
        ensures
            r == self.is_indexed(),
    {
        self.indexed
    }
}

} // verus!
