use vstd::prelude::*;

use crate::geojson_utils::any_hit;
use crate::spatial_index::{concat_fills, lemma_concat_fills_contains, SpatialIndex};

verus! {

/// A list of answers has a positive entry exactly when it contains `true`.
proof fn lemma_any_hit_is_contains(hits: Seq<bool>)
    ensures
        any_hit(hits) == hits.contains(true),
{
    if any_hit(hits) {
        let i = choose|i: int| 0 <= i < hits.len() && hits[i];
        assert(hits[i] == true);
        assert(hits.contains(true));
    }
    if hits.contains(true) {
        let i = choose|i: int| 0 <= i < hits.len() && hits[i] == true;
        assert(0 <= i < hits.len() && hits[i]);
    }
}

/// Whether some answer is positive depends only on which answers occur, not
/// on their order or position.
pub proof fn lemma_any_hit_permutation(h1: Seq<bool>, h2: Seq<bool>)
    requires
        h1.to_multiset() == h2.to_multiset(),
    ensures
        any_hit(h1) == any_hit(h2),
{
    h1.to_multiset_ensures();
    h2.to_multiset_ensures();
    lemma_any_hit_is_contains(h1);
    lemma_any_hit_is_contains(h2);
    assert(h1.to_multiset().count(true) == h2.to_multiset().count(true));
    assert(h1.contains(true) <==> h1.to_multiset().count(true) > 0);
    assert(h2.contains(true) <==> h2.to_multiset().count(true) > 0);
    assert(any_hit(h1) == any_hit(h2));
}

/// The cell set an index build stores depends only on which per-polygon
/// fills it is handed, not on their order.
pub proof fn lemma_concat_fills_permutation(f1: Seq<Seq<u64>>, f2: Seq<Seq<u64>>)
    requires
        f1.to_multiset() == f2.to_multiset(),
    ensures
        concat_fills(f1).to_set() == concat_fills(f2).to_set(),
{
    f1.to_multiset_ensures();
    f2.to_multiset_ensures();
    assert forall|c: u64| concat_fills(f1).contains(c) implies concat_fills(f2).contains(c) by {
        lemma_concat_fills_contains(f1, c);
        lemma_concat_fills_contains(f2, c);
        let i = choose|i: int| 0 <= i < f1.len() && f1[i].contains(c);
        assert(f1.contains(f1[i]));
        assert(f1.to_multiset().count(f1[i]) > 0);
        assert(f2.to_multiset().count(f1[i]) > 0);
        assert(f2.contains(f1[i]));
        let j = choose|j: int| 0 <= j < f2.len() && f2[j] == f1[i];
        assert(f2[j].contains(c));
    }
    assert forall|c: u64| concat_fills(f2).contains(c) implies concat_fills(f1).contains(c) by {
        lemma_concat_fills_contains(f1, c);
        lemma_concat_fills_contains(f2, c);
        let i = choose|i: int| 0 <= i < f2.len() && f2[i].contains(c);
        assert(f2.contains(f2[i]));
        assert(f2.to_multiset().count(f2[i]) > 0);
        assert(f1.to_multiset().count(f2[i]) > 0);
        assert(f1.contains(f2[i]));
        let j = choose|j: int| 0 <= j < f1.len() && f1[j] == f2[i];
        assert(f1[j].contains(c));
    }
    assert(concat_fills(f1).to_set() =~= concat_fills(f2).to_set());
}

/// The two-tier query agrees with the exact test wherever the stored cell
/// set is honest about the point: a stored cell is hit only for a point
/// some polygon contains, and the cell mapping fails only for a point no
/// polygon contains.  Under that condition the index is purely an
/// optimization — it can never flip the answer.  On other points — a
/// boundary cell stored in the index whose queried point lies outside
/// every polygon, or an unmappable coordinate that a polygon nevertheless
/// contains — the built query and the exact test differ by design, so
/// those points are excluded here.
pub proof fn lemma_query_matches_exact(idx: SpatialIndex, cell: Option<u64>, hits: Seq<bool>)
    requires
        idx.is_indexed() ==> match cell {
            Option::Some(c) => idx.cells_set().contains(c) ==> any_hit(hits),
            Option::None => !any_hit(hits),
        },
    ensures
        idx.query_spec(cell, hits) == any_hit(hits),
{
}

/// The index never hides a containment: whenever the exact test accepts a
/// point whose coordinates map to a cell, the two-tier query accepts it too,
/// built or not, whatever the cell set holds.  (A point whose coordinates
/// cannot be mapped to a cell is the one exception, covered by the honesty
/// condition of `lemma_query_matches_exact`.)
pub proof fn lemma_index_never_hides(idx: SpatialIndex, c: u64, hits: Seq<bool>)
    ensures
        any_hit(hits) ==> idx.query_spec(Option::Some(c), hits),
{
}

/// Shuffling the polygons before a build changes nothing observable: two
/// built indexes handed the same per-polygon fills and the same exact
/// answers, each in any order, store the same cell set, report the same
/// cell count, and answer every query alike.  The fill of a polygon and the
/// ray-cast of a point against it are functions of the polygon alone, so
/// reordering the polygons only reorders the fills and the per-polygon
/// answers.  The `requires` states what a build establishes: a built,
/// duplicate-free store holding the union of the fills' cells.
pub proof fn lemma_build_order_independent(
    a: SpatialIndex,
    b: SpatialIndex,
    fills_a: Seq<Seq<u64>>,
    fills_b: Seq<Seq<u64>>,
    cell: Option<u64>,
    hits_a: Seq<bool>,
    hits_b: Seq<bool>,
)
    requires
        fills_a.to_multiset() == fills_b.to_multiset(),
        hits_a.to_multiset() == hits_b.to_multiset(),
        a.is_indexed() && b.is_indexed(),
        a.cells_seq().no_duplicates(),
        b.cells_seq().no_duplicates(),
        a.cells_set() == concat_fills(fills_a).to_set(),
        b.cells_set() == concat_fills(fills_b).to_set(),
    ensures
        a.cells_set() == b.cells_set(),
        a.cells_seq().len() == b.cells_seq().len(),
        a.query_spec(cell, hits_a) == b.query_spec(cell, hits_b),
{
    lemma_concat_fills_permutation(fills_a, fills_b);
    lemma_any_hit_permutation(hits_a, hits_b);
    a.cells_seq().unique_seq_to_set();
    b.cells_seq().unique_seq_to_set();
}

} // verus!
