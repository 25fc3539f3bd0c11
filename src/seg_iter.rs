use vstd::prelude::*;

use crate::polyline::Polyline;
use crate::seg_index::{spec_segment_pairs, PlineSegIndexIterator};
use crate::vertex::PlineVertex;

verus! {

/// An iterator over the segments of a polyline as vertex pairs: `(v[0], v[1])` to
/// `(v[n - 2], v[n - 1])`, followed by `(v[n - 1], v[0])` when closed.
pub struct PlineSegIterator<'a, T> {
    polyline: &'a Polyline<T>,
    indexes: PlineSegIndexIterator,
}

impl<'a, T: Copy> PlineSegIterator<'a, T> {
    pub closed spec fn spec_wf(&self) -> bool {
        &&& self.indexes.spec_wf()
        &&& forall|k: int|
            0 <= k < self.indexes.spec_pairs().len() ==> {
                let p = #[trigger] self.indexes.spec_pairs()[k];
                0 <= p.0 < self.polyline.spec_len() && 0 <= p.1 < self.polyline.spec_len()
            }
    }

    /// Vertex pairs that are still to come.
    pub closed spec fn spec_items(&self) -> Seq<(PlineVertex<T>, PlineVertex<T>)> {
        self.indexes.spec_pairs().map_values(
            |p: (int, int)| (self.polyline.vertex_data@[p.0], self.polyline.vertex_data@[p.1]),
        )
    }

    pub fn new(polyline: &'a Polyline<T>) -> (r: Self)
        ensures
            r.spec_wf(),
            r.spec_items().len() == polyline.spec_segment_count(),
            forall|k: int|
                0 <= k < r.spec_items().len() ==> #[trigger] r.spec_items()[k]
                    == polyline.spec_segment(k),
    {
        let indexes = polyline.iter_segment_indexes();
        let r = PlineSegIterator { polyline, indexes };
        assert(indexes.spec_pairs() == spec_segment_pairs(polyline.spec_len(), polyline.is_closed));
        r
    }

    /// The next segment, or `None` once all have been visited.
    pub fn next(&mut self) -> (r: Option<(PlineVertex<T>, PlineVertex<T>)>)
        requires
            old(self).spec_wf(),
        ensures
            final(self).spec_wf(),
            old(self).spec_items().len() == 0 ==> r.is_none() && final(self).spec_items()
                == old(self).spec_items(),
            old(self).spec_items().len() > 0 ==> r == Some(old(self).spec_items()[0])
                && final(self).spec_items() == old(self).spec_items().drop_first(),
    {
        let ghost before = self.indexes.spec_pairs();
        match self.indexes.next() {
            None => None,
            Some((i, j)) => {
                assert(before[0] == (i as int, j as int));
                let r = (self.polyline.at(i), self.polyline.at(j));
                assert forall|k: int| 0 <= k < self.indexes.spec_pairs().len() implies {
                    let p = #[trigger] self.indexes.spec_pairs()[k];
                    0 <= p.0 < self.polyline.spec_len() && 0 <= p.1 < self.polyline.spec_len()
                } by {
                    assert(self.indexes.spec_pairs()[k] == before[k + 1]);
                }
                assert(self.spec_items() =~= old(self).spec_items().drop_first());
                Some(r)
            },
        }
    }

    /// Number of segments still to come.
    pub fn remaining_count(&self) -> (r: usize)
        ensures
            r == self.spec_items().len(),
    {
        self.indexes.remaining_count()
    }
}

impl<T: Copy> Polyline<T> {
    /// Iterator over all segments as vertex pairs.
    pub fn iter_segments(&self) -> (r: PlineSegIterator<'_, T>)
        ensures
            r.spec_wf(),
            r.spec_items().len() == self.spec_segment_count(),
            forall|k: int|
                0 <= k < r.spec_items().len() ==> #[trigger] r.spec_items()[k]
                    == self.spec_segment(k),
    {
        PlineSegIterator::new(self)
    }
}

} // verus!
