use vstd::prelude::*;

verus! {

/// Number of segments of a polyline with `n` vertexes: none below two vertexes, `n` when closed,
/// `n - 1` when open.
pub open spec fn spec_segment_count(n: nat, closed: bool) -> nat {
    if n < 2 {
        0
    } else if closed {
        n
    } else {
        (n - 1) as nat
    }
}

/// Vertex indexes `(start, end)` of segment `k` of a polyline with `n` vertexes: `(k, k + 1)`,
/// except the closing segment of a closed polyline, which is `(n - 1, 0)`.
pub open spec fn spec_segment_pair(n: nat, closed: bool, k: int) -> (int, int) {
    if closed && k == n - 1 {
        (k, 0)
    } else {
        (k, k + 1)
    }
}

/// All segment vertex index pairs of a polyline with `n` vertexes, in traversal order.
pub open spec fn spec_segment_pairs(n: nat, closed: bool) -> Seq<(int, int)> {
    Seq::new(spec_segment_count(n, closed), |k: int| spec_segment_pair(n, closed, k))
}

/// An iterator over the vertex index pairs of all the segments of a polyline.
pub struct PlineSegIndexIterator {
    pos: usize,
    remaining: usize,
    is_closed: bool,
}

impl PlineSegIndexIterator {
    pub closed spec fn spec_wf(&self) -> bool {
        self.pos + self.remaining <= usize::MAX
    }

    /// Index pairs that are still to come.
    pub closed spec fn spec_pairs(&self) -> Seq<(int, int)> {
        Seq::new(
            self.remaining as nat,
            |k: int|
                if self.is_closed && k == self.remaining - 1 {
                    (self.pos + k, 0)
                } else {
                    (self.pos + k, self.pos + k + 1)
                },
        )
    }

    /// Iterator over the segments of a polyline with `vertex_count` vertexes.
    pub fn new(vertex_count: usize, is_closed: bool) -> (r: PlineSegIndexIterator)
        ensures
            r.spec_wf(),
            r.spec_pairs() == spec_segment_pairs(vertex_count as nat, is_closed),
    {
        let remaining: usize = if vertex_count < 2 {
            0
        } else if is_closed {
            vertex_count
        } else {
            vertex_count - 1
        };
        let r = PlineSegIndexIterator { pos: 0, remaining, is_closed };
        assert(r.spec_pairs() =~= spec_segment_pairs(vertex_count as nat, is_closed));
        r
    }

    /// The next pair, or `None` once every segment has been visited.
    pub fn next(&mut self) -> (r: Option<(usize, usize)>)
        requires
            old(self).spec_wf(),
        ensures
            final(self).spec_wf(),
            old(self).spec_pairs().len() == 0 ==> r.is_none() && final(self).spec_pairs()
                == old(self).spec_pairs(),
            old(self).spec_pairs().len() > 0 ==> r.is_some() && (r.unwrap().0 as int, r.unwrap().1 as int)
                == old(self).spec_pairs()[0] && final(self).spec_pairs() == old(
                self,
            ).spec_pairs().drop_first(),
    {
        if self.remaining == 0 {
            return None;
        }
        let ghost before = self.spec_pairs();
        self.remaining = self.remaining - 1;
        if self.remaining == 0 && self.is_closed {
            assert(self.spec_pairs() =~= before.drop_first());
            return Some((self.pos, 0));
        }
        let pos = self.pos;
        self.pos = self.pos + 1;
        assert(self.spec_pairs() =~= before.drop_first());
        Some((pos, pos + 1))
    }

    /// Number of pairs still to come.
    pub fn remaining_count(&self) -> (r: usize)
        ensures
            r == self.spec_pairs().len(),
    {
        self.remaining
    }
}

} // verus!
