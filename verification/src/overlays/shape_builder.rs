use vstd::prelude::*;

verus! {

/// A marker for the start or end of a shape.
#[derive(Clone, Copy, Debug, PartialEq, Eq, Structural)]
pub enum StrokeMarker {
    /// No marker.
    NoMarker,
    /// Arrowhead marker.
    Arrowhead,
}

impl Default for StrokeMarker {
    fn default() -> (r: Self)
        ensures
            r == StrokeMarker::NoMarker,
    {
        StrokeMarker::NoMarker
    }
}

/// The triangle-list topology of a two-dimensional shape: how many vertices it has and the
/// vertex indices of its triangles. Vertex positions are kept alongside by the caller, one
/// per counted vertex.
pub struct ShapeTopology {
    vertex_count: usize,
    indices: Vec<u32>,
}

/// The first index of the vertices that a shape adds to a builder holding `count` vertices:
/// the count converted to `u32` (which keeps its low 32 bits).
pub open spec fn spec_start(count: nat) -> int {
    count as int % 0x1_0000_0000
}

/// Indices of the eight-vertex frame of a stroked rectangle whose vertices start at `s`.
pub open spec fn stroke_rect_pattern(s: int) -> Seq<u32> {
    seq![
        s as u32, (s + 1) as u32, (s + 2) as u32,
        (s + 1) as u32, (s + 3) as u32, (s + 2) as u32,
        (s + 2) as u32, (s + 3) as u32, (s + 4) as u32,
        (s + 4) as u32, (s + 3) as u32, (s + 5) as u32,
        (s + 4) as u32, (s + 5) as u32, (s + 6) as u32,
        (s + 5) as u32, (s + 7) as u32, (s + 6) as u32,
        (s + 6) as u32, (s + 1) as u32, s as u32,
        (s + 6) as u32, (s + 7) as u32, (s + 1) as u32,
    ]
}

/// Indices of the two triangles of a filled rectangle whose vertices start at `s`.
pub open spec fn fill_rect_pattern(s: int) -> Seq<u32> {
    seq![s as u32, (s + 1) as u32, (s + 2) as u32, s as u32, (s + 2) as u32, (s + 3) as u32]
}

/// Indices of a stroked circle with `n` segments whose vertices start at `s`: segment `i`
/// has its inner vertex at `s + 2i` and its outer vertex at `s + 2i + 1`, and is the band
/// between its pair and the next segment's pair, drawn as two triangles (with the winding of
/// the stroked rectangle's bands).
pub open spec fn stroke_circle_pattern(s: int, n: int) -> Seq<u32> {
    Seq::new(
        (6 * n) as nat,
        |j: int|
            {
                let a = s + 2 * (j / 6);
                let c = s + 2 * ((j / 6 + 1) % n);
                let k = j % 6;
                if k == 0 {
                    a as u32
                } else if k == 1 {
                    (a + 1) as u32
                } else if k == 2 {
                    c as u32
                } else if k == 3 {
                    (a + 1) as u32
                } else if k == 4 {
                    (c + 1) as u32
                } else {
                    c as u32
                }
            },
    )
}

/// Indices of a filled circle with `n` segments whose vertices start at `s`: the center at
/// `s` and the rim vertices at `s + 1 .. s + 1 + n`; segment `i` is the triangle of the
/// center, rim vertex `i` and rim vertex `(i + 1) % n`.
pub open spec fn fill_circle_pattern(s: int, n: int) -> Seq<u32> {
    Seq::new(
        (3 * n) as nat,
        |j: int|
            if j % 3 == 0 {
                s as u32
            } else if j % 3 == 1 {
                (s + 1 + j / 3) as u32
            } else {
                (s + 1 + (j / 3 + 1) % n) as u32
            },
    )
}

/// A stroked rectangle's frame only uses its own eight vertices, and it is the same frame
/// wherever its vertices start: the indices for start `s` are those for start 0, each moved
/// by `s`.
pub proof fn lemma_stroke_rect_uses_own_vertices(s: int)
    requires
        0 <= s,
        s + 7 <= u32::MAX,
    ensures
        stroke_rect_pattern(s).len() == 24,
        forall|k: int| 0 <= k < 24 ==> s <= #[trigger] stroke_rect_pattern(s)[k] < s + 8,
        forall|k: int|
            0 <= k < 24 ==> #[trigger] stroke_rect_pattern(s)[k] == stroke_rect_pattern(0)[k] + s,
{
}

/// A filled rectangle only uses its own four vertices, and its triangles are the same
/// wherever its vertices start.
pub proof fn lemma_fill_rect_uses_own_vertices(s: int)
    requires
        0 <= s,
        s + 3 <= u32::MAX,
    ensures
        fill_rect_pattern(s).len() == 6,
        forall|k: int| 0 <= k < 6 ==> s <= #[trigger] fill_rect_pattern(s)[k] < s + 4,
        forall|k: int| 0 <= k < 6 ==> #[trigger] fill_rect_pattern(s)[k] == fill_rect_pattern(0)[k] + s,
{
}

/// A stroked circle of `n` segments only uses its own `2 * n` vertices, and it is the same
/// wherever its vertices start.
pub proof fn lemma_stroke_circle_uses_own_vertices(s: int, n: int)
    requires
        0 <= s,
        0 < n,
        s + 2 * n - 1 <= u32::MAX,
    ensures
        stroke_circle_pattern(s, n).len() == 6 * n,
        forall|k: int| 0 <= k < 6 * n ==> s <= #[trigger] stroke_circle_pattern(s, n)[k] < s + 2 * n,
        forall|k: int|
            0 <= k < 6 * n ==> #[trigger] stroke_circle_pattern(s, n)[k] == stroke_circle_pattern(0, n)[k] + s,
{
    assert forall|k: int| 0 <= k < 6 * n implies s <= #[trigger] stroke_circle_pattern(s, n)[k] < s + 2 * n
        && stroke_circle_pattern(s, n)[k] == stroke_circle_pattern(0, n)[k] + s by {
        assert(0 <= k / 6 < n) by (nonlinear_arith)
            requires
                0 <= k < 6 * n,
        ;
        assert(0 <= (k / 6 + 1) % n < n) by (nonlinear_arith)
            requires
                0 < n,
        ;
    }
}

/// A filled circle of `n` segments only uses its own `n + 1` vertices (the center and the
/// rim), and it is the same wherever its vertices start.
pub proof fn lemma_fill_circle_uses_own_vertices(s: int, n: int)
    requires
        0 <= s,
        0 < n,
        s + n <= u32::MAX,
    ensures
        fill_circle_pattern(s, n).len() == 3 * n,
        forall|k: int| 0 <= k < 3 * n ==> s <= #[trigger] fill_circle_pattern(s, n)[k] < s + n + 1,
        forall|k: int|
            0 <= k < 3 * n ==> #[trigger] fill_circle_pattern(s, n)[k] == fill_circle_pattern(0, n)[k] + s,
{
    assert forall|k: int| 0 <= k < 3 * n implies s <= #[trigger] fill_circle_pattern(s, n)[k] < s + n + 1
        && fill_circle_pattern(s, n)[k] == fill_circle_pattern(0, n)[k] + s by {
        assert(0 <= k / 3 < n) by (nonlinear_arith)
            requires
                0 <= k < 3 * n,
        ;
        assert(0 <= (k / 3 + 1) % n < n) by (nonlinear_arith)
            requires
                0 < n,
        ;
    }
}

/// Every vertex that a shape adds is used by one of its triangles.
pub proof fn lemma_shapes_use_every_own_vertex(s: int, n: int)
    requires
        0 <= s,
        0 < n,
        s + 2 * n + 7 <= u32::MAX,
    ensures
        forall|v: int| s <= v < s + 8 ==> #[trigger] stroke_rect_pattern(s).contains(v as u32),
        forall|v: int| s <= v < s + 4 ==> #[trigger] fill_rect_pattern(s).contains(v as u32),
        forall|v: int| s <= v < s + 2 * n ==> #[trigger] stroke_circle_pattern(s, n).contains(v as u32),
        forall|v: int| s <= v < s + n + 1 ==> #[trigger] fill_circle_pattern(s, n).contains(v as u32),
{
    let p = stroke_rect_pattern(s);
    assert forall|v: int| s <= v < s + 8 implies #[trigger] p.contains(v as u32) by {
        let k: int = if v == s { 0 } else if v == s + 1 { 1 } else if v == s + 2 { 2 } else if v
            == s + 3 { 4 } else if v == s + 4 { 8 } else if v == s + 5 { 11 } else if v == s + 6 {
            14
        } else {
            16
        };
        assert(p[k] == v as u32);
    }
    let q = fill_rect_pattern(s);
    assert forall|v: int| s <= v < s + 4 implies #[trigger] q.contains(v as u32) by {
        let k: int = if v == s { 0 } else if v == s + 1 { 1 } else if v == s + 2 { 2 } else { 5 };
        assert(q[k] == v as u32);
    }
    let c = stroke_circle_pattern(s, n);
    assert forall|v: int| s <= v < s + 2 * n implies #[trigger] c.contains(v as u32) by {
        let i = (v - s) / 2;
        let k: int = if (v - s) % 2 == 0 { 6 * i } else { 6 * i + 1 };
        assert(0 <= i < n && v - s == 2 * i + (v - s) % 2) by (nonlinear_arith)
            requires
                0 <= v - s < 2 * n,
                i == (v - s) / 2,
        ;
        assert(k / 6 == i && k % 6 == (v - s) % 2) by (nonlinear_arith)
            requires
                k == (if (v - s) % 2 == 0 { 6 * i } else { 6 * i + 1 }),
                0 <= (v - s) % 2 < 2,
        ;
        assert(0 <= k < 6 * n) by (nonlinear_arith)
            requires
                0 <= i < n,
                k == (if (v - s) % 2 == 0 { 6 * i } else { 6 * i + 1 }),
        ;
        assert(c[k] == v as u32);
    }
    let f = fill_circle_pattern(s, n);
    assert forall|v: int| s <= v < s + n + 1 implies #[trigger] f.contains(v as u32) by {
        if v == s {
            assert(f[0] == v as u32);
        } else {
            let i = v - s - 1;
            let k = 3 * i + 1;
            assert(k / 3 == i && k % 3 == 1) by (nonlinear_arith)
                requires
                    k == 3 * i + 1,
                    0 <= i,
            ;
            assert(f[k] == v as u32);
        }
    }
}

impl ShapeTopology {
    /// The number of vertices of the shape.
    pub closed spec fn spec_vertex_count(&self) -> nat {
        self.vertex_count as nat
    }

    /// The vertex indices of the shape's triangles.
    pub closed spec fn spec_indices(&self) -> Seq<u32> {
        self.indices@
    }

    /// Every index names one of the shape's vertices.
    pub open spec fn indices_in_range(&self) -> bool {
        forall|k: int|
            0 <= k < self.spec_indices().len() ==> (#[trigger] self.spec_indices()[k]) < self.spec_vertex_count()
    }

    /// An empty shape.
    pub fn new() -> (r: Self)
        ensures
            r.spec_vertex_count() == 0,
            r.spec_indices() == Seq::<u32>::empty(),
    {
        ShapeTopology { vertex_count: 0, indices: Vec::new() }
    }

    /// The number of vertices of the shape.
    pub fn vertex_count(&self) -> (r: usize)
        ensures
            r == self.spec_vertex_count(),
    {
        self.vertex_count
    }

    /// The vertex indices of the shape's triangles.
    pub fn indices(&self) -> (r: &Vec<u32>)
        ensures
            r@ == self.spec_indices(),
    {
        &self.indices
    }

    /// Reserve room for `indices` more indices.
    pub fn reserve(&mut self, indices: usize)
        ensures
            final(self).spec_vertex_count() == old(self).spec_vertex_count(),
            final(self).spec_indices() == old(self).spec_indices(),
    {
        self.indices.reserve(indices);
    }

    /// Count one more vertex.
    pub fn push_vertex(&mut self)
        requires
            old(self).spec_vertex_count() < usize::MAX,
        ensures
            final(self).spec_vertex_count() == old(self).spec_vertex_count() + 1,
            final(self).spec_indices() == old(self).spec_indices(),
    {
        self.vertex_count = self.vertex_count + 1;
    }

    /// Add an index.
    pub fn push_index(&mut self, index: u32)
        ensures
            final(self).spec_vertex_count() == old(self).spec_vertex_count(),
            final(self).spec_indices() == old(self).spec_indices().push(index),
    {
        self.indices.push(index);
    }

    /// The first index of the vertices that the next shape adds.
    fn start(&self) -> (r: u32)
        ensures
            r == spec_start(self.spec_vertex_count()),
    {
        let c: u64 = self.vertex_count as u64;
        (c % 0x1_0000_0000u64) as u32
    }

    /// Add the eight vertices and eight triangles of a stroked rectangle's frame.
    pub fn stroke_rect(&mut self)
        requires
            spec_start(old(self).spec_vertex_count()) + 7 <= u32::MAX,
            old(self).spec_vertex_count() + 8 <= usize::MAX,
        ensures
            final(self).spec_vertex_count() == old(self).spec_vertex_count() + 8,
            final(self).spec_indices() == old(self).spec_indices() + stroke_rect_pattern(
                spec_start(old(self).spec_vertex_count()),
            ),
            old(self).indices_in_range() ==> final(self).indices_in_range(),
    {
        self.indices.reserve(24);
        let start = self.start();
        self.vertex_count = self.vertex_count + 8;
        self.indices.push(start);
        self.indices.push(start + 1);
        self.indices.push(start + 2);

        self.indices.push(start + 1);
        self.indices.push(start + 3);
        self.indices.push(start + 2);

        self.indices.push(start + 2);
        self.indices.push(start + 3);
        self.indices.push(start + 4);

        self.indices.push(start + 4);
        self.indices.push(start + 3);
        self.indices.push(start + 5);

        self.indices.push(start + 4);
        self.indices.push(start + 5);
        self.indices.push(start + 6);

        self.indices.push(start + 5);
        self.indices.push(start + 7);
        self.indices.push(start + 6);

        self.indices.push(start + 6);
        self.indices.push(start + 1);
        self.indices.push(start);

        self.indices.push(start + 6);
        self.indices.push(start + 7);
        self.indices.push(start + 1);
        assert(self.indices@ =~= old(self).indices@ + stroke_rect_pattern(start as int));
        proof {
            let olen = old(self).indices@.len();
            assert(start <= old(self).vertex_count);
            if old(self).indices_in_range() {
                assert forall|k: int| 0 <= k < self.indices@.len() implies (#[trigger] self.indices@[k])
                    < self.vertex_count by {
                    if k < olen {
                        assert(self.indices@[k] == old(self).indices@[k]);
                        assert(old(self).spec_indices()[k] < old(self).spec_vertex_count());
                    } else {
                        assert(self.indices@[k] == stroke_rect_pattern(start as int)[k - olen]);
                    }
                }
            }
        }
    }

    /// Add the four vertices and two triangles of a filled rectangle.
    pub fn fill_rect(&mut self)
        requires
            spec_start(old(self).spec_vertex_count()) + 3 <= u32::MAX,
            old(self).spec_vertex_count() + 4 <= usize::MAX,
        ensures
            final(self).spec_vertex_count() == old(self).spec_vertex_count() + 4,
            final(self).spec_indices() == old(self).spec_indices() + fill_rect_pattern(
                spec_start(old(self).spec_vertex_count()),
            ),
            old(self).indices_in_range() ==> final(self).indices_in_range(),
    {
        self.indices.reserve(6);
        let start = self.start();
        self.vertex_count = self.vertex_count + 4;
        self.indices.push(start);
        self.indices.push(start + 1);
        self.indices.push(start + 2);
        self.indices.push(start);
        self.indices.push(start + 2);
        self.indices.push(start + 3);
        assert(self.indices@ =~= old(self).indices@ + fill_rect_pattern(start as int));
    }
    /// Add a stroked circle of `segments` segments: an inner and an outer vertex per segment,
    /// and for each segment the two triangles of the band to the next segment.
    pub fn stroke_circle(&mut self, segments: u32)
        requires
            segments > 0 ==> spec_start(old(self).spec_vertex_count()) + 2 * segments - 1 <= u32::MAX,
            old(self).spec_vertex_count() + 2 * segments <= usize::MAX,
        ensures
            final(self).spec_vertex_count() == old(self).spec_vertex_count() + 2 * segments,
            final(self).spec_indices() == old(self).spec_indices() + stroke_circle_pattern(
                spec_start(old(self).spec_vertex_count()),
                segments as int,
            ),
            old(self).indices_in_range() ==> final(self).indices_in_range(),
    {
        let start = self.start();
        let ghost oc = self.vertex_count as int;
        let ghost old_idx = self.indices@;
        let ghost pat = stroke_circle_pattern(start as int, segments as int);
        let mut i: u32 = 0;
        while i < segments
            invariant
                i <= segments,
                start == spec_start(oc as nat),
                oc + 2 * segments <= usize::MAX,
                segments > 0 ==> start + 2 * segments - 1 <= u32::MAX,
                pat == stroke_circle_pattern(start as int, segments as int),
                self.vertex_count == oc + 2 * i,
                self.indices@ == old_idx + pat.take(6 * i),
            decreases segments - i,
        {
            self.vertex_count = self.vertex_count + 2;
            let a = start + i * 2;
            let c = start + ((i + 1) % segments) * 2;
            self.indices.push(a);
            self.indices.push(a + 1);
            self.indices.push(c);
            self.indices.push(a + 1);
            self.indices.push(c + 1);
            self.indices.push(c);
            proof {
                let b = 6 * i;
                assert(b / 6 == i && b % 6 == 0);
                assert((b + 1) / 6 == i && (b + 1) % 6 == 1);
                assert((b + 2) / 6 == i && (b + 2) % 6 == 2);
                assert((b + 3) / 6 == i && (b + 3) % 6 == 3);
                assert((b + 4) / 6 == i && (b + 4) % 6 == 4);
                assert((b + 5) / 6 == i && (b + 5) % 6 == 5);
                assert(pat[b] == a);
                assert(pat[b + 1] == a + 1);
                assert(pat[b + 2] == c);
                assert(pat[b + 3] == a + 1);
                assert(pat[b + 4] == c + 1);
                assert(pat[b + 5] == c);
                assert(pat.take(b + 6) =~= pat.take(b).push(a).push((a + 1) as u32).push(c).push(
                    (a + 1) as u32,
                ).push((c + 1) as u32).push(c));
            }
            i = i + 1;
        }
        assert(pat.take(6 * segments) =~= pat);
        proof {
            let olen = old_idx.len();
            assert(start <= oc);
            if old(self).indices_in_range() {
                assert forall|k: int| 0 <= k < self.indices@.len() implies (#[trigger] self.indices@[k])
                    < self.vertex_count by {
                    if k < olen {
                        assert(self.indices@[k] == old(self).indices@[k]);
                        assert(old(self).spec_indices()[k] < old(self).spec_vertex_count());
                    } else {
                        let j = k - olen;
                        assert(self.indices@[k] == pat[j]);
                        assert(j / 6 < segments);
                        assert((j / 6 + 1) % (segments as int) < segments);
                    }
                }
            }
        }
    }

    /// Add a filled circle of `segments` segments: one center vertex and one rim vertex per
    /// segment, and for each segment `i` the triangle of the center `start`, rim vertex
    /// `start + 1 + i` and rim vertex `start + 1 + (i + 1) % segments`.
    pub fn fill_circle(&mut self, segments: u32)
        requires
            segments > 0 ==> spec_start(old(self).spec_vertex_count()) + segments <= u32::MAX,
            old(self).spec_vertex_count() + 1 + segments <= usize::MAX,
        ensures
            final(self).spec_vertex_count() == old(self).spec_vertex_count() + 1 + segments,
            final(self).spec_indices() == old(self).spec_indices() + fill_circle_pattern(
                spec_start(old(self).spec_vertex_count()),
                segments as int,
            ),
            old(self).indices_in_range() ==> final(self).indices_in_range(),
    {
        let start = self.start();
        let ghost oc = self.vertex_count as int;
        let ghost old_idx = self.indices@;
        let ghost pat = fill_circle_pattern(start as int, segments as int);
        self.vertex_count = self.vertex_count + 1;
        let mut i: u32 = 0;
        while i < segments
            invariant
                i <= segments,
                start == spec_start(oc as nat),
                oc + 1 + segments <= usize::MAX,
                segments > 0 ==> start + segments <= u32::MAX,
                pat == fill_circle_pattern(start as int, segments as int),
                self.vertex_count == oc + 1 + i,
                self.indices@ == old_idx + pat.take(3 * i),
            decreases segments - i,
        {
            self.vertex_count = self.vertex_count + 1;
            let b = start + 1 + i;
            let c = start + 1 + (i + 1) % segments;
            self.indices.push(start);
            self.indices.push(b);
            self.indices.push(c);
            proof {
                assert((3 * i) % 3 == 0);
                assert((3 * i + 1) % 3 == 1);
                assert((3 * i + 2) % 3 == 2);
                assert((3 * i + 1) / 3 == i);
                assert((3 * i + 2) / 3 == i);
                assert(pat[3 * i] == start);
                assert(pat[3 * i + 1] == b);
                assert(pat[3 * i + 2] == c);
                assert(pat.take(3 * i + 3) =~= pat.take(3 * i).push(start).push(b).push(c));
            }
            i = i + 1;
        }
        assert(pat.take(3 * segments) =~= pat);
        proof {
            let olen = old_idx.len();
            assert(start <= oc);
            if old(self).indices_in_range() {
                assert forall|k: int| 0 <= k < self.indices@.len() implies (#[trigger] self.indices@[k])
                    < self.vertex_count by {
                    if k < olen {
                        assert(self.indices@[k] == old(self).indices@[k]);
                        assert(old(self).spec_indices()[k] < old(self).spec_vertex_count());
                    } else {
                        let j = k - olen;
                        assert(self.indices@[k] == pat[j]);
                        assert(j / 3 < segments);
                        assert((j / 3 + 1) % (segments as int) < segments);
                    }
                }
            }
        }
    }
}

} // verus!
