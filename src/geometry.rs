//! Mesh topology: planes as grids of quads, meshes merged face by face, and
//! the count of triangles that meet at each vertex. What a vertex holds is the
//! caller's; this module decides where vertices go and what the indices are.

use vstd::arithmetic::div_mod::lemma_fundamental_div_mod_converse;
use vstd::prelude::*;

verus! {

/// A mesh: vertices, and indices into them, three to a triangle.
#[derive(Clone)]
pub struct Geometry<V> {
    pub vertices: Vec<V>,
    pub indices: Vec<u32>,
}

/// The indices come in whole triangles and each names one of `vertex_count` vertices.
pub open spec fn indices_valid(indices: Seq<u32>, vertex_count: nat) -> bool {
    &&& indices.len() % 3 == 0
    &&& forall|k: int| 0 <= k < indices.len() ==> (#[trigger] indices[k] as nat) < vertex_count
}

/// Vertex `(r, c)` of a grid with `columns + 1` vertices to a row, row after row.
pub open spec fn grid_vertex(columns: nat, r: nat, c: nat) -> nat {
    r * (columns + 1) + c
}

/// Corner `j` of the two counter-clockwise triangles of quad `(r, c)`:
/// `(r, c), (r + 1, c), (r + 1, c + 1)`, then `(r, c), (r + 1, c + 1), (r, c + 1)`.
pub open spec fn quad_corner(columns: nat, r: nat, c: nat, j: nat) -> nat {
    if j == 0 || j == 3 {
        grid_vertex(columns, r, c)
    } else if j == 1 {
        grid_vertex(columns, r + 1, c)
    } else if j == 2 || j == 4 {
        grid_vertex(columns, r + 1, c + 1)
    } else {
        grid_vertex(columns, r, c + 1)
    }
}

/// Index `k` of a plane with `columns` quads to a row: six per quad, quads row after row.
pub open spec fn plane_index(columns: nat, k: nat) -> nat {
    let q = k / 6;
    quad_corner(columns, q / columns, q % columns, k % 6)
}

/// `indices` moved past `by` earlier vertices.
pub open spec fn shifted(indices: Seq<u32>, by: nat) -> Seq<u32> {
    indices.map_values(|i: u32| (i + by) as u32)
}

/// The vertices of meshes merged in order.
pub open spec fn merged_vertices<V>(parts: Seq<Geometry<V>>) -> Seq<V>
    decreases parts.len(),
{
    if parts.len() == 0 {
        Seq::empty()
    } else {
        merged_vertices(parts.drop_last()) + parts.last().vertices@
    }
}

/// The indices of meshes merged in order, each part's moved past the vertices before it.
pub open spec fn merged_indices<V>(parts: Seq<Geometry<V>>) -> Seq<u32>
    decreases parts.len(),
{
    if parts.len() == 0 {
        Seq::empty()
    } else {
        merged_indices(parts.drop_last()) + shifted(
            parts.last().indices@,
            merged_vertices(parts.drop_last()).len(),
        )
    }
}

/// How many index slots of `s` name vertex `v`.
pub open spec fn occurrences(s: Seq<u32>, v: nat) -> nat
    decreases s.len(),
{
    if s.len() == 0 {
        0
    } else {
        occurrences(s.drop_last(), v) + if s.last() as nat == v {
            1nat
        } else {
            0nat
        }
    }
}

impl<V> Geometry<V> {
    pub open spec fn wf(&self) -> bool {
        indices_valid(self.indices@, self.vertices@.len())
    }

    /// A grid of `rows` by `columns` quads: `(rows + 1) * (columns + 1)` vertices
    /// row after row, vertex `(r, c)` made by `vertex_at(r, c)`, and two
    /// counter-clockwise triangles for each quad, quads row after row.
    pub fn plane<F: Fn(u32, u32) -> V>(rows: u32, columns: u32, vertex_at: F) -> (g: Self)
        requires
            (rows + 1) * (columns + 1) <= u32::MAX,
            6 * rows * columns <= usize::MAX,
            forall|r: u32, c: u32| r <= rows && c <= columns ==> vertex_at.requires((r, c)),
        ensures
            g.vertices@.len() == (rows + 1) * (columns + 1),
            forall|i: int|
                0 <= i < g.vertices@.len() ==> vertex_at.ensures(
                    ((i / (columns + 1)) as u32, (i % (columns + 1)) as u32),
                    #[trigger] g.vertices@[i],
                ),
            g.indices@.len() == 6 * rows * columns,
            forall|k: int|
                0 <= k < g.indices@.len() ==> #[trigger] g.indices@[k] == plane_index(
                    columns as nat,
                    k as nat,
                ),
            g.wf(),
    {
        assert(rows + 1 <= (rows + 1) * (columns + 1) && columns + 1 <= (rows + 1) * (columns
            + 1)) by (nonlinear_arith);
        let row_len = columns + 1;
        let ghost n = (rows + 1) * (columns + 1);
        let mut vertices: Vec<V> = Vec::new();
        let mut r: u32 = 0;
        while r <= rows
            invariant
                r <= rows + 1,
                rows + 1 <= u32::MAX,
                row_len == columns + 1,
                n == (rows + 1) * (columns + 1),
                n <= u32::MAX,
                vertices@.len() == r * row_len,
                forall|r: u32, c: u32| r <= rows && c <= columns ==> vertex_at.requires((r, c)),
                forall|i: int|
                    0 <= i < vertices@.len() ==> vertex_at.ensures(
                        ((i / (columns + 1)) as u32, (i % (columns + 1)) as u32),
                        #[trigger] vertices@[i],
                    ),
            decreases rows + 1 - r,
        {
            assert(r * row_len <= rows * row_len) by (nonlinear_arith)
                requires
                    r <= rows,
            ;
            let mut c: u32 = 0;
            while c <= columns
                invariant
                    r <= rows,
                    c <= columns + 1,
                    row_len == columns + 1,
                    vertices@.len() == r * row_len + c,
                    forall|r: u32, c: u32| r <= rows && c <= columns ==> vertex_at.requires((r, c)),
                    forall|i: int|
                        0 <= i < vertices@.len() ==> vertex_at.ensures(
                            ((i / (columns + 1)) as u32, (i % (columns + 1)) as u32),
                            #[trigger] vertices@[i],
                        ),
                decreases columns + 1 - c,
            {
                let v = vertex_at(r, c);
                proof {
                    lemma_grid_position(columns as nat, r as nat, c as nat);
                }
                vertices.push(v);
                c += 1;
            }
            assert(vertices@.len() == (r + 1) * row_len) by (nonlinear_arith)
                requires
                    vertices@.len() == r * row_len + row_len,
            ;
            r += 1;
        }
        let mut indices: Vec<u32> = Vec::new();
        let mut r: u32 = 0;
        while r < rows
            invariant
                r <= rows,
                row_len == columns + 1,
                n == (rows + 1) * (columns + 1),
                n <= u32::MAX,
                indices@.len() == 6 * (r * columns),
                forall|k: int|
                    0 <= k < indices@.len() ==> #[trigger] indices@[k] == plane_index(
                        columns as nat,
                        k as nat,
                    ),
                forall|k: int| 0 <= k < indices@.len() ==> #[trigger] indices@[k] < n,
            decreases rows - r,
        {
            let mut c: u32 = 0;
            while c < columns
                invariant
                    r < rows,
                    c <= columns,
                    row_len == columns + 1,
                    n == (rows + 1) * (columns + 1),
                    n <= u32::MAX,
                    indices@.len() == 6 * (r * columns + c),
                    forall|k: int|
                        0 <= k < indices@.len() ==> #[trigger] indices@[k] == plane_index(
                            columns as nat,
                            k as nat,
                        ),
                    forall|k: int| 0 <= k < indices@.len() ==> #[trigger] indices@[k] < n,
                decreases columns - c,
            {
                assert((r + 1) * row_len + c + 1 < n) by (nonlinear_arith)
                    requires
                        r < rows,
                        c < columns,
                        row_len == columns + 1,
                        n == (rows + 1) * (columns + 1),
                ;
                assert(r * row_len <= (r + 1) * row_len) by (nonlinear_arith);
                let a = r * row_len + c;
                let b = (r + 1) * row_len + c;
                let ghost base = indices@.len();
                indices.push(a);
                indices.push(b);
                indices.push(b + 1);
                indices.push(a);
                indices.push(b + 1);
                indices.push(a + 1);
                proof {
                    assert forall|k: int| 0 <= k < indices@.len() implies #[trigger] indices@[k]
                        == plane_index(columns as nat, k as nat) by {
                        if k >= base {
                            lemma_plane_index_at(columns as nat, r as nat, c as nat, (k - base) as nat);
                        }
                    }
                }
                c += 1;
            }
            assert(6 * (r * columns + columns) == 6 * ((r + 1) * columns)) by (nonlinear_arith);
            r += 1;
        }
        assert(6 * (rows * columns) == 6 * rows * columns) by (nonlinear_arith);
        assert((6 * (rows * columns)) % 3 == 0) by (nonlinear_arith);
        Geometry { vertices, indices }
    }

    /// Put `other` after this mesh: its vertices follow ours and its indices
    /// are moved past our vertices, so that they name the same vertices as before.
    pub fn append(&mut self, other: Geometry<V>)
        requires
            other.wf(),
            old(self).vertices@.len() + other.vertices@.len() <= u32::MAX + 1,
        ensures
            final(self).vertices@ == old(self).vertices@ + other.vertices@,
            final(self).indices@ == old(self).indices@ + shifted(
                other.indices@,
                old(self).vertices@.len(),
            ),
            old(self).wf() ==> final(self).wf(),
    {
        let Geometry { vertices: mut other_vertices, indices: other_indices } = other;
        let ghost old_indices = self.indices@;
        let ghost by = self.vertices@.len();
        let offset = self.vertices.len();
        let mut j: usize = 0;
        while j < other_indices.len()
            invariant
                j <= other_indices@.len(),
                offset == by,
                by + other_vertices@.len() <= u32::MAX + 1,
                indices_valid(other_indices@, other_vertices@.len()),
                self.vertices@ == old(self).vertices@,
                other_vertices@ == other.vertices@,
                self.vertices@.len() == by,
                self.indices@ == old_indices + shifted(other_indices@, by).take(j as int),
            decreases other_indices@.len() - j,
        {
            assert(other_indices@[j as int] < other_vertices@.len());
            self.indices.push(other_indices[j] + offset as u32);
            assert(shifted(other_indices@, by).take(j + 1) =~= shifted(other_indices@, by).take(
                j as int,
            ).push(shifted(other_indices@, by)[j as int]));
            j += 1;
        }
        assert(shifted(other_indices@, by).take(j as int) =~= shifted(other_indices@, by));
        let ghost other_len = other_vertices@.len();
        let ghost was_wf = indices_valid(old_indices, by);
        self.vertices.append(&mut other_vertices);
        proof {
            let n = self.vertices@.len();
            if was_wf {
                assert forall|k: int| 0 <= k < self.indices@.len() implies (
                #[trigger] self.indices@[k] as nat) < n by {
                    if k >= old_indices.len() {
                        assert(other_indices@[k - old_indices.len()] < other_len);
                    } else {
                        assert(old_indices[k] < by);
                    }
                }
            }
            assert(self.indices@.len() == old_indices.len() + other_indices@.len());
        }
    }
}

impl<V> Geometry<V> {
    /// One mesh made of `parts` in order: their vertices one after another, and
    /// their indices, each part's moved past the vertices of the parts before it.
    pub fn merge(parts: Vec<Geometry<V>>) -> (g: Geometry<V>)
        requires
            forall|f: int| 0 <= f < parts@.len() ==> (#[trigger] parts@[f]).wf(),
            merged_vertices(parts@).len() <= u32::MAX + 1,
        ensures
            g.vertices@ == merged_vertices(parts@),
            g.indices@ == merged_indices(parts@),
            g.wf(),
    {
        let ghost all = parts@;
        let n = parts.len();
        let mut rest = parts;
        let mut g: Geometry<V> = Geometry { vertices: Vec::new(), indices: Vec::new() };
        let mut k: usize = 0;
        assert(all.take(0) =~= Seq::<Geometry<V>>::empty());
        while k < n
            invariant
                k <= n,
                n == all.len(),
                rest@ == all.skip(k as int),
                forall|f: int| 0 <= f < all.len() ==> (#[trigger] all[f]).wf(),
                merged_vertices(all).len() <= u32::MAX + 1,
                g.vertices@ == merged_vertices(all.take(k as int)),
                g.indices@ == merged_indices(all.take(k as int)),
                g.wf(),
            decreases n - k,
        {
            let part = rest.remove(0);
            assert(part == all[k as int]);
            let ghost next = all.take(k + 1);
            assert(next.drop_last() =~= all.take(k as int));
            assert(next.last() == all[k as int]);
            proof {
                lemma_merged_prefix_len(all, k + 1);
            }
            g.append(part);
            assert(rest@ =~= all.skip(k + 1));
            k += 1;
        }
        assert(all.take(n as int) =~= all);
        g
    }
}

/// The vertices of the first `k` parts are no more than those of all of them.
proof fn lemma_merged_prefix_len<V>(parts: Seq<Geometry<V>>, k: int)
    requires
        0 <= k <= parts.len(),
    ensures
        merged_vertices(parts.take(k)).len() <= merged_vertices(parts).len(),
    decreases parts.len(),
{
    if k < parts.len() {
        assert(parts.take(k) =~= parts.drop_last().take(k));
        lemma_merged_prefix_len(parts.drop_last(), k);
    } else {
        assert(parts.take(k) =~= parts);
    }
}

/// Faces of four vertices and six indices each, merged: four vertices and six
/// indices per face, and every index names a vertex of its own face's block of four.
pub proof fn lemma_merged_quads<V>(faces: Seq<Geometry<V>>)
    requires
        4 * faces.len() <= u32::MAX + 1,
        forall|f: int|
            0 <= f < faces.len() ==> (#[trigger] faces[f]).wf() && faces[f].vertices@.len() == 4
                && faces[f].indices@.len() == 6,
    ensures
        merged_vertices(faces).len() == 4 * faces.len(),
        merged_indices(faces).len() == 6 * faces.len(),
        forall|k: int|
            0 <= k < 6 * faces.len() ==> 4 * (k / 6) <= #[trigger] merged_indices(faces)[k] < 4 * (k
                / 6) + 4,
    decreases faces.len(),
{
    if faces.len() > 0 {
        let front = faces.drop_last();
        lemma_merged_quads(front);
        let m = front.len();
        let last = faces.last();
        assert(last == faces[faces.len() - 1]);
        assert forall|k: int| 0 <= k < 6 * faces.len() implies 4 * (k / 6) <= #[trigger] merged_indices(
            faces,
        )[k] < 4 * (k / 6) + 4 by {
            if k >= 6 * m {
                let j = k - 6 * m;
                assert(last.indices@[j] < 4);
                lemma_fundamental_div_mod_converse(k, 6, m as int, j);
                assert(merged_indices(faces)[k] == shifted(last.indices@, 4 * m)[j]);
            } else {
                assert(merged_indices(faces)[k] == merged_indices(front)[k]);
            }
        }
    }
}

/// A cube's six faces, each a one-by-one plane of four vertices and six
/// indices, merge into 24 vertices and 36 indices, and each index names a
/// vertex in its own face's block of four.
pub proof fn lemma_cube_faces<V>(faces: Seq<Geometry<V>>)
    requires
        faces.len() == 6,
        forall|f: int|
            0 <= f < 6 ==> (#[trigger] faces[f]).wf() && faces[f].vertices@.len() == 4
                && faces[f].indices@.len() == 6,
    ensures
        merged_vertices(faces).len() == 24,
        merged_indices(faces).len() == 36,
        forall|k: int| 0 <= k < 36 ==> 4 * (k / 6) <= #[trigger] merged_indices(faces)[k] < 4 * (k / 6) + 4,
{
    lemma_merged_quads(faces);
}

/// Whether `indices` come in whole triangles that each name one of `vertex_count` vertices.
pub fn check_indices(vertex_count: usize, indices: &Vec<u32>) -> (r: bool)
    ensures
        r == indices_valid(indices@, vertex_count as nat),
{
    if indices.len() % 3 != 0 {
        return false;
    }
    let mut k: usize = 0;
    while k < indices.len()
        invariant
            k <= indices@.len(),
            forall|i: int| 0 <= i < k ==> (#[trigger] indices@[i] as nat) < vertex_count,
        decreases indices@.len() - k,
    {
        if indices[k] as usize >= vertex_count {
            return false;
        }
        k += 1;
    }
    true
}

/// For each of `vertex_count` vertices, how many triangle corners name it: the
/// number of triangles that meet there, each counted once per corner.
pub fn incident_triangle_counts(vertex_count: usize, indices: &Vec<u32>) -> (r: Vec<usize>)
    requires
        indices_valid(indices@, vertex_count as nat),
    ensures
        r@.len() == vertex_count,
        forall|v: int| 0 <= v < vertex_count ==> #[trigger] r@[v] == occurrences(indices@, v as nat),
{
    let mut r: Vec<usize> = Vec::new();
    while r.len() < vertex_count
        invariant
            r@.len() <= vertex_count,
            forall|v: int| 0 <= v < r@.len() ==> #[trigger] r@[v] == 0,
        decreases vertex_count - r@.len(),
    {
        r.push(0);
    }
    let mut j: usize = 0;
    while j < indices.len()
        invariant
            j <= indices@.len(),
            r@.len() == vertex_count,
            indices_valid(indices@, vertex_count as nat),
            forall|v: int|
                0 <= v < vertex_count ==> #[trigger] r@[v] == occurrences(
                    indices@.take(j as int),
                    v as nat,
                ),
        decreases indices@.len() - j,
    {
        let x = indices[j] as usize;
        assert(indices@.take(j + 1).drop_last() =~= indices@.take(j as int));
        proof {
            lemma_occurrences_bound(indices@.take(j as int), x as nat);
        }
        let count = r[x];
        r.set(x, count + 1);
        j += 1;
    }
    assert(indices@.take(j as int) =~= indices@);
    r
}

proof fn lemma_grid_position(columns: nat, r: nat, c: nat)
    requires
        c <= columns,
    ensures
        grid_vertex(columns, r, c) / (columns + 1) == r,
        grid_vertex(columns, r, c) % (columns + 1) == c,
{
    lemma_fundamental_div_mod_converse(
        grid_vertex(columns, r, c) as int,
        (columns + 1) as int,
        r as int,
        c as int,
    );
}

proof fn lemma_plane_index_at(columns: nat, r: nat, c: nat, j: nat)
    requires
        c < columns,
        j < 6,
    ensures
        plane_index(columns, 6 * (r * columns + c) + j) == quad_corner(columns, r, c, j),
{
    let q = r * columns + c;
    lemma_fundamental_div_mod_converse((6 * q + j) as int, 6, q as int, j as int);
    lemma_fundamental_div_mod_converse(q as int, columns as int, r as int, c as int);
}

proof fn lemma_occurrences_bound(s: Seq<u32>, v: nat)
    ensures
        occurrences(s, v) <= s.len(),
    decreases s.len(),
{
    if s.len() > 0 {
        lemma_occurrences_bound(s.drop_last(), v);
    }
}

} // verus!
