//! Topology of the ring-shaped meshes used for outlines: which vertices a
//! chunk has, in which order, and how they are joined into triangles. The
//! coordinates of each vertex are computed by the caller.
use vstd::prelude::*;

verus! {

/// The two rings of a chunk: the inner edge and the outer edge.
#[derive(Debug, Clone, Copy, PartialEq, Eq, Structural)]
pub enum Ring {
    Inner,
    Outer,
}

/// A vertex of a chunk: the ring it lies on and its step around that ring.
#[derive(Debug, Clone, Copy, PartialEq, Eq, Structural)]
pub struct RingVertex {
    pub ring: Ring,
    pub step: u32,
}

/// The vertices of a chunk with `v` steps: the inner ring first, then the
/// outer ring, each in step order.
pub open spec fn spec_chunk_layout(v: nat) -> Seq<RingVertex> {
    Seq::new(
        2 * v,
        |k: int|
            if k < v {
                RingVertex { ring: Ring::Inner, step: k as u32 }
            } else {
                RingVertex { ring: Ring::Outer, step: (k - v) as u32 }
            },
    )
}

/// The step after `i` around a ring of `v` steps.
pub open spec fn next_step(v: nat, i: nat) -> nat {
    if i + 1 >= v {
        0
    } else {
        i + 1
    }
}

/// The two triangles that join step `i` to the next step: (inner `i`,
/// outer `i`, outer next) and (inner next, inner `i`, outer next).
pub open spec fn spec_quad(v: nat, i: nat) -> Seq<u32> {
    let n = next_step(v, i);
    seq![i as u32, (v + i) as u32, (v + n) as u32, n as u32, i as u32, (v + n) as u32]
}

/// The triangle indices of the first `n` steps of a chunk with `v` steps.
pub open spec fn spec_chunk_indices_upto(v: nat, n: nat) -> Seq<u32>
    decreases n,
{
    if n == 0 {
        Seq::empty()
    } else {
        spec_chunk_indices_upto(v, (n - 1) as nat) + spec_quad(v, (n - 1) as nat)
    }
}

/// The triangle indices of a chunk with `v` steps.
pub open spec fn spec_chunk_indices(v: nat) -> Seq<u32> {
    spec_chunk_indices_upto(v, v)
}

/// The triangle indices of a hollow chunk with `v` steps: those of its outer
/// chunk, then those of its inner chunk moved past the outer chunk's `2 * v`
/// vertices.
pub open spec fn spec_hollow_chunk_indices(v: nat) -> Seq<u32> {
    spec_chunk_indices(v) + spec_chunk_indices(v).map_values(|x: u32| (x + 2 * v) as u32)
}

/// The vertices of a chunk with `vertices` steps, in the order in which their
/// positions are laid out.
pub fn chunk_vertex_layout(vertices: u32) -> (layout: Vec<RingVertex>)
    requires
        2 <= vertices,
    ensures
        layout@ == spec_chunk_layout(vertices as nat),
        layout@.len() == 2 * vertices,
        forall|k: int|
            0 <= k < vertices ==> #[trigger] layout@[k] == (RingVertex { ring: Ring::Inner, step: k as u32 }),
        forall|k: int|
            vertices <= k < 2 * vertices ==> #[trigger] layout@[k] == (RingVertex {
                ring: Ring::Outer,
                step: (k - vertices) as u32,
            }),
{
    let mut layout: Vec<RingVertex> = Vec::new();
    let mut i: u32 = 0;
    while i < vertices
        invariant
            i <= vertices,
            layout@ =~= spec_chunk_layout(vertices as nat).take(i as int),
        decreases vertices - i,
    {
        layout.push(RingVertex { ring: Ring::Inner, step: i });
        i = i + 1;
        assert(layout@ =~= spec_chunk_layout(vertices as nat).take(i as int));
    }
    let mut j: u32 = 0;
    while j < vertices
        invariant
            j <= vertices,
            layout@ =~= spec_chunk_layout(vertices as nat).take(vertices + j),
        decreases vertices - j,
    {
        layout.push(RingVertex { ring: Ring::Outer, step: j });
        j = j + 1;
        assert(layout@ =~= spec_chunk_layout(vertices as nat).take(vertices + j));
    }
    assert(layout@ =~= spec_chunk_layout(vertices as nat));
    layout
}

/// The triangle indices of a chunk with `vertices` steps, six for each step.
pub fn chunk_triangle_indices(vertices: u32) -> (indices: Vec<u32>)
    requires
        2 <= vertices <= 0x8000_0000,
    ensures
        indices@ == spec_chunk_indices(vertices as nat),
        indices@.len() == 6 * vertices,
        forall|i: int|
            0 <= i < vertices ==> {
                &&& #[trigger] indices@[6 * i] == i
                &&& indices@[6 * i + 1] == vertices + i
                &&& indices@[6 * i + 2] == vertices + (i + 1) % (vertices as int)
                &&& indices@[6 * i + 3] == (i + 1) % (vertices as int)
                &&& indices@[6 * i + 4] == i
                &&& indices@[6 * i + 5] == vertices + (i + 1) % (vertices as int)
            },
{
    let mut indices: Vec<u32> = Vec::new();
    let mut i: u32 = 0;
    while i < vertices
        invariant
            2 <= vertices <= 0x8000_0000,
            i <= vertices,
            indices@ == spec_chunk_indices_upto(vertices as nat, i as nat),
        decreases vertices - i,
    {
        let n = vertices + i;
        let n_1 = if i + 1 >= vertices {
            i + 1
        } else {
            vertices + i + 1
        };
        let i_1 = if i + 1 >= vertices {
            i + 1 - vertices
        } else {
            i + 1
        };
        let ghost before = indices@;
        indices.push(i);
        indices.push(n);
        indices.push(n_1);
        indices.push(i_1);
        indices.push(i);
        indices.push(n_1);
        assert(indices@ =~= before + spec_quad(vertices as nat, i as nat));
        i = i + 1;
    }
    proof {
        let v = vertices as nat;
        lemma_chunk_indices_len(v, v);
        assert forall|i: int| 0 <= i < vertices implies {
            &&& #[trigger] indices@[6 * i] == i
            &&& indices@[6 * i + 1] == vertices + i
            &&& indices@[6 * i + 2] == vertices + (i + 1) % (vertices as int)
            &&& indices@[6 * i + 3] == (i + 1) % (vertices as int)
            &&& indices@[6 * i + 4] == i
            &&& indices@[6 * i + 5] == vertices + (i + 1) % (vertices as int)
        } by {
            lemma_chunk_ring_closed(v, i as nat);
        }
    }
    indices
}

/// The triangle indices of a hollow chunk with `vertices` steps.
pub fn hollow_chunk_indices(vertices: u32) -> (indices: Vec<u32>)
    requires
        2 <= vertices <= 0x4000_0000,
    ensures
        indices@ == spec_hollow_chunk_indices(vertices as nat),
{
    let outer = chunk_triangle_indices(vertices);
    let inner = chunk_triangle_indices(vertices);
    let len: u32 = vertices * 2;
    proof {
        lemma_chunk_indices_in_range(vertices as nat);
    }
    let mut indices: Vec<u32> = Vec::new();
    let mut k: usize = 0;
    while k < outer.len()
        invariant
            k <= outer@.len(),
            indices@ =~= outer@.take(k as int),
        decreases outer.len() - k,
    {
        indices.push(outer[k]);
        k = k + 1;
        assert(indices@ =~= outer@.take(k as int));
    }
    let ghost moved = inner@.map_values(|x: u32| (x + 2 * (vertices as nat)) as u32);
    let mut m: usize = 0;
    while m < inner.len()
        invariant
            len == 2 * vertices,
            vertices <= 0x4000_0000,
            inner@ == spec_chunk_indices(vertices as nat),
            forall|q: int| 0 <= q < inner@.len() ==> inner@[q] < 2 * vertices,
            moved == inner@.map_values(|x: u32| (x + 2 * (vertices as nat)) as u32),
            m <= inner@.len(),
            indices@ =~= outer@ + moved.take(m as int),
        decreases inner.len() - m,
    {
        let x = inner[m];
        assert(inner@[m as int] < 2 * vertices);
        indices.push(x + len);
        m = m + 1;
        assert(indices@ =~= outer@ + moved.take(m as int));
    }
    assert(moved.take(inner@.len() as int) =~= moved);
    indices
}

/// The triangles of a chunk with `v` steps number `2 * v`, six indices in
/// all for each step.
pub proof fn lemma_chunk_indices_len(v: nat, n: nat)
    ensures
        spec_chunk_indices_upto(v, n).len() == 6 * n,
    decreases n,
{
    if n > 0 {
        lemma_chunk_indices_len(v, (n - 1) as nat);
    }
}

/// Every triangle index of a chunk names one of its `2 * v` vertices.
pub proof fn lemma_chunk_indices_in_range(v: nat)
    requires
        2 <= v <= 0x8000_0000,
    ensures
        spec_chunk_indices(v).len() == 6 * v,
        forall|k: int|
            0 <= k < spec_chunk_indices(v).len() ==> #[trigger] spec_chunk_indices(v)[k] < 2 * v,
{
    lemma_chunk_indices_len(v, v);
    lemma_upto_in_range(v, v);
}

proof fn lemma_upto_in_range(v: nat, n: nat)
    requires
        2 <= v <= 0x8000_0000,
        n <= v,
    ensures
        forall|k: int|
            0 <= k < spec_chunk_indices_upto(v, n).len()
                ==> #[trigger] spec_chunk_indices_upto(v, n)[k] < 2 * v,
    decreases n,
{
    if n > 0 {
        lemma_upto_in_range(v, (n - 1) as nat);
        let prev = spec_chunk_indices_upto(v, (n - 1) as nat);
        let q = spec_quad(v, (n - 1) as nat);
        assert forall|k: int|
            0 <= k < spec_chunk_indices_upto(v, n).len() implies #[trigger] spec_chunk_indices_upto(
            v,
            n,
        )[k] < 2 * v by {
            if k >= prev.len() {
                assert(spec_chunk_indices_upto(v, n)[k] == q[k - prev.len()]);
            } else {
                assert(spec_chunk_indices_upto(v, n)[k] == prev[k]);
            }
        }
    }
}


/// The six indices of step `i` of a chunk are its quad: the two triangles
/// that span inner and outer vertex `i` and inner and outer vertex of the
/// next step, which for the last step is step `0`, closing the ring.
pub proof fn lemma_chunk_quads(v: nat, i: nat)
    requires
        2 <= v <= 0x8000_0000,
        i < v,
    ensures
        spec_chunk_indices(v).subrange(6 * i as int, 6 * i as int + 6) == spec_quad(v, i),
        spec_chunk_layout(v)[spec_quad(v, i)[0] as int] == (RingVertex { ring: Ring::Inner, step: i as u32 }),
        spec_chunk_layout(v)[spec_quad(v, i)[1] as int] == (RingVertex { ring: Ring::Outer, step: i as u32 }),
        spec_chunk_layout(v)[spec_quad(v, i)[2] as int] == (RingVertex {
            ring: Ring::Outer,
            step: next_step(v, i) as u32,
        }),
        spec_chunk_layout(v)[spec_quad(v, i)[3] as int] == (RingVertex {
            ring: Ring::Inner,
            step: next_step(v, i) as u32,
        }),
        spec_quad(v, i)[4] == spec_quad(v, i)[0],
        spec_quad(v, i)[5] == spec_quad(v, i)[2],
{
    lemma_upto_quads(v, v, i);
}

proof fn lemma_upto_quads(v: nat, n: nat, i: nat)
    requires
        i < n,
    ensures
        spec_chunk_indices_upto(v, n).subrange(6 * i as int, 6 * i as int + 6) == spec_quad(v, i),
    decreases n,
{
    lemma_chunk_indices_len(v, (n - 1) as nat);
    let prev = spec_chunk_indices_upto(v, (n - 1) as nat);
    let all = spec_chunk_indices_upto(v, n);
    if i + 1 < n {
        lemma_upto_quads(v, (n - 1) as nat, i);
        assert(all.subrange(6 * i as int, 6 * i as int + 6) =~= prev.subrange(6 * i as int, 6 * i as int + 6));
    } else {
        assert(all.subrange(6 * i as int, 6 * i as int + 6) =~= spec_quad(v, i));
    }
}

/// Every index of a hollow chunk names one of its `4 * v` vertices: the
/// first half of its triangles lie on the outer chunk's `2 * v` vertices,
/// and each index of the second half is that of the inner chunk moved by
/// `2 * v`.
pub proof fn lemma_hollow_chunk_indices(v: nat)
    requires
        2 <= v <= 0x4000_0000,
    ensures
        spec_hollow_chunk_indices(v).len() == 12 * v,
        forall|k: int| 0 <= k < 6 * v ==> #[trigger] spec_hollow_chunk_indices(v)[k] < 2 * v,
        forall|k: int|
            6 * v <= k < 12 * v ==> #[trigger] spec_hollow_chunk_indices(v)[k] == spec_chunk_indices(v)[k - 6 * v]
                + 2 * v,
        forall|k: int| 0 <= k < 12 * v ==> #[trigger] spec_hollow_chunk_indices(v)[k] < 4 * v,
{
    lemma_chunk_indices_in_range(v);
    let c = spec_chunk_indices(v);
    let h = spec_hollow_chunk_indices(v);
    assert forall|k: int| 0 <= k < 6 * v implies #[trigger] h[k] < 2 * v by {
        assert(h[k] == c[k]);
    }
    assert forall|k: int| 6 * v <= k < 12 * v implies #[trigger] h[k] == c[k - 6 * v] + 2 * v by {
        assert(c[k - 6 * v] < 2 * v);
    }
    assert forall|k: int| 0 <= k < 12 * v implies #[trigger] h[k] < 4 * v by {
        if k < 6 * v {
            assert(h[k] == c[k]);
        } else {
            assert(c[k - 6 * v] < 2 * v);
        }
    }
}


/// Step `i` of a chunk with `v` steps is drawn as the two triangles
/// (inner `i`, outer `i`, outer `(i + 1) % v`) and (inner `(i + 1) % v`,
/// inner `i`, outer `(i + 1) % v`), where inner step `j` is vertex `j` and
/// outer step `j` is vertex `v + j`. The last step joins back to step `0`,
/// so the ring is closed.
pub proof fn lemma_chunk_ring_closed(v: nat, i: nat)
    requires
        2 <= v <= 0x8000_0000,
        i < v,
    ensures
        spec_chunk_indices(v).len() == 6 * v,
        spec_chunk_indices(v)[6 * i as int] == i,
        spec_chunk_indices(v)[(6 * i + 1) as int] == v + i,
        spec_chunk_indices(v)[(6 * i + 2) as int] == v + (i + 1) % v,
        spec_chunk_indices(v)[(6 * i + 3) as int] == (i + 1) % v,
        spec_chunk_indices(v)[(6 * i + 4) as int] == i,
        spec_chunk_indices(v)[(6 * i + 5) as int] == v + (i + 1) % v,
        spec_chunk_layout(v)[i as int] == (RingVertex { ring: Ring::Inner, step: i as u32 }),
        spec_chunk_layout(v)[(v + i) as int] == (RingVertex { ring: Ring::Outer, step: i as u32 }),
        i + 1 == v ==> spec_chunk_indices(v)[(6 * i + 2) as int] == v && spec_chunk_indices(v)[(6 * i + 3) as int]
            == 0,
{
    lemma_chunk_indices_len(v, v);
    lemma_upto_quads(v, v, i);
    let all = spec_chunk_indices(v);
    let q = spec_quad(v, i);
    assert(all.subrange(6 * i as int, 6 * i as int + 6) == q);
    assert forall|j: int| 0 <= j < 6 implies all[6 * i + j] == q[j] by {
        assert(all.subrange(6 * i as int, 6 * i as int + 6)[j] == all[6 * i + j]);
    }
    if i + 1 >= v {
        assert(i + 1 == v);
        assert((i + 1) % v == 0) by {
            vstd::arithmetic::div_mod::lemma_mod_self_0(v as int);
        }
    } else {
        assert((i + 1) % v == i + 1) by {
            vstd::arithmetic::div_mod::lemma_small_mod((i + 1) as nat, v);
        }
    }
}

} // verus!
