use vstd::prelude::*;

verus! {

/// One vertex of a stroke mesh: the colour of its stroke and its position.
///
/// The library does not look inside either: the colour is copied as it is onto
/// every vertex of a stroke, and the positions are those the tessellator emitted.
#[derive(Debug, Clone, Copy)]
pub struct TessellateVertex<C, Q> {
    pub color: C,
    pub position: Q,
}

/// A stroke mesh: vertices and a triangle list of 16-bit indices into them,
/// padded to a multiple of four indices.
pub struct Tessellate<C, Q> {
    pub vertices: Vec<TessellateVertex<C, Q>>,
    pub indices: Vec<u16>,
}

/// Why a stroke could not be turned into a mesh.
#[derive(Debug, Clone, Copy, PartialEq, Eq, Structural)]
pub enum MeshError {
    /// The tessellator reported a failure.
    TessellationFailed,
    /// The tessellator's index count is not a multiple of three.
    NotTriangleList,
    /// An index of the tessellator's output names no vertex.
    IndexOutOfRange,
}

/// Every index of `indices` names one of `n` vertices.
pub open spec fn indices_in_range(indices: Seq<u16>, n: nat) -> bool {
    forall|i: int| 0 <= i < indices.len() ==> (#[trigger] indices[i] as nat) < n
}

/// `indices` is a triangle list over `n` vertices.
pub open spec fn is_triangle_list(indices: Seq<u16>, n: nat) -> bool {
    indices.len() % 3 == 0 && indices_in_range(indices, n)
}

/// How many copies of the last index are appended to `n` indices.
pub open spec fn pad_count(n: nat) -> nat {
    if n % 4 == 0 { 0 } else { (4 - n % 4) as nat }
}

/// `s` followed by copies of its last element until its length is a multiple of four.
pub open spec fn pad_seq(s: Seq<u16>) -> Seq<u16> {
    s + Seq::new(pad_count(s.len()), |_i: int| s.last())
}

/// The vertices of a stroke of colour `color` through `positions`.
pub open spec fn vertices_of<C, Q>(color: C, positions: Seq<Q>) -> Seq<TessellateVertex<C, Q>> {
    positions.map_values(|p: Q| TessellateVertex { color: color, position: p })
}

/// `m` is the mesh built from the tessellator's `positions` and `indices` for a
/// stroke of colour `color`.
pub open spec fn is_assembly_of<C, Q>(
    m: Tessellate<C, Q>,
    color: C,
    positions: Seq<Q>,
    indices: Seq<u16>,
) -> bool {
    &&& m.vertices@ == vertices_of(color, positions)
    &&& m.indices@ == pad_seq(indices)
}

impl<C, Q> Tessellate<C, Q> {
    /// The index count is a multiple of four and every index names a vertex.
    pub open spec fn wf(&self) -> bool {
        &&& self.indices@.len() % 4 == 0
        &&& indices_in_range(self.indices@, self.vertices@.len())
    }
}

/// Padding leaves a count that is a multiple of four, and adds at most three
/// indices.
pub proof fn lemma_pad_len(s: Seq<u16>)
    ensures
        pad_seq(s).len() % 4 == 0,
        s.len() <= pad_seq(s).len() <= s.len() + 3,
        pad_seq(s).subrange(0, s.len() as int) == s,
{
    assert(pad_seq(s).subrange(0, s.len() as int) =~= s);
}

/// The indices added by padding repeat the last index, so a list whose indices
/// all name one of `n` vertices still does after padding.
pub proof fn lemma_pad_in_range(s: Seq<u16>, n: nat)
    requires
        indices_in_range(s, n),
    ensures
        indices_in_range(pad_seq(s), n),
        forall|j: int| s.len() <= j < pad_seq(s).len() ==> #[trigger] pad_seq(s)[j] == s.last(),
{
    assert forall|j: int| 0 <= j < pad_seq(s).len() implies (#[trigger] pad_seq(s)[j] as nat)
        < n by {
        if j >= s.len() {
            assert(pad_seq(s)[j] == s[s.len() - 1]);
        }
    }
}

/// Assembling depends on nothing but its inputs: the vertex count is the
/// tessellator's vertex count, the index count is the tessellator's index count
/// padded to a multiple of four, so inputs of equal lengths give meshes of equal
/// sizes, and equal inputs give equal meshes.
pub proof fn lemma_assembly_determined<C, Q>(
    m1: Tessellate<C, Q>,
    m2: Tessellate<C, Q>,
    color1: C,
    color2: C,
    positions1: Seq<Q>,
    positions2: Seq<Q>,
    indices1: Seq<u16>,
    indices2: Seq<u16>,
)
    requires
        is_assembly_of(m1, color1, positions1, indices1),
        is_assembly_of(m2, color2, positions2, indices2),
    ensures
        m1.vertices@.len() == positions1.len(),
        m1.indices@.len() == indices1.len() + pad_count(indices1.len()),
        positions1.len() == positions2.len() && indices1.len() == indices2.len() ==> {
            &&& m1.vertices@.len() == m2.vertices@.len()
            &&& m1.indices@.len() == m2.indices@.len()
        },
        color1 == color2 && positions1 == positions2 && indices1 == indices2 ==> {
            &&& m1.vertices@ == m2.vertices@
            &&& m1.indices@ == m2.indices@
        },
{
}

/// Appends copies of the last index until the count is a multiple of four.
pub fn pad_indices(indices: &mut Vec<u16>)
    ensures
        final(indices)@ == pad_seq(old(indices)@),
        final(indices)@.len() % 4 == 0,
{
    let n = indices.len();
    if n % 4 == 0 {
        assert(pad_seq(indices@) =~= indices@);
        return;
    }
    let last = indices[n - 1];
    let k: usize = 4 - n % 4;
    let mut j: usize = 0;
    while j < k
        invariant
            n == old(indices)@.len(),
            n % 4 != 0,
            k == pad_count(n as nat),
            j <= k,
            last == old(indices)@.last(),
            indices@ =~= old(indices)@ + Seq::new(j as nat, |_i: int| last),
        decreases k - j,
    {
        indices.push(last);
        j = j + 1;
    }
    assert(indices@ =~= pad_seq(old(indices)@));
}

/// Checks that every index names one of `n` vertices.
pub fn check_indices(indices: &Vec<u16>, n: usize) -> (r: bool)
    ensures
        r == indices_in_range(indices@, n as nat),
{
    let mut i: usize = 0;
    while i < indices.len()
        invariant
            i <= indices@.len(),
            indices_in_range(indices@.subrange(0, i as int), n as nat),
        decreases indices@.len() - i,
    {
        if indices[i] as usize >= n {
            return false;
        }
        assert(indices@.subrange(0, i + 1) =~= indices@.subrange(0, i as int).push(indices@[i as int]));
        i = i + 1;
    }
    assert(indices@.subrange(0, i as int) =~= indices@);
    true
}

/// Builds the mesh of a stroke of colour `color` from what the tessellator
/// emitted: every vertex carries `color`, and the indices are checked to form a
/// triangle list over the vertices and then padded to a multiple of four.
pub fn assemble<C: Copy, Q: Copy>(color: C, positions: Vec<Q>, indices: Vec<u16>) -> (r: Result<
    Tessellate<C, Q>,
    MeshError,
>)
    ensures
        indices@.len() % 3 != 0 ==> r == Err::<Tessellate<C, Q>, MeshError>(
            MeshError::NotTriangleList,
        ),
        indices@.len() % 3 == 0 && !indices_in_range(indices@, positions@.len()) ==> r == Err::<
            Tessellate<C, Q>,
            MeshError,
        >(MeshError::IndexOutOfRange),
        is_triangle_list(indices@, positions@.len()) ==> (r matches Ok(m) && is_assembly_of(
            m,
            color,
            positions@,
            indices@,
        ) && m.wf()),
{
    if indices.len() % 3 != 0 {
        return Err(MeshError::NotTriangleList);
    }
    if !check_indices(&indices, positions.len()) {
        return Err(MeshError::IndexOutOfRange);
    }
    let mut vertices: Vec<TessellateVertex<C, Q>> = Vec::new();
    let mut i: usize = 0;
    while i < positions.len()
        invariant
            i <= positions@.len(),
            vertices@ =~= vertices_of(color, positions@.subrange(0, i as int)),
        decreases positions@.len() - i,
    {
        let p = positions[i];
        vertices.push(TessellateVertex { color: color, position: p });
        assert(positions@.subrange(0, i + 1) =~= positions@.subrange(0, i as int).push(p));
        i = i + 1;
    }
    assert(positions@.subrange(0, i as int) =~= positions@);
    let mut padded = indices;
    let ghost before = padded@;
    pad_indices(&mut padded);
    proof {
        lemma_pad_in_range(before, positions@.len());
    }
    Ok(Tessellate { vertices, indices: padded })
}

} // verus!
