use vstd::prelude::*;

verus! {

/// The procedurally generated shapes.
#[derive(Clone, Copy, Debug, PartialEq, Eq, Structural)]
pub enum PrimitiveType {
    Plane,
    Cube,
    /// An icosphere, subdivided `resolution` times.
    Sphere(u8),
}

/// Where a mesh's vertices come from.
#[derive(Clone, Debug)]
pub enum MeshType {
    /// Loaded from the Wavefront OBJ file at this path.
    Model(String),
    Primitive(PrimitiveType),
}

/// Largest number of vertices one draw may address. Indices are 16 bits wide and
/// the all-ones index is reserved as the primitive-restart marker, so the usable
/// indices are `0 ..= 65534`.
pub const MAX_VERTICES: usize = 65535;

/// Why a mesh cannot be submitted as a single indexed draw.
#[derive(Clone, Copy, Debug, PartialEq, Eq, Structural)]
pub enum MeshError {
    /// More vertices than a 16-bit index can address.
    TooManyVertices,
    /// An index names a vertex the mesh does not have.
    IndexOutOfRange,
}

/// The verdict on a mesh with `vertex_count` vertices and index list `indices`.
pub open spec fn mesh_check(vertex_count: usize, indices: Seq<u16>) -> Result<(), MeshError> {
    if vertex_count > MAX_VERTICES {
        Err(MeshError::TooManyVertices)
    } else if exists|i: int| 0 <= i < indices.len() && indices[i] as usize >= vertex_count {
        Err(MeshError::IndexOutOfRange)
    } else {
        Ok(())
    }
}

/// Checks that a mesh fits one indexed draw: at most `MAX_VERTICES` vertices,
/// and every index names one of them.
pub fn check_mesh(vertex_count: usize, indices: &Vec<u16>) -> (r: Result<(), MeshError>)
    ensures
        r == mesh_check(vertex_count, indices@),
{
    if vertex_count > MAX_VERTICES {
        return Err(MeshError::TooManyVertices);
    }
    let mut i: usize = 0;
    while i < indices.len()
        invariant
            0 <= i <= indices@.len(),
            forall|j: int| 0 <= j < i ==> (indices@[j] as usize) < vertex_count,
        decreases indices@.len() - i,
    {
        if indices[i] as usize >= vertex_count {
            return Err(MeshError::IndexOutOfRange);
        }
        i = i + 1;
    }
    Ok(())
}

/// The twenty faces of the icosahedron a sphere starts from, three vertex
/// indices each, over its twelve vertices.
pub open spec fn icosahedron_faces() -> Seq<u16> {
    seq![
        0u16, 11, 5, 0, 5, 1, 0, 1, 7, 0, 7, 10, 0, 10, 11, 1, 5, 9, 5, 11, 4, 11, 10, 2, 10, 7, 6, 7, 1, 8, 3, 9, 4, 3, 4, 2, 3, 2, 6, 3, 6, 8, 3, 8, 9, 4, 9, 5, 2, 4, 11, 6, 2, 10, 8, 6, 7, 9, 8, 1,
    ]
}

/// The twelve indices that split the face `a b c` into four, its new vertices
/// (the midpoints of `a b`, `b c` and `c a`) numbered `m`, `m + 1`, `m + 2`.
pub open spec fn split_face(a: u16, b: u16, c: u16, m: int) -> Seq<u16> {
    let ab = m as u16;
    let bc = (m + 1) as u16;
    let ca = (m + 2) as u16;
    seq![a, ab, ca, ab, b, bc, ab, bc, ca, ca, bc, c]
}

/// Every face of `faces` split into four, the new vertices numbered from `n`
/// on, three per face in order.
pub open spec fn subdivided(faces: Seq<u16>, n: int) -> Seq<u16>
    decreases faces.len(),
{
    if faces.len() < 3 {
        Seq::empty()
    } else {
        let f = faces.len() - 3;
        subdivided(faces.take(f), n) + split_face(faces[f], faces[f + 1], faces[f + 2], n + f)
    }
}

/// The vertex pairs whose midpoints `subdivided` adds, in the order it numbers them.
pub open spec fn midpoint_pairs(faces: Seq<u16>) -> Seq<(u16, u16)>
    decreases faces.len(),
{
    if faces.len() < 3 {
        Seq::empty()
    } else {
        let f = faces.len() - 3;
        midpoint_pairs(faces.take(f)) + seq![
            (faces[f], faces[f + 1]),
            (faces[f + 1], faces[f + 2]),
            (faces[f + 2], faces[f]),
        ]
    }
}

/// The faces, the midpoint pairs of the added vertices and the vertex count of
/// an icosphere subdivided `resolution` times.
pub open spec fn sphere_shape(resolution: nat) -> (Seq<u16>, Seq<(u16, u16)>, int)
    decreases resolution,
{
    if resolution == 0 {
        (icosahedron_faces(), Seq::empty(), 12)
    } else {
        let (faces, pairs, n) = sphere_shape((resolution - 1) as nat);
        (subdivided(faces, n), pairs + midpoint_pairs(faces), n + faces.len())
    }
}

/// The index structure of an icosphere. Its vertices are the twelve of the
/// icosahedron followed by one for each pair of `midpoints`: the midpoint of
/// the two vertices it names, pushed out onto the unit sphere.
pub struct SphereTopology {
    pub indices: Vec<u16>,
    pub midpoints: Vec<(u16, u16)>,
    pub vertex_count: usize,
}

proof fn lemma_sphere_grows(r: nat, s: nat)
    requires
        r <= s,
    ensures
        sphere_shape(r).2 <= sphere_shape(s).2,
    decreases s,
{
    if r < s {
        lemma_sphere_grows(r, (s - 1) as nat);
    }
}

proof fn lemma_subdivided_len(faces: Seq<u16>, n: int)
    requires
        faces.len() % 3 == 0,
    ensures
        subdivided(faces, n).len() == 4 * faces.len(),
        midpoint_pairs(faces).len() == faces.len(),
    decreases faces.len(),
{
    if faces.len() >= 3 {
        lemma_subdivided_len(faces.take(faces.len() - 3), n);
    }
}

proof fn lemma_sphere_faces_len(r: nat)
    ensures
        sphere_shape(r).0.len() == 3 * sphere_shape(r).2 + 24,
    decreases r,
{
    if r > 0 {
        lemma_sphere_faces_len((r - 1) as nat);
        lemma_subdivided_len(sphere_shape((r - 1) as nat).0, sphere_shape((r - 1) as nat).2);
    }
}

fn icosahedron() -> (r: Vec<u16>)
    ensures
        r@ == icosahedron_faces(),
{
    let v = vec![
        0u16, 11, 5, 0, 5, 1, 0, 1, 7, 0, 7, 10, 0, 10, 11,
        1, 5, 9, 5, 11, 4, 11, 10, 2, 10, 7, 6, 7, 1, 8,
        3, 9, 4, 3, 4, 2, 3, 2, 6, 3, 6, 8, 3, 8, 9,
        4, 9, 5, 2, 4, 11, 6, 2, 10, 8, 6, 7, 9, 8, 1,
    ];
    assert(v@ =~= icosahedron_faces());
    v
}

/// Splits each face of `faces` into four, numbering the new vertices from `n`
/// on, and appends the vertex pairs they are the midpoints of to `pairs`.
fn subdivide(faces: &Vec<u16>, n: usize, pairs: &mut Vec<(u16, u16)>) -> (r: Vec<u16>)
    requires
        faces@.len() % 3 == 0,
        n + faces@.len() <= MAX_VERTICES,
    ensures
        r@ == subdivided(faces@, n as int),
        final(pairs)@ == old(pairs)@ + midpoint_pairs(faces@),
{
    let mut out: Vec<u16> = Vec::new();
    let mut i: usize = 0;
    while i < faces.len()
        invariant
            i % 3 == 0,
            i <= faces@.len(),
            faces@.len() % 3 == 0,
            n + faces@.len() <= MAX_VERTICES,
            out@ == subdivided(faces@.take(i as int), n as int),
            pairs@ == old(pairs)@ + midpoint_pairs(faces@.take(i as int)),
        decreases faces@.len() - i,
    {
        let a = faces[i];
        let b = faces[i + 1];
        let c = faces[i + 2];
        let ab = (n + i) as u16;
        let bc = (n + i + 1) as u16;
        let ca = (n + i + 2) as u16;
        let ghost before = out@;
        let ghost before_pairs = pairs@;
        out.push(a);
        out.push(ab);
        out.push(ca);
        out.push(ab);
        out.push(b);
        out.push(bc);
        out.push(ab);
        out.push(bc);
        out.push(ca);
        out.push(ca);
        out.push(bc);
        out.push(c);
        pairs.push((a, b));
        pairs.push((b, c));
        pairs.push((c, a));
        let ghost next = faces@.take(i + 3);
        assert(next.take(i as int) =~= faces@.take(i as int));
        assert(next[i as int] == a && next[i + 1] == b && next[i + 2] == c);
        assert(out@ =~= before + split_face(a, b, c, n + i));
        assert(pairs@ =~= before_pairs + seq![(a, b), (b, c), (c, a)]);
        i = i + 3;
    }
    assert(faces@.take(i as int) =~= faces@);
    out
}

/// The index structure of an icosphere subdivided `resolution` times, or
/// `TooManyVertices` when it would have more than `MAX_VERTICES` vertices
/// (from six subdivisions on).
pub fn sphere_topology(resolution: u8) -> (r: Result<SphereTopology, MeshError>)
    ensures
        r is Ok <==> sphere_shape(resolution as nat).2 <= MAX_VERTICES,
        r matches Ok(t) ==> t.indices@ == sphere_shape(resolution as nat).0
            && t.midpoints@ == sphere_shape(resolution as nat).1
            && t.vertex_count == sphere_shape(resolution as nat).2,
        r matches Err(e) ==> e == MeshError::TooManyVertices,
{
    let mut faces = icosahedron();
    let mut pairs: Vec<(u16, u16)> = Vec::new();
    let mut n: usize = 12;
    let mut step: u8 = 0;
    proof {
        lemma_sphere_faces_len(0);
    }
    while step < resolution
        invariant
            step <= resolution,
            faces@ == sphere_shape(step as nat).0,
            pairs@ == sphere_shape(step as nat).1,
            n == sphere_shape(step as nat).2,
            n <= MAX_VERTICES,
            faces@.len() == 3 * n + 24,
        decreases resolution - step,
    {
        if n + faces.len() > MAX_VERTICES {
            proof {
                lemma_sphere_grows((step + 1) as nat, resolution as nat);
            }
            return Err(MeshError::TooManyVertices);
        }
        let next = subdivide(&faces, n, &mut pairs);
        proof {
            lemma_sphere_faces_len((step + 1) as nat);
        }
        n = n + faces.len();
        faces = next;
        step = step + 1;
    }
    Ok(SphereTopology { indices: faces, midpoints: pairs, vertex_count: n })
}

} // verus!
