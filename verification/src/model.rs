//! Mesh data: attribute arrays plus triangular faces of attribute
//! indices.  Index validity is checked once, when a mesh is built; the
//! rest of the pipeline relies on the resulting invariant.

use vstd::prelude::*;

use crate::geom::Vec2fx;
use crate::geom::Vec3fx;

verus! {

/// One corner of a face: independent indices into the position, normal
/// and UV arrays.
#[derive(Clone, Copy, PartialEq, Eq, Structural, Debug)]
pub struct VertexInfo {
    /// Index into the positions.
    pub v: usize,
    /// Index into the normals.
    pub vn: usize,
    /// Index into the UV coordinates.
    pub vt: usize,
}

/// A triangular face: exactly three attribute-index records.
#[derive(Clone, Copy, PartialEq, Eq, Structural, Debug)]
pub struct Face {
    pub a: VertexInfo,
    pub b: VertexInfo,
    pub c: VertexInfo,
}

/// The corner of `f` in vertex slot `n` (0, 1 or 2).
pub open spec fn face_slot_s(f: Face, n: int) -> VertexInfo {
    if n == 0 {
        f.a
    } else if n == 1 {
        f.b
    } else {
        f.c
    }
}

/// Pick one of the three corners of a face.
pub fn face_slot(f: &Face, n: usize) -> (r: VertexInfo)
    requires
        n < 3,
    ensures
        r == face_slot_s(*f, n as int),
{
    if n == 0 {
        f.a
    } else if n == 1 {
        f.b
    } else {
        f.c
    }
}

/// Triangulated mesh geometry.
#[derive(Clone, Debug)]
pub struct Model {
    verts: Vec<Vec3fx>,
    norms: Vec<Vec3fx>,
    uvs: Vec<Vec2fx>,
    faces: Vec<Face>,
}

/// All indices of one corner lie within the attribute arrays.
pub open spec fn info_in_bounds(i: VertexInfo, nv: int, nn: int, nt: int) -> bool {
    i.v < nv && i.vn < nn && i.vt < nt
}

impl Model {
    /// Every index of every face is within bounds of its attribute
    /// array.
    pub open spec fn wf(&self) -> bool {
        forall|i: int, n: int|
            0 <= i < self.spec_faces().len() && 0 <= n < 3 ==> info_in_bounds(
                face_slot_s(self.spec_faces()[i], n),
                self.spec_verts().len() as int,
                self.spec_norms().len() as int,
                self.spec_uvs().len() as int,
            )
    }

    pub closed spec fn spec_verts(&self) -> Seq<Vec3fx> {
        self.verts@
    }

    pub closed spec fn spec_norms(&self) -> Seq<Vec3fx> {
        self.norms@
    }

    pub closed spec fn spec_uvs(&self) -> Seq<Vec2fx> {
        self.uvs@
    }

    pub closed spec fn spec_faces(&self) -> Seq<Face> {
        self.faces@
    }

    /// Build a mesh, validating every face index; `None` exactly when
    /// some index is out of bounds (a load-time error).
    pub fn new(verts: Vec<Vec3fx>, norms: Vec<Vec3fx>, uvs: Vec<Vec2fx>, faces: Vec<Face>) -> (r:
        Option<Model>)
        ensures
            r is Some <==> (forall|i: int, n: int|
                0 <= i < faces@.len() && 0 <= n < 3 ==> info_in_bounds(
                    face_slot_s(faces@[i], n),
                    verts@.len() as int,
                    norms@.len() as int,
                    uvs@.len() as int,
                )),
            r is Some ==> {
                let m = r->Some_0;
                &&& m.wf()
                &&& m.spec_verts() == verts@
                &&& m.spec_norms() == norms@
                &&& m.spec_uvs() == uvs@
                &&& m.spec_faces() == faces@
            },
    {
        let nv = verts.len();
        let nn = norms.len();
        let nt = uvs.len();
        let mut i: usize = 0;
        while i < faces.len()
            invariant
                i <= faces.len(),
                nv == verts.len(),
                nn == norms.len(),
                nt == uvs.len(),
                forall|k: int, n: int|
                    0 <= k < i && 0 <= n < 3 ==> info_in_bounds(
                        face_slot_s(faces@[k], n),
                        nv as int,
                        nn as int,
                        nt as int,
                    ),
            decreases faces.len() - i,
        {
            let f = faces[i];
            let mut n: usize = 0;
            while n < 3
                invariant
                    n <= 3,
                    i < faces.len(),
                    f == faces@[i as int],
                    nv == verts.len(),
                    nn == norms.len(),
                    nt == uvs.len(),
                    forall|k: int|
                        0 <= k < n ==> info_in_bounds(face_slot_s(f, k), nv as int, nn as int, nt as int),
                decreases 3 - n,
            {
                let info = face_slot(&f, n);
                if info.v >= nv || info.vn >= nn || info.vt >= nt {
                    proof {
                        assert(!info_in_bounds(
                            face_slot_s(faces@[i as int], n as int),
                            nv as int,
                            nn as int,
                            nt as int,
                        ));
                    }
                    return None;
                }
                n += 1;
            }
            i += 1;
        }
        Some(Model { verts, norms, uvs, faces })
    }

    /// The vertex positions.
    pub fn get_verts(&self) -> (r: &Vec<Vec3fx>)
        ensures
            r@ == self.spec_verts(),
    {
        &self.verts
    }

    /// The vertex normals.
    pub fn get_norms(&self) -> (r: &Vec<Vec3fx>)
        ensures
            r@ == self.spec_norms(),
    {
        &self.norms
    }

    /// The UV coordinates.
    pub fn get_uvs(&self) -> (r: &Vec<Vec2fx>)
        ensures
            r@ == self.spec_uvs(),
    {
        &self.uvs
    }

    /// The triangular faces.
    pub fn get_faces(&self) -> (r: &Vec<Face>)
        ensures
            r@ == self.spec_faces(),
    {
        &self.faces
    }
}

} // verus!
