use vstd::prelude::*;

use crate::matrix::{identity, is_identity, is_transpose_of, lemma_identity_symmetric, lemma_transpose_involutive, transpose, Mat4};

verus! {

/// Size in bytes of the camera record as the GPU reads it: the eye position
/// (four scalars) and four 4x4 matrices, all of 32-bit scalars.
pub const CAMERA_UNIFORM_BYTES: usize = 4 * 4 + 4 * 16 * 4;

/// Size in bytes of the light record as the GPU reads it: two three-scalar
/// vectors, each followed by one 32-bit padding word.
pub const LIGHT_UNIFORM_BYTES: usize = 2 * (3 * 4 + 4);

/// Snapshot of the camera and projection state in the field order of the GPU
/// uniform buffer. The scalar type is left open; the renderer uses `f32`. The
/// fields change only together, through `update_view_proj`.
pub struct CameraUniform<T> {
    view_position: [T; 4],
    view: Mat4<T>,
    view_proj: Mat4<T>,
    inv_proj: Mat4<T>,
    inv_view: Mat4<T>,
}

impl<T: Copy> CameraUniform<T> {
    pub closed spec fn spec_view_position(&self) -> [T; 4] {
        self.view_position
    }

    pub closed spec fn spec_view(&self) -> Mat4<T> {
        self.view
    }

    pub closed spec fn spec_view_proj(&self) -> Mat4<T> {
        self.view_proj
    }

    pub closed spec fn spec_inv_proj(&self) -> Mat4<T> {
        self.inv_proj
    }

    pub closed spec fn spec_inv_view(&self) -> Mat4<T> {
        self.inv_view
    }

    /// The inverse view matrix is taken as the transpose of the view matrix.
    pub open spec fn wf(&self) -> bool {
        is_transpose_of(self.spec_inv_view(), self.spec_view())
    }

    /// Every field is what a recomputation from the given camera-derived values
    /// yields: nothing of an earlier record enters it.
    pub open spec fn refreshed_from(
        &self,
        view_position: [T; 4],
        view: Mat4<T>,
        view_proj: Mat4<T>,
        inv_proj: Mat4<T>,
    ) -> bool {
        &&& self.spec_view_position() == view_position
        &&& self.spec_view() == view
        &&& self.spec_view_proj() == view_proj
        &&& self.spec_inv_proj() == inv_proj
        &&& is_transpose_of(self.spec_inv_view(), view)
    }

    /// The record before any camera is known: a zero eye position and identity
    /// matrices.
    pub fn new(zero: T, one: T) -> (u: Self)
        ensures
            u.wf(),
            u.spec_view_position()@ == seq![zero, zero, zero, zero],
            is_identity(u.spec_view(), zero, one),
            is_identity(u.spec_view_proj(), zero, one),
            is_identity(u.spec_inv_proj(), zero, one),
            is_identity(u.spec_inv_view(), zero, one),
    {
        let id = identity(zero, one);
        proof {
            lemma_identity_symmetric(id, zero, one);
        }
        let u = CameraUniform {
            view_position: [zero, zero, zero, zero],
            view: id,
            view_proj: id,
            inv_proj: id,
            inv_view: id,
        };
        assert(u.view_position@ =~= seq![zero, zero, zero, zero]);
        u
    }

    /// Overwrites every field from the camera's homogeneous eye position, its
    /// view matrix, the product of projection and view, and the inverse of the
    /// projection. The inverse view is the transpose of `view`.
    pub fn update_view_proj(
        &mut self,
        view_position: [T; 4],
        view: Mat4<T>,
        view_proj: Mat4<T>,
        inv_proj: Mat4<T>,
    )
        ensures
            final(self).wf(),
            final(self).refreshed_from(view_position, view, view_proj, inv_proj),
    {
        let inv_view = transpose(&view);
        self.view_position = view_position;
        self.view = view;
        self.view_proj = view_proj;
        self.inv_proj = inv_proj;
        self.inv_view = inv_view;
    }

    pub fn view_position(&self) -> (r: [T; 4])
        ensures
            r == self.spec_view_position(),
    {
        self.view_position
    }

    pub fn view(&self) -> (r: Mat4<T>)
        ensures
            r == self.spec_view(),
    {
        self.view
    }

    pub fn view_proj(&self) -> (r: Mat4<T>)
        ensures
            r == self.spec_view_proj(),
    {
        self.view_proj
    }

    pub fn inv_proj(&self) -> (r: Mat4<T>)
        ensures
            r == self.spec_inv_proj(),
    {
        self.inv_proj
    }

    pub fn inv_view(&self) -> (r: Mat4<T>)
        ensures
            r == self.spec_inv_view(),
    {
        self.inv_view
    }
}

/// Recomputing the camera record twice from unchanged camera-derived values
/// gives identical records, whatever each record held before.
pub proof fn lemma_update_view_proj_idempotent<T: Copy>(
    first: CameraUniform<T>,
    second: CameraUniform<T>,
    view_position: [T; 4],
    view: Mat4<T>,
    view_proj: Mat4<T>,
    inv_proj: Mat4<T>,
)
    requires
        first.refreshed_from(view_position, view, view_proj, inv_proj),
        second.refreshed_from(view_position, view, view_proj, inv_proj),
    ensures
        first == second,
{
    assert forall|c: int| 0 <= c < 4 implies first.inv_view[c] == second.inv_view[c] by {
        assert forall|r: int| 0 <= r < 4 implies first.inv_view[c][r] == second.inv_view[c][r] by {
            assert(first.inv_view[c][r] == view[r][c]);
        }
        assert(first.inv_view[c]@ =~= second.inv_view[c]@);
    }
    assert(first.inv_view@ =~= second.inv_view@);
    assert(first.inv_view == second.inv_view);
}

/// Transposing the inverse view matrix of a well-formed camera record gives
/// back exactly its view matrix.
pub proof fn lemma_inv_view_transposes_back<T: Copy>(u: CameraUniform<T>, t: Mat4<T>)
    requires
        u.wf(),
        is_transpose_of(t, u.spec_inv_view()),
    ensures
        t == u.spec_view(),
{
    lemma_transpose_involutive(u.spec_view(), u.spec_inv_view(), t);
}

/// A single point light in the field order of the GPU uniform buffer. The
/// padding words exist for the 16-byte alignment of vectors; the constructor
/// sets them to zero and nothing changes them afterwards.
pub struct LightUniform<T> {
    position: [T; 3],
    padding: u32,
    color: [T; 3],
    padding2: u32,
}

impl<T> LightUniform<T> {
    /// Both padding words are zero.
    #[verifier::type_invariant]
    spec fn paddings_zero(&self) -> bool {
        self.padding == 0 && self.padding2 == 0
    }
}

impl<T: Copy> LightUniform<T> {
    pub closed spec fn spec_position(&self) -> [T; 3] {
        self.position
    }

    pub closed spec fn spec_color(&self) -> [T; 3] {
        self.color
    }

    pub closed spec fn spec_paddings(&self) -> (u32, u32) {
        (self.padding, self.padding2)
    }

    pub fn new(position: [T; 3], color: [T; 3]) -> (l: Self)
        ensures
            l.spec_position() == position,
            l.spec_color() == color,
            l.spec_paddings() == (0u32, 0u32),
    {
        LightUniform { position, padding: 0, color, padding2: 0 }
    }

    pub fn position(&self) -> (r: [T; 3])
        ensures
            r == self.spec_position(),
    {
        self.position
    }

    pub fn color(&self) -> (r: [T; 3])
        ensures
            r == self.spec_color(),
    {
        self.color
    }

    /// The two padding words, in buffer order; they are always zero.
    pub fn paddings(&self) -> (r: (u32, u32))
        ensures
            r == self.spec_paddings(),
            r == (0u32, 0u32),
    {
        proof {
            use_type_invariant(self);
        }
        (self.padding, self.padding2)
    }
}

} // verus!
