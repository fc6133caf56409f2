use vstd::prelude::*;

verus! {

/// A 4x4 matrix stored column by column, as GPU uniform buffers expect it.
pub type Mat4<T> = [[T; 4]; 4];

/// The transpose of `m`: the entry at column `c`, row `r` of the result is
/// the entry at column `r`, row `c` of `m`.
pub open spec fn is_transpose_of<T>(t: Mat4<T>, m: Mat4<T>) -> bool {
    forall|c: int, r: int| 0 <= c < 4 && 0 <= r < 4 ==> #[trigger] t[c][r] == m[r][c]
}

/// Returns the transpose of `m`.
pub fn transpose<T: Copy>(m: &Mat4<T>) -> (t: Mat4<T>)
    ensures
        is_transpose_of(t, *m),
{
    [
        [m[0][0], m[1][0], m[2][0], m[3][0]],
        [m[0][1], m[1][1], m[2][1], m[3][1]],
        [m[0][2], m[1][2], m[2][2], m[3][2]],
        [m[0][3], m[1][3], m[2][3], m[3][3]],
    ]
}

/// The matrix with `one` on the diagonal and `zero` everywhere else.
pub open spec fn is_identity<T>(m: Mat4<T>, zero: T, one: T) -> bool {
    forall|c: int, r: int|
        0 <= c < 4 && 0 <= r < 4 ==> #[trigger] m[c][r] == if c == r {
            one
        } else {
            zero
        }
}

/// Builds the identity matrix of a scalar type from its zero and its one.
pub fn identity<T: Copy>(zero: T, one: T) -> (m: Mat4<T>)
    ensures
        is_identity(m, zero, one),
{
    [[one, zero, zero, zero], [zero, one, zero, zero], [zero, zero, one, zero], [
        zero,
        zero,
        zero,
        one,
    ]]
}

/// Transposing twice gives back the matrix that was transposed.
pub proof fn lemma_transpose_involutive<T>(m: Mat4<T>, t: Mat4<T>, tt: Mat4<T>)
    requires
        is_transpose_of(t, m),
        is_transpose_of(tt, t),
    ensures
        tt == m,
{
    assert forall|c: int| 0 <= c < 4 implies tt[c] == m[c] by {
        assert forall|r: int| 0 <= r < 4 implies tt[c][r] == m[c][r] by {
            assert(tt[c][r] == t[r][c]);
        }
        assert(tt[c]@ =~= m[c]@);
    }
    assert(tt@ =~= m@);
}

/// The identity matrix is its own transpose.
pub proof fn lemma_identity_symmetric<T>(m: Mat4<T>, zero: T, one: T)
    requires
        is_identity(m, zero, one),
    ensures
        is_transpose_of(m, m),
{
    assert forall|c: int, r: int| 0 <= c < 4 && 0 <= r < 4 implies #[trigger] m[c][r] == m[r][c] by {
        assert(m[c][r] == if c == r { one } else { zero });
        assert(m[r][c] == if r == c { one } else { zero });
    }
}

} // verus!
