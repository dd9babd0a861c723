//! The matrices that a chain of transformations multiplies together.

use vstd::prelude::*;

verus! {

/// `glam`'s 4x4 matrix of single-precision numbers. The library hands such
/// matrices on and multiplies them, and never looks inside one.
#[verifier::external_type_specification]
#[verifier::external_body]
pub struct ExMat4(glam::Mat4);

/// The product `lhs * rhs` of two 4x4 matrices as `glam` computes it.
///
/// Column `i` of the product is `lhs` applied to column `i` of `rhs`. Rounding
/// aside, this is the matrix that transforms a column vector by `rhs` first
/// and by `lhs` second.
pub uninterp spec fn matrix_product(lhs: glam::Mat4, rhs: glam::Mat4) -> glam::Mat4;

/// Multiplies two matrices with `glam`'s `Mul` for `Mat4`.
///
/// Taken on trust: the result is [`matrix_product`] of the two arguments. That
/// is to say that the multiplication depends on the entries of the two
/// matrices and on nothing else, which is how `glam` writes it: for each
/// column of `rhs`, four columns of `lhs` are scaled and added up, one
/// multiplication and one addition at a time. It accepts every pair of
/// matrices.
#[verifier::external_body]
pub(crate) fn multiply(lhs: glam::Mat4, rhs: glam::Mat4) -> (product: glam::Mat4)
    ensures
        product == matrix_product(lhs, rhs),
{
    lhs * rhs
}

} // verus!
