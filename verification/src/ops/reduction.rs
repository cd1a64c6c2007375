//! Operators that work along one dimension.

use vstd::prelude::*;

use crate::launch::{Launch, Operator};
use crate::stream::Stream;
use crate::tensor::AclTensor;

verus! {

/// Softmax: `out = softmax(x, dim)`.
///
/// - `stream`: execution stream
/// - `x`: the input
/// - `dim`: the dimension to apply it over
/// - `out`: the result, allocated beforehand in the shape of `x`
pub fn softmax(stream: &Stream, x: &AclTensor, dim: i64, out: &mut AclTensor) -> (launch: Launch)
    ensures
        *final(out) == *old(out),
        launch == Launch::initial(
            Operator::Softmax { x: x.handle(), dim, out: old(out).handle() },
            stream.handle(),
        ),
        launch.operator == (Operator::Softmax { x: x.handle(), dim, out: old(out).handle() }),
        launch.stream == stream.handle(),
        launch.wf(),
{
    Launch::new(Operator::Softmax { x: x.raw(), dim, out: out.raw() }, stream.raw())
}

/// The index of the largest element along a dimension.
///
/// - `stream`: execution stream
/// - `x`: the input
/// - `dim`: the dimension to reduce
/// - `keepdim`: whether the reduced dimension stays in the shape
/// - `out`: the result, of 64-bit integers in the reduced shape
pub fn argmax(stream: &Stream, x: &AclTensor, dim: i64, keepdim: bool, out: &mut AclTensor) -> (launch:
    Launch)
    ensures
        *final(out) == *old(out),
        launch == Launch::initial(
            Operator::ArgMax { x: x.handle(), dim, keepdim, out: old(out).handle() },
            stream.handle(),
        ),
        launch.operator == (Operator::ArgMax {
            x: x.handle(),
            dim,
            keepdim,
            out: old(out).handle(),
        }),
        launch.stream == stream.handle(),
        launch.wf(),
{
    Launch::new(Operator::ArgMax { x: x.raw(), dim, keepdim, out: out.raw() }, stream.raw())
}

} // verus!
