//! Operators that work element by element.

use vstd::prelude::*;

use crate::launch::{Launch, Operator};
use crate::stream::Stream;
use crate::tensor::{AclDataType, AclTensor};

verus! {

/// In-place addition: `self_ += other * alpha`.
///
/// - `stream`: execution stream
/// - `self_`: the tensor to add to
/// - `other`: the tensor to add
/// - `alpha`: the bits of the factor of `other`, typically those of `1.0`
pub fn inplace_add(stream: &Stream, self_: &AclTensor, other: &AclTensor, alpha: u32) -> (launch:
    Launch)
    ensures
        launch == Launch::initial(
            Operator::InplaceAdd { self_: self_.handle(), other: other.handle(), alpha },
            stream.handle(),
        ),
        launch.operator == (Operator::InplaceAdd {
            self_: self_.handle(),
            other: other.handle(),
            alpha,
        }),
        launch.stream == stream.handle(),
        launch.wf(),
{
    Launch::new(
        Operator::InplaceAdd { self_: self_.raw(), other: other.raw(), alpha },
        stream.raw(),
    )
}

/// Multiplication element by element: `out = a * b`.
///
/// - `stream`: execution stream
/// - `a`, `b`: the factors
/// - `out`: the result, allocated beforehand in the same shape
pub fn mul(stream: &Stream, a: &AclTensor, b: &AclTensor, out: &mut AclTensor) -> (launch: Launch)
    ensures
        *final(out) == *old(out),
        launch == Launch::initial(
            Operator::Mul { a: a.handle(), b: b.handle(), out: old(out).handle() },
            stream.handle(),
        ),
        launch.operator == (Operator::Mul {
            a: a.handle(),
            b: b.handle(),
            out: old(out).handle(),
        }),
        launch.stream == stream.handle(),
        launch.wf(),
{
    Launch::new(Operator::Mul { a: a.raw(), b: b.raw(), out: out.raw() }, stream.raw())
}

/// Conversion of the element type: `out = cast(input, target_dtype)`.
///
/// - `stream`: execution stream
/// - `input`: the source
/// - `target_dtype`: the element type wanted
/// - `out`: the result, allocated beforehand with `target_dtype`
pub fn cast(
    stream: &Stream,
    input: &AclTensor,
    target_dtype: AclDataType,
    out: &mut AclTensor,
) -> (launch: Launch)
    ensures
        *final(out) == *old(out),
        launch == Launch::initial(
            Operator::Cast { input: input.handle(), target_dtype, out: old(out).handle() },
            stream.handle(),
        ),
        launch.operator == (Operator::Cast {
            input: input.handle(),
            target_dtype,
            out: old(out).handle(),
        }),
        launch.stream == stream.handle(),
        launch.wf(),
{
    Launch::new(
        Operator::Cast { input: input.raw(), target_dtype, out: out.raw() },
        stream.raw(),
    )
}

} // verus!
