//! Tensor handles.

use vstd::prelude::*;

verus! {

/// A tensor on the device, known here by its handle alone.
///
/// The handle is an address that only the runtime looks behind; it is never
/// null.
#[derive(Debug)]
pub struct AclTensor {
    raw: usize,
}

impl AclTensor {
    /// The address of the tensor's descriptor.
    pub closed spec fn handle(&self) -> usize {
        self.raw
    }

    #[verifier::type_invariant]
    spec fn present(&self) -> bool {
        self.raw != 0
    }

    /// Takes over a handle that the runtime created; a null handle is no tensor.
    pub fn from_raw(raw: usize) -> (tensor: Option<AclTensor>)
        ensures
            tensor is Some <==> raw != 0,
            tensor matches Some(t) ==> t.handle() == raw,
    {
        if raw == 0 {
            None
        } else {
            Some(AclTensor { raw })
        }
    }

    /// The raw handle, for passing to operators.
    pub fn raw(&self) -> (raw: usize)
        ensures
            raw == self.handle(),
            raw != 0,
    {
        proof {
            use_type_invariant(self);
        }
        self.raw
    }
}

/// An element type, by the runtime's own code for it.
#[derive(Clone, Copy, Debug, PartialEq, Eq, Structural)]
pub struct AclDataType {
    /// The runtime's code.
    pub code: i32,
}

} // verus!
