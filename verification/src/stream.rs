//! Streams: queues of work on the current device.

use vstd::prelude::*;

use crate::error::{acl_result, check_acl, AscendError};

verus! {

/// A stream of the runtime, owned from creation to destruction.
///
/// The runtime calls themselves are made by the owner of a `Stream`:
/// each method says which call its argument answers, or which call is due.
#[derive(Debug)]
pub struct Stream {
    raw: usize,
}

impl Stream {
    /// The address of the stream, null where the runtime gave none.
    pub closed spec fn handle(&self) -> usize {
        self.raw
    }

    /// Takes over a new stream on the current device.
    ///
    /// `status` is what `aclrtCreateStream` returned and `raw` what it left in
    /// its output argument, null before the call.
    pub fn new(status: i32, raw: usize) -> (stream: Result<Stream, AscendError>)
        ensures
            stream is Ok <==> status == 0,
            stream matches Ok(s) ==> s.handle() == raw,
            stream matches Err(e) ==> acl_result(status) == Err::<(), _>(e),
            stream matches Err(e) ==> e == AscendError::Acl(status),
    {
        match check_acl(status) {
            Ok(()) => Ok(Stream { raw }),
            Err(e) => Err(e),
        }
    }

    /// The result of waiting for all tasks on this stream.
    ///
    /// `status` is what `aclrtSynchronizeStream` returned for `self.raw()`.
    pub fn synchronize(&self, status: i32) -> (result: Result<(), AscendError>)
        ensures
            result == acl_result(status),
            result is Ok <==> status == 0,
            result matches Err(e) ==> e == AscendError::Acl(status),
    {
        check_acl(status)
    }

    /// The raw handle, for passing to operators.
    pub fn raw(&self) -> (raw: usize)
        ensures
            raw == self.handle(),
    {
        self.raw
    }

    /// Gives the stream up. The handle returned, if any, is due to be destroyed
    /// with `aclrtDestroyStream`; its status is ignored. A null handle is not
    /// destroyed.
    pub fn drop(self) -> (destroy: Option<usize>)
        ensures
            destroy == (if self.handle() != 0 {
                Some(self.handle())
            } else {
                None
            }),
    {
        if self.raw != 0 {
            Some(self.raw)
        } else {
            None
        }
    }
}

} // verus!
