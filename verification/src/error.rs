//! Errors of the accelerator runtime.

use vstd::prelude::*;

verus! {

/// Why an operator refused its arguments.
#[derive(Clone, Copy, Debug, PartialEq, Eq, Structural)]
pub enum ArgumentError {
    /// The layout string holds a NUL character, so it has no C string.
    InputLayout,
    /// The runtime handed back no scalar.
    NullScalar,
}

impl ArgumentError {
    /// The text of the refusal.
    pub open spec fn text(self) -> Seq<char> {
        match self {
            ArgumentError::InputLayout => "invalid input_layout string"@,
            ArgumentError::NullScalar => "aclCreateScalar returned null"@,
        }
    }

    /// The text of the refusal, for a log or a reply.
    pub fn message(&self) -> (text: String)
        ensures
            text@ == self.text(),
    {
        match self {
            ArgumentError::InputLayout => "invalid input_layout string".to_owned(),
            ArgumentError::NullScalar => "aclCreateScalar returned null".to_owned(),
        }
    }
}

/// A failure of an accelerator call.
#[derive(Clone, Copy, Debug, PartialEq, Eq, Structural)]
pub enum AscendError {
    /// The arguments were refused before the operator ran.
    InvalidArgument(ArgumentError),
    /// A runtime call (streams, memory) returned this non-zero status.
    Acl(i32),
    /// An operator call returned this non-zero status.
    Aclnn(i32),
}

/// What a runtime status means: zero is success.
pub open spec fn acl_result(status: i32) -> Result<(), AscendError> {
    if status == 0 {
        Ok(())
    } else {
        Err(AscendError::Acl(status))
    }
}

/// What an operator status means: zero is success.
pub open spec fn aclnn_result(status: i32) -> Result<(), AscendError> {
    if status == 0 {
        Ok(())
    } else {
        Err(AscendError::Aclnn(status))
    }
}

/// Turns the status of a runtime call into a result.
pub fn check_acl(status: i32) -> (result: Result<(), AscendError>)
    ensures
        result == acl_result(status),
{
    if status == 0 {
        Ok(())
    } else {
        Err(AscendError::Acl(status))
    }
}

/// Turns the status of an operator call into a result.
pub fn check_aclnn(status: i32) -> (result: Result<(), AscendError>)
    ensures
        result == aclnn_result(status),
{
    if status == 0 {
        Ok(())
    } else {
        Err(AscendError::Aclnn(status))
    }
}

/// Zero is success, of runtime and operator calls alike; every other status is
/// reported as itself, and by which of the two it came.
pub proof fn statuses_are_told_apart(status: i32)
    ensures
        acl_result(status) is Ok <==> status == 0,
        aclnn_result(status) is Ok <==> status == 0,
        status != 0 ==> acl_result(status) == Err::<(), AscendError>(AscendError::Acl(status)),
        status != 0 ==> aclnn_result(status) == Err::<(), AscendError>(AscendError::Aclnn(status)),
{
}

} // verus!
