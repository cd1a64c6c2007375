//! One operator call, from its arguments to its result.
//!
//! An operator runs in two stages. The first is told the arguments and answers
//! with the size of the scratch memory that it wants and an executor; the
//! second is handed that scratch memory and the executor, and puts the work on
//! a stream. A [`Launch`] is the state between the calls: [`Launch::pending`]
//! is the call that is due, [`Launch::advance`] takes its answer.

use vstd::prelude::*;

use crate::error::{aclnn_result, check_aclnn, ArgumentError, AscendError};
use crate::tensor::AclDataType;

verus! {

/// The arguments of the attention operator. Handles are addresses, `0` is a
/// null handle; `scale` and `keep_prob` are the bits of 64-bit floats.
#[derive(Debug)]
pub struct AttentionArgs {
    pub query: usize,
    pub key: usize,
    pub value: usize,
    pub real_shift: usize,
    pub drop_mask: usize,
    pub padding_mask: usize,
    pub atten_mask: usize,
    pub prefix: usize,
    pub scale: u64,
    pub keep_prob: u64,
    pub pre_tokens: i64,
    pub next_tokens: i64,
    pub head_num: i64,
    /// The layout's name as a C string, terminator included.
    pub input_layout: Vec<u8>,
    pub inner_precise: i64,
    pub sparse_mode: i64,
    pub softmax_max: usize,
    pub softmax_sum: usize,
    pub softmax_out: usize,
    pub attention_out: usize,
}

/// An operator with its arguments. Tensors are given by their handles.
#[derive(Debug)]
pub enum Operator {
    /// Attention over a whole prompt.
    FlashAttentionScore(AttentionArgs),
    /// `self_ += other * alpha`; `alpha` is the bits of a 32-bit float.
    InplaceAdd { self_: usize, other: usize, alpha: u32 },
    /// `out = a * b`, element by element.
    Mul { a: usize, b: usize, out: usize },
    /// `out = input`, as elements of `target_dtype`.
    Cast { input: usize, target_dtype: AclDataType, out: usize },
    /// `out = softmax(x, dim)`.
    Softmax { x: usize, dim: i64, out: usize },
    /// `out` is the index of the largest element of `x` along `dim`.
    ArgMax { x: usize, dim: i64, keepdim: bool, out: usize },
}

/// Which pair of runtime functions an operator uses.
#[derive(Clone, Copy, Debug, PartialEq, Eq, Structural)]
pub enum Kernel {
    FlashAttentionScore,
    InplaceAdd,
    Mul,
    Cast,
    Softmax,
    ArgMax,
}

impl Operator {
    /// The pair of runtime functions of this operator.
    pub open spec fn spec_kernel(&self) -> Kernel {
        match self {
            Operator::FlashAttentionScore(_) => Kernel::FlashAttentionScore,
            Operator::InplaceAdd { .. } => Kernel::InplaceAdd,
            Operator::Mul { .. } => Kernel::Mul,
            Operator::Cast { .. } => Kernel::Cast,
            Operator::Softmax { .. } => Kernel::Softmax,
            Operator::ArgMax { .. } => Kernel::ArgMax,
        }
    }

    /// The tensors that this operator cannot do without.
    pub open spec fn tensors(&self) -> Seq<usize> {
        match self {
            Operator::FlashAttentionScore(args) => seq![
                args.query,
                args.key,
                args.value,
                args.softmax_max,
                args.softmax_sum,
                args.attention_out,
            ],
            Operator::InplaceAdd { self_, other, .. } => seq![*self_, *other],
            Operator::Mul { a, b, out } => seq![*a, *b, *out],
            Operator::Cast { input, out, .. } => seq![*input, *out],
            Operator::Softmax { x, out, .. } => seq![*x, *out],
            Operator::ArgMax { x, out, .. } => seq![*x, *out],
        }
    }

    /// None of the tensors that this operator needs is null.
    pub open spec fn tensors_present(&self) -> bool {
        forall|i: int| 0 <= i < self.tensors().len() ==> self.tensors()[i] != 0
    }

    /// The pair of runtime functions of this operator.
    pub fn kernel(&self) -> (kernel: Kernel)
        ensures
            kernel == self.spec_kernel(),
    {
        match self {
            Operator::FlashAttentionScore(_) => Kernel::FlashAttentionScore,
            Operator::InplaceAdd { .. } => Kernel::InplaceAdd,
            Operator::Mul { .. } => Kernel::Mul,
            Operator::Cast { .. } => Kernel::Cast,
            Operator::Softmax { .. } => Kernel::Softmax,
            Operator::ArgMax { .. } => Kernel::ArgMax,
        }
    }
}

/// A call that is due.
#[derive(Clone, Copy, Debug, PartialEq, Eq, Structural)]
pub enum Call {
    /// `aclCreateScalar` on the 32-bit float with these bits.
    CreateScalar { alpha: u32 },
    /// The first stage of `kernel`, on the arguments of the launch's operator
    /// and, where there is one, on the scalar.
    GetWorkspaceSize { kernel: Kernel, alpha_scalar: Option<usize> },
    /// Device memory of this many bytes.
    AllocateWorkspace { bytes: usize },
    /// The second stage of `kernel`. `workspace` is null where none was
    /// allocated.
    Execute {
        kernel: Kernel,
        workspace: usize,
        workspace_size: u64,
        executor: usize,
        stream: usize,
    },
    /// `aclDestroyScalar`.
    DestroyScalar { scalar: usize },
    /// Gives back the device memory at this address.
    ReleaseWorkspace { workspace: usize },
}

/// The answer to a call.
#[derive(Clone, Copy, Debug, PartialEq, Eq)]
pub enum Reply {
    /// The scalar that was created, or null.
    Scalar(usize),
    /// The status of the first stage, and what it left in its output
    /// arguments.
    WorkspaceSize { status: i32, size: u64, executor: usize },
    /// The address of the memory, or why there is none.
    Workspace(Result<usize, AscendError>),
    /// The status of the second stage.
    Executed(i32),
    /// The call is over; it has nothing to say.
    Completed,
}

/// Which call is due, with what the calls after it will need.
#[derive(Clone, Copy, Debug, PartialEq, Eq)]
pub enum Stage {
    /// The scalar is to be created.
    CreateScalar { alpha: u32 },
    /// The first stage is to run.
    Query { scalar: Option<usize> },
    /// Scratch memory is to be allocated.
    Allocate { scalar: Option<usize>, size: u64, executor: usize },
    /// The second stage is to run.
    Execute { scalar: Option<usize>, workspace: Option<usize>, size: u64, executor: usize },
    /// The scalar `due` is to be destroyed; the result is known.
    DestroyScalar { due: usize, workspace: Option<usize>, result: Result<(), AscendError> },
    /// The scratch memory `due` is to be given back; the result is known.
    Release { due: usize, result: Result<(), AscendError> },
}

/// An operator call in progress.
#[derive(Debug)]
pub struct Launch {
    /// The operator and its arguments.
    pub operator: Operator,
    /// The stream that the work goes to.
    pub stream: usize,
    /// Which call is due.
    pub stage: Stage,
}

/// What became of a launch when a call was answered.
#[derive(Debug)]
pub enum Progress {
    /// Another call is due.
    Pending(Launch),
    /// The operator is done, with this result.
    Done(Result<(), AscendError>),
}

impl Launch {
    /// The launch of `operator` on `stream`, before its first call. The
    /// addition needs a scalar first; every other operator starts with its
    /// first stage.
    pub open spec fn initial(operator: Operator, stream: usize) -> Launch {
        let stage = match operator {
            Operator::InplaceAdd { alpha, .. } => Stage::CreateScalar { alpha },
            _ => Stage::Query { scalar: None },
        };
        Launch { operator, stream, stage }
    }

    /// The scalar that this launch holds.
    pub open spec fn scalar(&self) -> Option<usize> {
        match self.stage {
            Stage::CreateScalar { .. } => None,
            Stage::Query { scalar } => scalar,
            Stage::Allocate { scalar, .. } => scalar,
            Stage::Execute { scalar, .. } => scalar,
            Stage::DestroyScalar { due, .. } => Some(due),
            Stage::Release { .. } => None,
        }
    }

    /// The tensors are present, and the addition alone works with a scalar,
    /// which is not null and stands for its own `alpha`.
    pub open spec fn wf(&self) -> bool {
        &&& self.operator.tensors_present()
        &&& self.scalar() matches Some(s) ==> s != 0
        &&& match self.stage {
            Stage::CreateScalar { alpha } => self.operator matches Operator::InplaceAdd {
                alpha: a,
                ..
            } && a == alpha,
            Stage::DestroyScalar { .. } => self.operator is InplaceAdd,
            Stage::Release { .. } => true,
            _ => self.operator is InplaceAdd <==> self.scalar() is Some,
        }
        &&& self.stage matches Stage::Allocate { size, .. } ==> size > 0
        &&& self.stage matches Stage::Execute { workspace, size, .. } ==> (workspace is Some <==> size
            > 0)
    }

    /// The call that is due.
    pub open spec fn call(&self) -> Call {
        match self.stage {
            Stage::CreateScalar { alpha } => Call::CreateScalar { alpha },
            Stage::Query { scalar } => Call::GetWorkspaceSize {
                kernel: self.operator.spec_kernel(),
                alpha_scalar: scalar,
            },
            Stage::Allocate { size, .. } => Call::AllocateWorkspace { bytes: size as usize },
            Stage::Execute { workspace, size, executor, .. } => Call::Execute {
                kernel: self.operator.spec_kernel(),
                workspace: match workspace {
                    Some(address) => address,
                    None => 0,
                },
                workspace_size: size,
                executor,
                stream: self.stream,
            },
            Stage::DestroyScalar { due, .. } => Call::DestroyScalar { scalar: due },
            Stage::Release { due, .. } => Call::ReleaseWorkspace { workspace: due },
        }
    }

    /// `reply` is an answer to the call that is due.
    pub open spec fn expects(&self, reply: Reply) -> bool {
        match self.stage {
            Stage::CreateScalar { .. } => reply is Scalar,
            Stage::Query { .. } => reply is WorkspaceSize,
            Stage::Allocate { .. } => reply is Workspace,
            Stage::Execute { .. } => reply is Executed,
            Stage::DestroyScalar { .. } | Stage::Release { .. } => reply is Completed,
        }
    }

    /// This launch at another stage.
    pub open spec fn at(self, stage: Stage) -> Progress {
        Progress::Pending(Launch { operator: self.operator, stream: self.stream, stage })
    }

    /// The result is known: scratch memory is given back, if there is any.
    pub open spec fn released(
        self,
        workspace: Option<usize>,
        result: Result<(), AscendError>,
    ) -> Progress {
        match workspace {
            Some(due) => self.at(Stage::Release { due, result }),
            None => Progress::Done(result),
        }
    }

    /// The result is known: the scalar is destroyed, if there is one, and then
    /// scratch memory is given back.
    pub open spec fn settled(
        self,
        scalar: Option<usize>,
        workspace: Option<usize>,
        result: Result<(), AscendError>,
    ) -> Progress {
        match scalar {
            Some(due) => self.at(Stage::DestroyScalar { due, workspace, result }),
            None => self.released(workspace, result),
        }
    }

    /// What an answer makes of this launch. What does not answer the call that
    /// is due leaves it due.
    pub open spec fn step(self, reply: Reply) -> Progress {
        match (self.stage, reply) {
            (Stage::CreateScalar { .. }, Reply::Scalar(scalar)) => if scalar == 0 {
                Progress::Done(Err(AscendError::InvalidArgument(ArgumentError::NullScalar)))
            } else {
                self.at(Stage::Query { scalar: Some(scalar) })
            },
            (Stage::Query { scalar }, Reply::WorkspaceSize { status, size, executor }) => if status
                != 0 {
                self.settled(scalar, None, aclnn_result(status))
            } else if size > 0 {
                self.at(Stage::Allocate { scalar, size, executor })
            } else {
                self.at(Stage::Execute { scalar, workspace: None, size, executor })
            },
            (Stage::Allocate { scalar, size, executor }, Reply::Workspace(workspace)) => match workspace {
                Ok(address) => self.at(
                    Stage::Execute { scalar, workspace: Some(address), size, executor },
                ),
                Err(error) => self.settled(scalar, None, Err(error)),
            },
            (Stage::Execute { scalar, workspace, .. }, Reply::Executed(status)) => self.settled(
                scalar,
                workspace,
                aclnn_result(status),
            ),
            (Stage::DestroyScalar { workspace, result, .. }, Reply::Completed) => self.released(
                workspace,
                result,
            ),
            (Stage::Release { result, .. }, Reply::Completed) => Progress::Done(result),
            (_, _) => Progress::Pending(self),
        }
    }

    /// Sets up the launch of `operator` on `stream`.
    pub fn new(operator: Operator, stream: usize) -> (launch: Launch)
        requires
            operator.tensors_present(),
        ensures
            launch == Launch::initial(operator, stream),
            launch.operator == operator,
            launch.stream == stream,
            launch.wf(),
    {
        let stage = match &operator {
            Operator::InplaceAdd { alpha, .. } => Stage::CreateScalar { alpha: *alpha },
            _ => Stage::Query { scalar: None },
        };
        Launch { operator, stream, stage }
    }

    /// The call that is due.
    pub fn pending(&self) -> (call: Call)
        ensures
            call == self.call(),
    {
        match self.stage {
            Stage::CreateScalar { alpha } => Call::CreateScalar { alpha },
            Stage::Query { scalar } => Call::GetWorkspaceSize {
                kernel: self.operator.kernel(),
                alpha_scalar: scalar,
            },
            Stage::Allocate { size, .. } => Call::AllocateWorkspace { bytes: size as usize },
            Stage::Execute { workspace, size, executor, .. } => {
                let address: usize = match workspace {
                    Some(address) => address,
                    None => 0,
                };
                Call::Execute {
                    kernel: self.operator.kernel(),
                    workspace: address,
                    workspace_size: size,
                    executor,
                    stream: self.stream,
                }
            },
            Stage::DestroyScalar { due, .. } => Call::DestroyScalar { scalar: due },
            Stage::Release { due, .. } => Call::ReleaseWorkspace { workspace: due },
        }
    }

    fn moved(self, stage: Stage) -> (progress: Progress)
        ensures
            progress == self.at(stage),
    {
        Progress::Pending(Launch { operator: self.operator, stream: self.stream, stage })
    }

    fn release(self, workspace: Option<usize>, result: Result<(), AscendError>) -> (progress:
        Progress)
        ensures
            progress == self.released(workspace, result),
    {
        match workspace {
            Some(due) => self.moved(Stage::Release { due, result }),
            None => Progress::Done(result),
        }
    }

    fn settle(
        self,
        scalar: Option<usize>,
        workspace: Option<usize>,
        result: Result<(), AscendError>,
    ) -> (progress: Progress)
        ensures
            progress == self.settled(scalar, workspace, result),
    {
        match scalar {
            Some(due) => self.moved(Stage::DestroyScalar { due, workspace, result }),
            None => self.release(workspace, result),
        }
    }

    /// Takes the answer to the call that was due. What does not answer it leaves
    /// it due.
    pub fn advance(self, reply: Reply) -> (progress: Progress)
        requires
            self.wf(),
        ensures
            progress == self.step(reply),
            progress matches Progress::Pending(next) ==> next.wf() && next.operator == self.operator
                && next.stream == self.stream,
    {
        match (self.stage, reply) {
            (Stage::CreateScalar { .. }, Reply::Scalar(scalar)) => {
                if scalar == 0 {
                    Progress::Done(Err(AscendError::InvalidArgument(ArgumentError::NullScalar)))
                } else {
                    self.moved(Stage::Query { scalar: Some(scalar) })
                }
            },
            (Stage::Query { scalar }, Reply::WorkspaceSize { status, size, executor }) => {
                match check_aclnn(status) {
                    Err(error) => self.settle(scalar, None, Err(error)),
                    Ok(()) => {
                        if size > 0 {
                            self.moved(Stage::Allocate { scalar, size, executor })
                        } else {
                            self.moved(Stage::Execute { scalar, workspace: None, size, executor })
                        }
                    },
                }
            },
            (Stage::Allocate { scalar, size, executor }, Reply::Workspace(workspace)) => {
                match workspace {
                    Ok(address) => self.moved(
                        Stage::Execute { scalar, workspace: Some(address), size, executor },
                    ),
                    Err(error) => self.settle(scalar, None, Err(error)),
                }
            },
            (Stage::Execute { scalar, workspace, .. }, Reply::Executed(status)) => self.settle(
                scalar,
                workspace,
                check_aclnn(status),
            ),
            (Stage::DestroyScalar { workspace, result, .. }, Reply::Completed) => self.release(
                workspace,
                result,
            ),
            (Stage::Release { result, .. }, Reply::Completed) => Progress::Done(result),
            (_, _) => Progress::Pending(self),
        }
    }
}

} // verus!
