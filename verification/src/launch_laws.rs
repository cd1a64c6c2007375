//! What holds of a whole operator call, from its first call to its result.

use vstd::prelude::*;

use crate::error::{aclnn_result, ArgumentError, AscendError};
use crate::launch::{Call, Kernel, Launch, Operator, Progress, Reply, Stage};

verus! {

/// Everything that the device answers in the course of one launch.
pub struct Answers {
    /// The scalar created, or null.
    pub scalar: usize,
    /// The status of the first stage.
    pub status: i32,
    /// The scratch memory that the first stage asks for.
    pub size: u64,
    /// The executor of the first stage.
    pub executor: usize,
    /// The scratch memory, or why there is none.
    pub workspace: Result<usize, AscendError>,
    /// The status of the second stage.
    pub executed: i32,
}

/// The device's answer to a call.
pub open spec fn answer(call: Call, device: Answers) -> Reply {
    match call {
        Call::CreateScalar { .. } => Reply::Scalar(device.scalar),
        Call::GetWorkspaceSize { .. } => Reply::WorkspaceSize {
            status: device.status,
            size: device.size,
            executor: device.executor,
        },
        Call::AllocateWorkspace { .. } => Reply::Workspace(device.workspace),
        Call::Execute { .. } => Reply::Executed(device.executed),
        Call::DestroyScalar { .. } => Reply::Completed,
        Call::ReleaseWorkspace { .. } => Reply::Completed,
    }
}

/// The most calls that a launch can still make.
pub open spec fn calls_left(stage: Stage) -> nat {
    match stage {
        Stage::CreateScalar { .. } => 6,
        Stage::Query { .. } => 5,
        Stage::Allocate { .. } => 4,
        Stage::Execute { .. } => 3,
        Stage::DestroyScalar { .. } => 2,
        Stage::Release { .. } => 1,
    }
}

/// The calls that a launch makes on a device, in order.
pub open spec fn calls(launch: Launch, device: Answers) -> Seq<Call>
    decreases calls_left(launch.stage),
{
    let call = launch.call();
    match launch.step(answer(call, device)) {
        Progress::Done(_) => seq![call],
        Progress::Pending(next) => seq![call] + calls(next, device),
    }
}

/// The result of a launch on a device.
pub open spec fn outcome(launch: Launch, device: Answers) -> Result<(), AscendError>
    decreases calls_left(launch.stage),
{
    match launch.step(answer(launch.call(), device)) {
        Progress::Done(result) => result,
        Progress::Pending(next) => outcome(next, device),
    }
}

/// The scalar that `operator` works with on `device`.
pub open spec fn scalar_of(operator: Operator, device: Answers) -> Option<usize> {
    if operator is InplaceAdd {
        Some(device.scalar)
    } else {
        None
    }
}

/// The operator needs a scalar and the device has none to give.
pub open spec fn scalar_refused(operator: Operator, device: Answers) -> bool {
    operator is InplaceAdd && device.scalar == 0
}

/// Scratch memory is wanted.
pub open spec fn allocates(operator: Operator, device: Answers) -> bool {
    !scalar_refused(operator, device) && device.status == 0 && device.size > 0
}

/// The second stage is reached.
pub open spec fn executes(operator: Operator, device: Answers) -> bool {
    &&& !scalar_refused(operator, device)
    &&& device.status == 0
    &&& device.size > 0 ==> device.workspace is Ok
}

/// The first stage, as it is called.
pub open spec fn query_call(operator: Operator, device: Answers) -> Call {
    Call::GetWorkspaceSize {
        kernel: operator.spec_kernel(),
        alpha_scalar: scalar_of(operator, device),
    }
}

/// The second stage, as it is called.
pub open spec fn execute_call(operator: Operator, stream: usize, device: Answers) -> Call {
    Call::Execute {
        kernel: operator.spec_kernel(),
        workspace: if device.size > 0 {
            device.workspace->Ok_0
        } else {
            0
        },
        workspace_size: device.size,
        executor: device.executor,
        stream,
    }
}

/// The creation of the scalar, for the operator that needs one.
pub open spec fn creation(operator: Operator) -> Seq<Call> {
    match operator {
        Operator::InplaceAdd { alpha, .. } => seq![Call::CreateScalar { alpha }],
        _ => seq![],
    }
}

/// The destruction of the scalar, for the operator that needs one.
pub open spec fn destruction(operator: Operator, device: Answers) -> Seq<Call> {
    match scalar_of(operator, device) {
        Some(scalar) => seq![Call::DestroyScalar { scalar }],
        None => seq![],
    }
}

/// The calls of a launch, in one piece: create the scalar, ask for the scratch
/// memory's size, allocate it, execute, destroy the scalar, give the memory
/// back; each only as far as the answers before it allow.
pub open spec fn protocol(operator: Operator, stream: usize, device: Answers) -> Seq<Call> {
    if scalar_refused(operator, device) {
        creation(operator)
    } else if device.status != 0 {
        creation(operator) + seq![query_call(operator, device)] + destruction(operator, device)
    } else if device.size == 0 {
        creation(operator) + seq![
            query_call(operator, device),
            execute_call(operator, stream, device),
        ] + destruction(operator, device)
    } else if device.workspace is Err {
        creation(operator) + seq![
            query_call(operator, device),
            Call::AllocateWorkspace { bytes: device.size as usize },
        ] + destruction(operator, device)
    } else {
        creation(operator) + seq![
            query_call(operator, device),
            Call::AllocateWorkspace { bytes: device.size as usize },
            execute_call(operator, stream, device),
        ] + destruction(operator, device) + seq![
            Call::ReleaseWorkspace { workspace: device.workspace->Ok_0 },
        ]
    }
}

/// The first failure, or success where nothing fails.
pub open spec fn verdict(operator: Operator, device: Answers) -> Result<(), AscendError> {
    if scalar_refused(operator, device) {
        Err(AscendError::InvalidArgument(ArgumentError::NullScalar))
    } else if device.status != 0 {
        Err(AscendError::Aclnn(device.status))
    } else if device.size > 0 && device.workspace is Err {
        Err(device.workspace->Err_0)
    } else {
        aclnn_result(device.executed)
    }
}

/// Every launch follows the protocol, call by call, and ends with the first
/// failure or with success.
pub proof fn launch_follows_protocol(operator: Operator, stream: usize, device: Answers)
    ensures
        calls(Launch::initial(operator, stream), device) == protocol(operator, stream, device),
        outcome(Launch::initial(operator, stream), device) == verdict(operator, device),
{
    reveal_with_fuel(calls, 7);
    reveal_with_fuel(outcome, 7);
    assert(calls(Launch::initial(operator, stream), device) =~= protocol(
        operator,
        stream,
        device,
    ));
}

/// The second stage runs exactly when the scalar was had, the first stage
/// succeeded and the scratch memory that it asked for was allocated. It runs
/// once, after the first stage of the same kernel, on the executor and size
/// that this stage gave, on the launch's stream, and with null scratch memory
/// only where none was asked for.
pub proof fn execution_is_prepared(operator: Operator, stream: usize, device: Answers)
    ensures
        ({
            let made = calls(Launch::initial(operator, stream), device);
            &&& executes(operator, device) <==> exists|i: int|
                0 <= i < made.len() && (#[trigger] made[i]) is Execute
            &&& forall|i: int|
                0 <= i < made.len() && (#[trigger] made[i]) is Execute ==> made[i] == execute_call(
                    operator,
                    stream,
                    device,
                )
            &&& forall|i: int, j: int|
                0 <= i < made.len() && 0 <= j < made.len() && (#[trigger] made[i]) is Execute && (
                #[trigger] made[j]) is GetWorkspaceSize ==> j < i
            &&& forall|i: int, j: int|
                0 <= i < made.len() && 0 <= j < made.len() && (#[trigger] made[i]) is Execute && (
                #[trigger] made[j]) is Execute ==> i == j
        }),
{
    launch_follows_protocol(operator, stream, device);
    let made = calls(Launch::initial(operator, stream), device);
    if executes(operator, device) {
        let before = creation(operator).len() as int;
        let at: int = if device.size == 0 {
            before + 1
        } else {
            before + 2
        };
        assert(made[at] == execute_call(operator, stream, device));
    }
}

/// Scratch memory is asked for when the first stage wants some, and then of
/// exactly the size that it wants. What was allocated is given back once, as
/// the last call of the launch and so after the execution; nothing else is.
pub proof fn workspace_is_released_once(operator: Operator, stream: usize, device: Answers)
    ensures
        ({
            let made = calls(Launch::initial(operator, stream), device);
            let had = allocates(operator, device) && device.workspace is Ok;
            &&& allocates(operator, device) <==> exists|i: int|
                0 <= i < made.len() && (#[trigger] made[i]) is AllocateWorkspace
            &&& forall|i: int|
                0 <= i < made.len() && (#[trigger] made[i]) is AllocateWorkspace ==> made[i]
                    == (Call::AllocateWorkspace { bytes: device.size as usize })
            &&& had ==> made.last() == (Call::ReleaseWorkspace {
                workspace: device.workspace->Ok_0,
            })
            &&& forall|i: int|
                0 <= i < made.len() && (#[trigger] made[i]) is ReleaseWorkspace ==> had && i
                    == made.len() - 1
        }),
{
    launch_follows_protocol(operator, stream, device);
    let made = calls(Launch::initial(operator, stream), device);
    if allocates(operator, device) {
        assert(made[creation(operator).len() as int + 1] is AllocateWorkspace);
    }
}

/// The scalar that a launch created is destroyed exactly once, after the stages
/// that were handed it, whether the launch succeeds or fails. No other scalar
/// is destroyed.
pub proof fn scalar_is_destroyed_once(operator: Operator, stream: usize, device: Answers)
    ensures
        ({
            let made = calls(Launch::initial(operator, stream), device);
            let owed = operator is InplaceAdd && device.scalar != 0;
            &&& owed <==> exists|i: int|
                0 <= i < made.len() && (#[trigger] made[i]) is DestroyScalar
            &&& forall|i: int|
                0 <= i < made.len() && (#[trigger] made[i]) is DestroyScalar ==> made[i] == (
                Call::DestroyScalar { scalar: device.scalar })
            &&& forall|i: int, j: int|
                0 <= i < made.len() && 0 <= j < made.len() && (#[trigger] made[i]) is DestroyScalar
                    && (#[trigger] made[j]) is DestroyScalar ==> i == j
            &&& forall|i: int, j: int|
                0 <= i < made.len() && 0 <= j < made.len() && (#[trigger] made[i]) is DestroyScalar
                    && ((#[trigger] made[j]) is Execute || made[j] is GetWorkspaceSize) ==> j < i
        }),
{
    launch_follows_protocol(operator, stream, device);
    let made = calls(Launch::initial(operator, stream), device);
    if operator is InplaceAdd && device.scalar != 0 {
        if device.status != 0 {
            assert(made[2] is DestroyScalar);
        } else if device.size == 0 {
            assert(made[3] is DestroyScalar);
        } else if device.workspace is Ok {
            assert(made[4] is DestroyScalar);
        } else {
            assert(made[3] is DestroyScalar);
        }
    }
}

/// A launch succeeds exactly when nothing on its way fails.
pub proof fn success_needs_every_call(operator: Operator, stream: usize, device: Answers)
    ensures
        outcome(Launch::initial(operator, stream), device) is Ok <==> executes(operator, device)
            && device.executed == 0,
{
    launch_follows_protocol(operator, stream, device);
}

/// The answer to the call that is due takes the launch forward, whatever it
/// says: at most six calls are ever made. What does not answer that call
/// changes nothing.
pub proof fn answers_make_progress(launch: Launch, reply: Reply)
    ensures
        launch.expects(reply) ==> match launch.step(reply) {
            Progress::Done(_) => true,
            Progress::Pending(next) => calls_left(next.stage) < calls_left(launch.stage),
        },
        !launch.expects(reply) ==> launch.step(reply) == Progress::Pending(launch),
        1 <= calls_left(launch.stage) <= 6,
{
}

/// Both stages of a launch are those of its operator, whatever its arguments: a
/// call of a kernel is made by the operator of that name and by no other.
pub proof fn stages_are_the_operators_own(
    operator: Operator,
    stream: usize,
    device: Answers,
    kernel: Kernel,
)
    requires
        exists|i: int|
            0 <= i < calls(Launch::initial(operator, stream), device).len() && match #[trigger] calls(
                Launch::initial(operator, stream),
                device,
            )[i] {
                Call::GetWorkspaceSize { kernel: k, .. } => k == kernel,
                Call::Execute { kernel: k, .. } => k == kernel,
                _ => false,
            },
    ensures
        kernel is FlashAttentionScore <==> operator is FlashAttentionScore,
        kernel is InplaceAdd <==> operator is InplaceAdd,
        kernel is Mul <==> operator is Mul,
        kernel is Cast <==> operator is Cast,
        kernel is Softmax <==> operator is Softmax,
        kernel is ArgMax <==> operator is ArgMax,
{
    launch_follows_protocol(operator, stream, device);
}

/// A launch is of the operator and on the stream that it was set up with, and
/// stays so from call to call.
pub proof fn arguments_are_kept(operator: Operator, stream: usize, launch: Launch, reply: Reply)
    ensures
        Launch::initial(operator, stream).operator == operator,
        Launch::initial(operator, stream).stream == stream,
        launch.step(reply) matches Progress::Pending(next) ==> next.operator == launch.operator
            && next.stream == launch.stream,
{
}

/// The addition, and no other operator, begins by creating a scalar of its
/// factor. The first stage is run unless that fails, and is handed the scalar
/// where there is one.
pub proof fn first_stage_is_prepared(
    operator: Operator,
    stream: usize,
    device: Answers,
    alpha: u32,
    kernel: Kernel,
    alpha_scalar: Option<usize>,
)
    ensures
        ({
            let made = calls(Launch::initial(operator, stream), device);
            &&& made.contains(Call::CreateScalar { alpha }) <==> (operator matches Operator::InplaceAdd {
                alpha: a,
                ..
            } && a == alpha)
            &&& (exists|k: Kernel, s: Option<usize>| #[trigger]
                made.contains(Call::GetWorkspaceSize { kernel: k, alpha_scalar: s })) <==> (
            operator is InplaceAdd ==> device.scalar != 0)
            &&& made.contains(Call::GetWorkspaceSize { kernel, alpha_scalar })
                ==> match alpha_scalar {
                Some(scalar) => operator is InplaceAdd && scalar == device.scalar && scalar != 0,
                None => !(operator is InplaceAdd),
            }
        }),
{
    launch_follows_protocol(operator, stream, device);
    let made = calls(Launch::initial(operator, stream), device);
    if operator is InplaceAdd {
        assert(made[0] == creation(operator)[0]);
    }
    if !scalar_refused(operator, device) {
        assert(made[creation(operator).len() as int] == query_call(operator, device));
        assert(made.contains(
            Call::GetWorkspaceSize {
                kernel: operator.spec_kernel(),
                alpha_scalar: scalar_of(operator, device),
            },
        ));
    }
}

/// The second stage is reached exactly when the scalar, if one is needed, was
/// had, the first stage returned zero, and the scratch memory that it asked for,
/// if any, was had. It is handed that memory, or null where none was asked for,
/// its size and the executor as the first stage gave them, and the stream of the
/// launch.
pub proof fn second_stage_takes_over_from_the_first(
    operator: Operator,
    stream: usize,
    device: Answers,
    call: Call,
)
    requires
        call is Execute,
    ensures
        calls(Launch::initial(operator, stream), device).contains(call) ==> {
            &&& operator is InplaceAdd ==> device.scalar != 0
            &&& device.status == 0
            &&& call->Execute_workspace_size == device.size
            &&& call->Execute_executor == device.executor
            &&& call->Execute_stream == stream
            &&& device.size == 0 ==> call->Execute_workspace == 0
            &&& device.size > 0 ==> device.workspace == Ok::<usize, AscendError>(
                call->Execute_workspace,
            )
        },
        (exists|i: int|
            0 <= i < calls(Launch::initial(operator, stream), device).len() && (#[trigger] calls(
                Launch::initial(operator, stream),
                device,
            )[i]) is Execute) <==> {
            &&& operator is InplaceAdd ==> device.scalar != 0
            &&& device.status == 0
            &&& device.size > 0 ==> device.workspace is Ok
        },
{
    launch_follows_protocol(operator, stream, device);
    execution_is_prepared(operator, stream, device);
}

/// The result of a launch is the first failure on its way, as it was reported,
/// or success.
pub proof fn first_failure_is_the_result(operator: Operator, stream: usize, device: Answers)
    ensures
        ({
            let result = outcome(Launch::initial(operator, stream), device);
            let has_scalar = operator is InplaceAdd ==> device.scalar != 0;
            let has_memory = device.size > 0 ==> device.workspace is Ok;
            &&& !has_scalar ==> result == Err::<(), AscendError>(
                AscendError::InvalidArgument(ArgumentError::NullScalar),
            )
            &&& has_scalar && device.status != 0 ==> result == Err::<(), AscendError>(
                AscendError::Aclnn(device.status),
            )
            &&& has_scalar && device.status == 0 && !has_memory ==> result == Err::<
                (),
                AscendError,
            >(device.workspace->Err_0)
            &&& has_scalar && device.status == 0 && has_memory && device.executed != 0 ==> result
                == Err::<(), AscendError>(AscendError::Aclnn(device.executed))
            &&& has_scalar && device.status == 0 && has_memory && device.executed == 0
                ==> result is Ok
        }),
{
    launch_follows_protocol(operator, stream, device);
}

/// The place of a call in a launch.
pub open spec fn turn(call: Call) -> int {
    match call {
        Call::CreateScalar { .. } => 0,
        Call::GetWorkspaceSize { .. } => 1,
        Call::AllocateWorkspace { .. } => 2,
        Call::Execute { .. } => 3,
        Call::DestroyScalar { .. } => 4,
        Call::ReleaseWorkspace { .. } => 5,
    }
}

/// The calls of a launch come in this order, each at most once: create the
/// scalar, ask for the size, allocate, execute, destroy the scalar, give the
/// memory back.
pub proof fn calls_come_in_turn(operator: Operator, stream: usize, device: Answers)
    ensures
        ({
            let made = calls(Launch::initial(operator, stream), device);
            forall|i: int, j: int|
                0 <= i < j < made.len() ==> turn(#[trigger] made[i]) < turn(#[trigger] made[j])
        }),
{
    launch_follows_protocol(operator, stream, device);
}

/// What a launch acquires it gives back, and nothing else: the scalar if it was
/// created, the scratch memory if it was allocated.
pub proof fn what_is_acquired_is_given_back(
    operator: Operator,
    stream: usize,
    device: Answers,
    address: usize,
)
    ensures
        ({
            let made = calls(Launch::initial(operator, stream), device);
            &&& made.contains(Call::DestroyScalar { scalar: address }) <==> {
                &&& exists|alpha: u32| #[trigger] made.contains(Call::CreateScalar { alpha })
                &&& address == device.scalar
                &&& address != 0
            }
            &&& made.contains(Call::ReleaseWorkspace { workspace: address }) <==> {
                &&& made.contains(Call::AllocateWorkspace { bytes: device.size as usize })
                &&& device.workspace == Ok::<usize, AscendError>(address)
            }
            &&& made.contains(Call::AllocateWorkspace { bytes: device.size as usize }) <==> {
                &&& operator is InplaceAdd ==> device.scalar != 0
                &&& device.status == 0
                &&& device.size > 0
            }
        }),
{
    launch_follows_protocol(operator, stream, device);
    workspace_is_released_once(operator, stream, device);
    scalar_is_destroyed_once(operator, stream, device);
    let made = calls(Launch::initial(operator, stream), device);
    if operator is InplaceAdd {
        let alpha = operator->InplaceAdd_alpha;
        assert(made[0] == (Call::CreateScalar { alpha }));
        assert(made.contains(Call::CreateScalar { alpha }));
    }
}

/// An operator's tensors are present exactly when none of them is null.
pub proof fn present_tensors_are_not_null(operator: Operator)
    ensures
        operator.tensors_present() <==> match operator {
            Operator::FlashAttentionScore(args) => {
                &&& args.query != 0 && args.key != 0 && args.value != 0
                &&& args.softmax_max != 0 && args.softmax_sum != 0
                &&& args.attention_out != 0
            },
            Operator::InplaceAdd { self_, other, .. } => self_ != 0 && other != 0,
            Operator::Mul { a, b, out } => a != 0 && b != 0 && out != 0,
            Operator::Cast { input, out, .. } => input != 0 && out != 0,
            Operator::Softmax { x, out, .. } => x != 0 && out != 0,
            Operator::ArgMax { x, out, .. } => x != 0 && out != 0,
        },
{
    let tensors = operator.tensors();
    if operator.tensors_present() {
        assert(forall|i: int| 0 <= i < tensors.len() ==> tensors[i] != 0);
        assert(tensors[0] != 0 && tensors[1] != 0);
        match operator {
            Operator::FlashAttentionScore(_) => {
                assert(tensors[2] != 0 && tensors[3] != 0 && tensors[4] != 0 && tensors[5] != 0);
            },
            Operator::Mul { .. } => {
                assert(tensors[2] != 0);
            },
            _ => {},
        }
    }
}

} // verus!
