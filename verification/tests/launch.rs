use serving_agent::error::{check_acl, check_aclnn, ArgumentError, AscendError};
use serving_agent::launch::{Call, Kernel, Launch, Operator, Progress, Reply};
use serving_agent::ops::attention::{
    flash_attention_score, flash_attention_score_with_mask, KEEP_ALL,
};
use serving_agent::ops::elementwise::{cast, inplace_add, mul};
use serving_agent::ops::reduction::{argmax, softmax};
use serving_agent::stream::Stream;
use serving_agent::tensor::{AclDataType, AclTensor};

const STREAM: usize = 0x5000;

/// A device that answers every call of a launch and remembers it.
struct Device {
    scalar: usize,
    status: i32,
    size: u64,
    workspace: Result<usize, AscendError>,
    executed: i32,
    calls: Vec<Call>,
}

fn device() -> Device {
    Device {
        scalar: 0x5ca1,
        status: 0,
        size: 4096,
        workspace: Ok(0xd000),
        executed: 0,
        calls: Vec::new(),
    }
}

impl Device {
    fn run(&mut self, launch: Launch) -> Result<(), AscendError> {
        let mut launch = launch;
        loop {
            let call = launch.pending();
            self.calls.push(call);
            let reply = match call {
                Call::CreateScalar { .. } => Reply::Scalar(self.scalar),
                Call::GetWorkspaceSize { .. } => Reply::WorkspaceSize {
                    status: self.status,
                    size: self.size,
                    executor: 0xe8ec,
                },
                Call::AllocateWorkspace { .. } => Reply::Workspace(self.workspace),
                Call::Execute { .. } => Reply::Executed(self.executed),
                Call::DestroyScalar { .. } => Reply::Completed,
                Call::ReleaseWorkspace { .. } => Reply::Completed,
            };
            match launch.advance(reply) {
                Progress::Pending(next) => launch = next,
                Progress::Done(result) => return result,
            }
        }
    }
}

fn stream() -> Stream {
    Stream::new(0, STREAM).unwrap()
}

fn tensor(raw: usize) -> AclTensor {
    AclTensor::from_raw(raw).unwrap()
}

fn add() -> Launch {
    inplace_add(&stream(), &tensor(1), &tensor(2), 1.5f32.to_bits())
}

fn product() -> Launch {
    mul(&stream(), &tensor(1), &tensor(2), &mut tensor(3))
}

fn executed(kernel: Kernel, workspace: usize, workspace_size: u64) -> Call {
    Call::Execute { kernel, workspace, workspace_size, executor: 0xe8ec, stream: STREAM }
}

#[test]
fn status_zero_is_success() {
    assert_eq!(check_acl(0), Ok(()));
    assert_eq!(check_aclnn(0), Ok(()));
    assert_eq!(check_acl(507018), Err(AscendError::Acl(507018)));
    assert_eq!(check_aclnn(-1), Err(AscendError::Aclnn(-1)));
}

#[test]
fn refusals_have_words() {
    assert_eq!(ArgumentError::InputLayout.message(), "invalid input_layout string");
    assert_eq!(ArgumentError::NullScalar.message(), "aclCreateScalar returned null");
}

#[test]
fn streams_are_destroyed_unless_null() {
    assert_eq!(stream().raw(), STREAM);
    assert_eq!(stream().drop(), Some(STREAM));
    assert_eq!(Stream::new(0, 0).unwrap().drop(), None);
    assert!(matches!(Stream::new(107002, STREAM), Err(AscendError::Acl(107002))));
    assert_eq!(stream().synchronize(0), Ok(()));
    assert_eq!(stream().synchronize(507018), Err(AscendError::Acl(507018)));
}

#[test]
fn null_is_no_tensor() {
    assert!(AclTensor::from_raw(0).is_none());
    assert_eq!(tensor(7).raw(), 7);
}

#[test]
fn multiplication_runs_in_two_stages() {
    let mut device = device();
    assert_eq!(device.run(product()), Ok(()));
    assert_eq!(
        device.calls,
        vec![
            Call::GetWorkspaceSize { kernel: Kernel::Mul, alpha_scalar: None },
            Call::AllocateWorkspace { bytes: 4096 },
            executed(Kernel::Mul, 0xd000, 4096),
            Call::ReleaseWorkspace { workspace: 0xd000 },
        ]
    );
}

#[test]
fn no_workspace_is_a_null_workspace() {
    let mut device = device();
    device.size = 0;
    assert_eq!(device.run(product()), Ok(()));
    assert_eq!(
        device.calls,
        vec![
            Call::GetWorkspaceSize { kernel: Kernel::Mul, alpha_scalar: None },
            executed(Kernel::Mul, 0, 0),
        ]
    );
}

#[test]
fn failed_query_ends_the_launch() {
    let mut device = device();
    device.status = 161001;
    assert_eq!(device.run(product()), Err(AscendError::Aclnn(161001)));
    assert_eq!(device.calls.len(), 1);
}

#[test]
fn failed_allocation_is_handed_on() {
    let mut device = device();
    device.workspace = Err(AscendError::Acl(207001));
    assert_eq!(device.run(product()), Err(AscendError::Acl(207001)));
    assert_eq!(device.calls.len(), 2);
}

#[test]
fn failed_execution_still_gives_the_workspace_back() {
    let mut device = device();
    device.executed = 561103;
    assert_eq!(device.run(product()), Err(AscendError::Aclnn(561103)));
    assert_eq!(device.calls.last(), Some(&Call::ReleaseWorkspace { workspace: 0xd000 }));
}

#[test]
fn addition_creates_and_destroys_its_scalar() {
    let mut device = device();
    assert_eq!(device.run(add()), Ok(()));
    assert_eq!(
        device.calls,
        vec![
            Call::CreateScalar { alpha: 0x3fc0_0000 },
            Call::GetWorkspaceSize { kernel: Kernel::InplaceAdd, alpha_scalar: Some(0x5ca1) },
            Call::AllocateWorkspace { bytes: 4096 },
            executed(Kernel::InplaceAdd, 0xd000, 4096),
            Call::DestroyScalar { scalar: 0x5ca1 },
            Call::ReleaseWorkspace { workspace: 0xd000 },
        ]
    );
}

#[test]
fn addition_without_scalar_is_refused() {
    let mut device = device();
    device.scalar = 0;
    assert_eq!(
        device.run(add()),
        Err(AscendError::InvalidArgument(ArgumentError::NullScalar))
    );
    assert_eq!(device.calls.len(), 1);
}

#[test]
fn addition_destroys_its_scalar_on_failure() {
    let mut queried = device();
    queried.status = 9;
    assert_eq!(queried.run(add()), Err(AscendError::Aclnn(9)));
    assert_eq!(queried.calls.last(), Some(&Call::DestroyScalar { scalar: 0x5ca1 }));
    assert_eq!(queried.calls.len(), 3);

    let mut ran = device();
    ran.executed = 10;
    assert_eq!(ran.run(add()), Err(AscendError::Aclnn(10)));
    assert_eq!(ran.calls.len(), 6);
}

#[test]
fn addition_destroys_its_scalar_when_allocation_fails() {
    let mut device = device();
    device.workspace = Err(AscendError::Acl(207001));
    assert_eq!(device.run(add()), Err(AscendError::Acl(207001)));
    assert_eq!(device.calls.len(), 4);
    assert_eq!(device.calls[2], Call::AllocateWorkspace { bytes: 4096 });
    assert_eq!(device.calls[3], Call::DestroyScalar { scalar: 0x5ca1 });
}

#[test]
fn stray_answers_change_nothing() {
    let launch = product();
    match launch.advance(Reply::Executed(0)) {
        Progress::Pending(same) => assert_eq!(
            same.pending(),
            Call::GetWorkspaceSize { kernel: Kernel::Mul, alpha_scalar: None }
        ),
        Progress::Done(_) => panic!("the launch is not over"),
    }
}

#[test]
fn operators_carry_their_arguments() {
    assert!(matches!(
        add().operator,
        Operator::InplaceAdd { self_: 1, other: 2, alpha: 0x3fc0_0000 }
    ));
    assert!(matches!(product().operator, Operator::Mul { a: 1, b: 2, out: 3 }));
    let to = AclDataType { code: 27 };
    let launch = cast(&stream(), &tensor(4), to, &mut tensor(5));
    assert!(matches!(
        launch.operator,
        Operator::Cast { input: 4, target_dtype: AclDataType { code: 27 }, out: 5 }
    ));
    assert_eq!(launch.operator.kernel(), Kernel::Cast);
    let launch = softmax(&stream(), &tensor(6), -1, &mut tensor(7));
    assert!(matches!(launch.operator, Operator::Softmax { x: 6, dim: -1, out: 7 }));
    assert_eq!(launch.operator.kernel(), Kernel::Softmax);
    let launch = argmax(&stream(), &tensor(8), 1, true, &mut tensor(9));
    assert!(matches!(
        launch.operator,
        Operator::ArgMax { x: 8, dim: 1, keepdim: true, out: 9 }
    ));
    assert_eq!(launch.operator.kernel(), Kernel::ArgMax);
}

fn attend(layout: &str) -> Result<Launch, AscendError> {
    flash_attention_score(
        &stream(),
        &tensor(1),
        &tensor(2),
        &tensor(3),
        0.125f64.to_bits(),
        32,
        layout,
        2048,
        &tensor(4),
        &tensor(5),
        &mut tensor(6),
    )
}

#[test]
fn attention_leaves_the_mask_to_the_operator() {
    let launch = attend("BSH").unwrap();
    match &launch.operator {
        Operator::FlashAttentionScore(args) => {
            assert_eq!((args.query, args.key, args.value), (1, 2, 3));
            assert_eq!((args.softmax_max, args.softmax_sum, args.attention_out), (4, 5, 6));
            assert_eq!((args.real_shift, args.drop_mask, args.padding_mask), (0, 0, 0));
            assert_eq!((args.atten_mask, args.prefix, args.softmax_out), (0, 0, 0));
            assert_eq!(f64::from_bits(args.scale), 0.125);
            assert_eq!(f64::from_bits(args.keep_prob), 1.0);
            assert_eq!(KEEP_ALL, 1.0f64.to_bits());
            assert_eq!((args.pre_tokens, args.next_tokens, args.head_num), (2048, 0, 32));
            assert_eq!((args.inner_precise, args.sparse_mode), (0, 0));
            assert_eq!(args.input_layout, b"BSH\0".to_vec());
        }
        _ => panic!("attention is one operator"),
    }
    let mut device = device();
    assert_eq!(device.run(launch), Ok(()));
    assert_eq!(device.calls[2], executed(Kernel::FlashAttentionScore, 0xd000, 4096));
}

#[test]
fn attention_takes_an_explicit_mask() {
    let launch = flash_attention_score_with_mask(
        &stream(),
        &tensor(1),
        &tensor(2),
        &tensor(3),
        &tensor(77),
        0.125f64.to_bits(),
        32,
        "BNSD",
        2048,
        &tensor(4),
        &tensor(5),
        &mut tensor(6),
    )
    .unwrap();
    match (launch.operator, attend("BNSD").unwrap().operator) {
        (Operator::FlashAttentionScore(masked), Operator::FlashAttentionScore(plain)) => {
            assert_eq!(masked.atten_mask, 77);
            assert_eq!(masked.sparse_mode, plain.sparse_mode);
            assert_eq!(masked.pre_tokens, plain.pre_tokens);
            assert_eq!(masked.input_layout, plain.input_layout);
            assert_eq!(masked.attention_out, plain.attention_out);
        }
        _ => panic!("attention is one operator"),
    }
}

#[test]
fn layouts_with_nul_are_refused() {
    let refused = AscendError::InvalidArgument(ArgumentError::InputLayout);
    assert_eq!(attend("BS\0H").err(), Some(refused));
    let masked = flash_attention_score_with_mask(
        &stream(),
        &tensor(1),
        &tensor(2),
        &tensor(3),
        &tensor(77),
        0,
        1,
        "\0",
        1,
        &tensor(4),
        &tensor(5),
        &mut tensor(6),
    );
    assert_eq!(masked.err(), Some(refused));
}
