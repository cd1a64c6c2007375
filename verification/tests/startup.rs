use serving_agent::startup::choices::{
    parse_backend, parse_quant, parse_variant, Backend, ModelVariant, QuantConfig,
};
use serving_agent::startup::failure::StartupError;
use serving_agent::startup::options::Options;
use serving_agent::startup::parallel::{
    is_primary, parallel_config, serve_port, wants_many, Distributed, ParallelConfig,
};
use serving_agent::startup::plan::{Action, Event, Finish, Step};

fn defaults() -> Options<String> {
    Options {
        config: None,
        model: "8b".to_string(),
        port: 8080,
        tp: 1,
        pp: 1,
        tp_rank: 0,
        pp_rank: 0,
        dp: 1,
        quant: "none".to_string(),
        backend: "ascend".to_string(),
        device_id: None,
        weights: Some("/models/qwen3".to_string()),
        prompt: None,
        max_new_tokens: 128,
    }
}

/// What a start-up meets; an action whose failure is `None` succeeds.
#[derive(Default)]
struct World {
    config: Option<&'static str>,
    found: bool,
    rank: bool,
    distributed: Option<Distributed>,
    task_device: Option<&'static str>,
    ascend_device_id: Option<&'static str>,
    device: Option<&'static str>,
    weights: Option<&'static str>,
    upload: Option<&'static str>,
    communicators: Option<&'static str>,
    tokenizer: Option<&'static str>,
    tokens: usize,
    serve: Option<&'static str>,
}

fn unless(failure: Option<&str>) -> Event<String> {
    match failure {
        Some(words) => Event::Failed(words.to_string()),
        None => Event::Completed,
    }
}

fn answer(world: &World, action: &Action<String>) -> Event<String> {
    match action {
        Action::LoadConfig(_) | Action::LoadConfigIn(_) => unless(world.config),
        Action::ProbeConfig(_) => Event::Flag(world.found),
        Action::ReadRank => Event::Flag(world.rank),
        Action::Join { .. } => Event::Joined(world.distributed),
        Action::ReadTaskDevice => Event::Variable(world.task_device.map(|v| v.to_string())),
        Action::ReadAscendDeviceId => {
            Event::Variable(world.ascend_device_id.map(|v| v.to_string()))
        }
        Action::OpenDevice(_) => unless(world.device),
        Action::LoadWeights { .. } => unless(world.weights),
        Action::UploadWeights => unless(world.upload),
        Action::InitCommunicators => unless(world.communicators),
        Action::LoadTokenizer(_) => unless(world.tokenizer),
        Action::EncodePrompt(_) => Event::Tokens(world.tokens),
        Action::Serve { .. } => unless(world.serve),
        _ => Event::Completed,
    }
}

type End = Result<Finish, StartupError<String>>;

fn start(options: &Options<String>, world: &World) -> (Vec<String>, End) {
    let mut actions = Vec::new();
    let mut step = options.begin();
    loop {
        match step {
            Step::Stop(end) => return (actions, end),
            Step::Continue(phase) => {
                let action = options.action(phase);
                actions.push(format!("{action:?}"));
                step = options.advance(phase, answer(world, &action));
            }
        }
    }
}

fn named(actions: &[String], name: &str) -> Vec<String> {
    actions.iter().filter(|a| a.starts_with(name)).cloned().collect()
}

fn place(tp: usize, pp: usize, tp_rank: usize, pp_rank: usize, dp_rank: usize) -> Distributed {
    Distributed {
        tp_rank,
        pp_rank,
        dp_rank,
        device_id: 5,
        single: false,
        parallel: ParallelConfig { tp_size: tp, pp_size: pp, tp_rank, pp_rank, dp_size: 2, dp_rank },
    }
}

fn message(end: End) -> String {
    end.unwrap_err().message()
}

#[test]
fn names_choose() {
    assert_eq!(parse_variant("0.6b"), Some(ModelVariant::Small));
    assert_eq!(parse_variant("4b"), Some(ModelVariant::Medium));
    assert_eq!(parse_variant("8b"), Some(ModelVariant::Large));
    assert_eq!(parse_variant("14b"), Some(ModelVariant::Huge));
    assert_eq!(parse_variant("8B"), None);
    assert_eq!(parse_quant("none"), Some(QuantConfig::Unquantized));
    assert_eq!(parse_quant("int8"), Some(QuantConfig::Int8PerTensor));
    assert_eq!(parse_quant("awq-int4"), Some(QuantConfig::AwqInt4 { group_size: 128 }));
    assert_eq!(parse_quant("fp8"), None);
    assert_eq!(parse_backend("stub"), Some(Backend::Stub));
    assert_eq!(parse_backend("ascend"), Some(Backend::Ascend));
    assert_eq!(parse_backend("cuda"), None);
    assert_eq!(Backend::Stub.label(), "STUB (no-op)");
    assert_eq!(Backend::Ascend.label(), "ASCEND NPU (CANN)");
}

#[test]
fn a_plain_start_serves() {
    let world = World { found: true, task_device: Some("3"), ..World::default() };
    let (actions, end) = start(&defaults(), &world);
    assert_eq!(end, Ok(Finish::Served));
    assert_eq!(
        actions,
        vec![
            "ProbeConfig(\"/models/qwen3\")",
            "LoadConfigIn(\"/models/qwen3\")",
            "ReadTaskDevice",
            "OpenDevice(ChosenDevice { id: 3, source: TaskDevice })",
            "BuildModel { sharded: false, parallel: ParallelConfig { tp_size: 1, pp_size: 1, \
             tp_rank: 0, pp_rank: 0, dp_size: 1, dp_rank: 0 } }",
            "LoadWeights { dir: \"/models/qwen3\", sharded: false, parallel: ParallelConfig { \
             tp_size: 1, pp_size: 1, tp_rank: 0, pp_rank: 0, dp_size: 1, dp_rank: 0 } }",
            "UploadWeights",
            "CreateEngine { parallel: ParallelConfig { tp_size: 1, pp_size: 1, tp_rank: 0, \
             pp_rank: 0, dp_size: 1, dp_rank: 0 }, quant: Unquantized }",
            "LoadTokenizer(\"/models/qwen3\")",
            "Serve { port: 8080, backend: Ascend }",
        ]
    );
}

#[test]
fn a_given_config_comes_first() {
    let mut options = defaults();
    options.config = Some("/etc/model.json".to_string());
    options.model = "nonsense".to_string();
    options.backend = "stub".to_string();
    let (actions, end) = start(&options, &World { found: true, ..World::default() });
    assert_eq!(actions[0], "LoadConfig(\"/etc/model.json\")");
    assert!(named(&actions, "ProbeConfig").is_empty());
    assert_eq!(end, Ok(Finish::Served));
}

#[test]
fn the_variant_comes_last() {
    let mut options = defaults();
    options.model = "0.6b".to_string();
    options.backend = "stub".to_string();
    let (actions, _) = start(&options, &World::default());
    assert_eq!(actions[1], "UsePreset(Small)");
    options.model = "32b".to_string();
    let (actions, end) = start(&options, &World::default());
    assert_eq!(actions.len(), 1);
    assert_eq!(
        message(end),
        "Unknown model variant: 32b. Use 0.6b, 4b, 8b, or 14b."
    );
    options.weights = None;
    let (actions, end) = start(&options, &World::default());
    assert!(actions.is_empty());
    assert_eq!(end, Err(StartupError::UnknownModel("32b".to_string())));
}

#[test]
fn unknown_names_are_refused_before_anything_is_built() {
    let mut options = defaults();
    options.quant = "fp8".to_string();
    options.backend = "cuda".to_string();
    let (actions, end) = start(&options, &World { found: true, ..World::default() });
    assert_eq!(actions.len(), 2);
    assert_eq!(message(end), "Unknown quant: fp8. Use none, int8, or awq-int4.");
    options.quant = "int8".to_string();
    let (actions, end) = start(&options, &World { found: true, ..World::default() });
    assert_eq!(actions.len(), 2);
    assert_eq!(message(end), "Unknown backend: cuda. Use stub or ascend.");
}

#[test]
fn the_device_is_found_in_order() {
    let mut options = defaults();
    options.tp = 2;
    let mut world = World {
        rank: true,
        distributed: Some(place(2, 1, 0, 0, 0)),
        task_device: Some("3"),
        ascend_device_id: Some("4"),
        ..World::default()
    };
    options.device_id = Some(6);
    assert_eq!(named(&start(&options, &world).0, "OpenDevice"), vec!["OpenDevice(ChosenDevice { id: 6, source: CommandLine })"]);
    options.device_id = None;
    assert_eq!(named(&start(&options, &world).0, "OpenDevice"), vec!["OpenDevice(ChosenDevice { id: 5, source: Launcher })"]);
    world.distributed = None;
    let (actions, _) = start(&options, &world);
    assert_eq!(named(&actions, "OpenDevice"), vec!["OpenDevice(ChosenDevice { id: 3, source: TaskDevice })"]);
    assert!(named(&actions, "ReadAscendDeviceId").is_empty());
    world.task_device = None;
    assert_eq!(named(&start(&options, &world).0, "OpenDevice"), vec!["OpenDevice(ChosenDevice { id: 4, source: AscendDeviceId })"]);
    world.ascend_device_id = None;
    let (actions, end) = start(&options, &world);
    assert!(named(&actions, "OpenDevice").is_empty());
    assert_eq!(
        message(end),
        "No NPU device specified. Use --device-id N, --device N, or set TASK_DEVICE or \
         ASCEND_DEVICE_ID environment variables."
    );
}

#[test]
fn device_variables_hold_integers() {
    let world = World { task_device: Some("npu0"), ..World::default() };
    let failure = start(&defaults(), &world).1.unwrap_err();
    assert!(failure.aborts());
    assert_eq!(failure.message(), "TASK_DEVICE must be a valid integer");
    let world = World { ascend_device_id: Some(" 1"), ..World::default() };
    let failure = start(&defaults(), &world).1.unwrap_err();
    assert!(failure.aborts());
    assert_eq!(failure.message(), "ASCEND_DEVICE_ID must be a valid integer");
}

#[test]
fn failures_end_the_start_in_order() {
    let task_device = Some("0");
    let found = true;
    let config = World { found, config: Some("no such file"), ..World::default() };
    let end = start(&defaults(), &config).1;
    assert_eq!(end, Err(StartupError::Config("no such file".to_string())));
    assert_eq!(message(end), "no such file");
    let device = World { task_device, device: Some("busy"), ..World::default() };
    assert_eq!(message(start(&defaults(), &device).1), "Failed to init Ascend backend: busy");
    let weights = World { task_device, weights: Some("short file"), ..World::default() };
    let (actions, end) = start(&defaults(), &weights);
    assert_eq!(end, Err(StartupError::Weights("short file".to_string())));
    assert!(named(&actions, "UploadWeights").is_empty());
    let upload = World { task_device, upload: Some("no memory"), ..World::default() };
    let (actions, end) = start(&defaults(), &upload);
    assert_eq!(end, Err(StartupError::Upload("no memory".to_string())));
    assert!(named(&actions, "CreateEngine").is_empty());
    let tokenizer = World { task_device, tokenizer: Some("bad json"), ..World::default() };
    assert_eq!(message(start(&defaults(), &tokenizer).1), "Failed to load tokenizer: bad json");
    let serve = World { task_device, serve: Some("port in use"), ..World::default() };
    let failure = start(&defaults(), &serve).1.unwrap_err();
    assert_eq!(failure, StartupError::Serve("port in use".to_string()));
    assert!(!failure.aborts());
}

#[test]
fn communicators_connect_distributed_processes() {
    let mut options = defaults();
    options.tp = 2;
    let mut world = World {
        rank: true,
        distributed: Some(place(2, 1, 0, 0, 0)),
        ..World::default()
    };
    let (actions, end) = start(&options, &world);
    assert_eq!(named(&actions, "Join"), vec!["Join { tp: 2, pp: 1, dp: 1 }"]);
    assert_eq!(named(&actions, "InitCommunicators").len(), 1);
    assert_eq!(end, Ok(Finish::Served));
    world.communicators = Some("timeout");
    assert_eq!(
        message(start(&options, &world).1),
        "Failed to init HCCL process groups: timeout"
    );
    world.distributed = Some(Distributed { single: true, ..place(2, 1, 0, 0, 0) });
    assert!(named(&start(&options, &world).0, "InitCommunicators").is_empty());
    world.rank = false;
    let (actions, _) = start(&options, &world);
    assert!(named(&actions, "Join").is_empty());
}

#[test]
fn the_stub_leaves_accelerators_alone() {
    let mut options = defaults();
    options.backend = "stub".to_string();
    options.tp = 2;
    let world = World { rank: true, distributed: Some(place(2, 1, 0, 0, 0)), ..World::default() };
    let (actions, end) = start(&options, &world);
    assert_eq!(end, Ok(Finish::Served));
    for name in ["OpenDevice", "UploadWeights", "InitCommunicators", "ReadTaskDevice"] {
        assert!(named(&actions, name).is_empty());
    }
}

#[test]
fn layers_split_the_model_and_tensors_the_weights() {
    let mut options = defaults();
    options.backend = "stub".to_string();
    options.pp = 2;
    options.pp_rank = 1;
    let (actions, end) = start(&options, &World::default());
    assert_eq!(end, Ok(Finish::Served));
    assert!(named(&actions, "BuildModel")[0].starts_with("BuildModel { sharded: true"));
    assert!(named(&actions, "LoadWeights")[0].contains("sharded: false"));
    options.tp = 2;
    let (actions, _) = start(&options, &World::default());
    assert!(named(&actions, "LoadWeights")[0].contains("sharded: true"));
}

#[test]
fn a_prompt_is_answered_once() {
    let mut options = defaults();
    options.backend = "stub".to_string();
    options.prompt = Some("Hello".to_string());
    let (actions, end) = start(&options, &World { tokens: 1, ..World::default() });
    assert_eq!(end, Ok(Finish::Generated));
    assert_eq!(
        actions[actions.len() - 2..],
        ["EncodePrompt(\"Hello\")", "Generate { max_new_tokens: 128 }"]
    );
    assert!(named(&actions, "Serve").is_empty());
    let (_, end) = start(&options, &World::default());
    assert_eq!(message(end), "Empty prompt after tokenization");
    options.weights = None;
    let (_, end) = start(&options, &World { tokens: 1, ..World::default() });
    assert_eq!(message(end), "--weights is required to load tokenizer.json");
}

#[test]
fn the_server_runs_without_weights() {
    let mut options = defaults();
    options.backend = "stub".to_string();
    options.weights = None;
    let (actions, end) = start(&options, &World::default());
    assert_eq!(end, Ok(Finish::Served));
    assert_eq!(actions.len(), 4);
    assert_eq!(actions[0], "UsePreset(Large)");
    assert_eq!(actions[3], "Serve { port: 8080, backend: Stub }");
}

#[test]
fn only_rank_zero_of_the_last_stage_serves() {
    let mut options = defaults();
    options.backend = "stub".to_string();
    options.tp = 2;
    options.pp = 3;
    let mut serving = Vec::new();
    for tp_rank in 0..2 {
        for pp_rank in 0..3 {
            let world = World {
                rank: true,
                distributed: Some(place(2, 3, tp_rank, pp_rank, 1)),
                ..World::default()
            };
            let (actions, end) = start(&options, &world);
            if end == Ok(Finish::Served) {
                serving.push((tp_rank, pp_rank));
                assert_eq!(named(&actions, "Serve"), vec!["Serve { port: 8081, backend: Stub }"]);
            } else {
                assert_eq!(end, Ok(Finish::WorkerStopped));
                assert_eq!(actions.last().unwrap(), "RunWorker");
            }
        }
    }
    assert_eq!(serving, vec![(0, 2)]);
}

#[test]
fn ranks_come_from_the_command_line_without_a_launcher() {
    let mut options = defaults();
    options.tp = 4;
    options.tp_rank = 3;
    assert!(wants_many(&options));
    assert!(!wants_many(&defaults()));
    assert_eq!(
        parallel_config(&options, &None),
        ParallelConfig { tp_size: 4, pp_size: 1, tp_rank: 3, pp_rank: 0, dp_size: 1, dp_rank: 0 }
    );
    let told = place(4, 1, 2, 0, 1);
    assert_eq!(parallel_config(&options, &Some(told)), told.parallel);
    assert!(!is_primary(&options, &None));
    assert!(is_primary(&defaults(), &None));
    options.tp_rank = 0;
    options.pp = 0;
    assert!(is_primary(&options, &None));
    assert!(parallel_config(&options, &None).is_tp());
    assert!(!parallel_config(&options, &None).is_pp());
}

#[test]
fn replicas_count_their_ports_up() {
    let mut options = defaults();
    options.dp = 2;
    assert_eq!(serve_port(&options, &None), Some(8080));
    assert_eq!(serve_port(&options, &Some(place(1, 1, 0, 0, 0))), Some(8080));
    assert_eq!(serve_port(&options, &Some(place(1, 1, 0, 0, 7))), Some(8087));
    assert_eq!(serve_port(&options, &Some(place(1, 1, 0, 0, 57455))), Some(65535));
    assert_eq!(serve_port(&options, &Some(place(1, 1, 0, 0, 57456))), None);
    assert_eq!(serve_port(&options, &Some(place(1, 1, 0, 0, 65536))), None);
    options.port = 65535;
    assert_eq!(serve_port(&options, &Some(place(1, 1, 0, 0, 0))), Some(65535));
    assert_eq!(serve_port(&options, &Some(place(1, 1, 0, 0, 1))), None);
    let world = World {
        rank: true,
        distributed: Some(place(1, 1, 0, 0, 1)),
        ..World::default()
    };
    let failure = start(&options, &world).1.unwrap_err();
    assert_eq!(failure, StartupError::PortOverflow);
    assert!(failure.aborts());
    assert_eq!(failure.message(), "attempt to add with overflow");
}

#[test]
fn workers_need_no_port() {
    let mut options = defaults();
    options.backend = "stub".to_string();
    options.tp = 2;
    for (port, dp_rank) in [(8080, 65536), (65535, 1), (8080, 1)] {
        options.port = port;
        let world = World {
            rank: true,
            distributed: Some(place(2, 1, 1, 0, dp_rank)),
            ..World::default()
        };
        let (actions, end) = start(&options, &world);
        assert_eq!(end, Ok(Finish::WorkerStopped));
        assert_eq!(actions.last().unwrap(), "RunWorker");
    }
}

#[test]
fn only_serving_depends_on_the_port() {
    let mut options = defaults();
    options.backend = "stub".to_string();
    options.tp = 2;
    let mut other = defaults();
    other.backend = "stub".to_string();
    other.tp = 2;
    other.port = 65535;
    let worker = World {
        rank: true,
        distributed: Some(place(2, 1, 1, 0, 1)),
        ..World::default()
    };
    assert_eq!(start(&options, &worker), start(&other, &worker));

    let primary = World {
        rank: true,
        distributed: Some(place(2, 1, 0, 0, 1)),
        tokens: 3,
        ..World::default()
    };
    assert_eq!(start(&options, &primary).1, Ok(Finish::Served));
    assert_eq!(start(&other, &primary).1, Err(StartupError::PortOverflow));

    options.weights = Some("/weights".to_string());
    options.prompt = Some("Hello".to_string());
    other.weights = options.weights.clone();
    other.prompt = options.prompt.clone();
    assert_eq!(start(&options, &primary).1, Ok(Finish::Generated));
    assert_eq!(start(&options, &primary), start(&other, &primary));
}

#[test]
fn stray_events_change_nothing() {
    let options = defaults();
    match options.begin() {
        Step::Continue(phase) => match options.advance(phase, Event::Tokens(3)) {
            Step::Continue(same) => assert_eq!(same, phase),
            Step::Stop(_) => panic!("the start-up is not over"),
        },
        Step::Stop(_) => panic!("the start-up has begun"),
    }
}
