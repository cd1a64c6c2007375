//! When each action of a start-up is due, and what each end means, by the
//! options on the command line and what the process finds.

use vstd::prelude::*;

use crate::startup::choices::{Backend, ModelVariant, QuantConfig};
use crate::startup::failure::StartupError;
use crate::startup::laws::{
    actions, actions_from, actions_left, actions_run_out, after, config_source, configured_actions,
    context_of, device_actions, device_choice, end, engine_actions, only_if, ranked_actions,
    serving_actions, startup_acts_as_expected, startup_ends_as_expected, ConfigSource, World,
};
use crate::startup::options::Options;
use crate::startup::parallel::{many_is_more_than_one, Distributed, ParallelConfig};
use crate::startup::plan::{
    action_of, communicates, on_begin, on_event, Action, ChosenDevice, DeviceSource, Event, Finish,
    Phase, Step,
};
use crate::text::i32_value;

verus! {

/// The start-up performs `action`.
pub open spec fn performs(
    options: Options<Seq<char>>,
    world: World,
    action: Action<Seq<char>>,
) -> bool {
    actions(options, world).contains(action)
}

/// The model's configuration is had: from the file on the command line, else
/// from the weights directory, else from the variant.
pub open spec fn config_is_had(options: Options<Seq<char>>, world: World) -> bool {
    if options.config is Some || (options.weights is Some && world.found) {
        world.config is None
    } else {
        ||| options.model == "0.6b"@
        ||| options.model == "4b"@
        ||| options.model == "8b"@
        ||| options.model == "14b"@
    }
}

/// Quantization and backend have a name that is known.
pub open spec fn names_are_known(options: Options<Seq<char>>) -> bool {
    &&& options.quant == "none"@ || options.quant == "int8"@ || options.quant == "awq-int4"@
    &&& options.backend == "stub"@ || options.backend == "ascend"@
}

/// What the launcher told this process: nothing, unless `RANK` is set and the
/// tensors, the layers or the requests are to be divided.
pub open spec fn told(options: Options<Seq<char>>, world: World) -> Option<Distributed> {
    if world.rank && (options.tp > 1 || options.pp > 1 || options.dp > 1) {
        world.distributed
    } else {
        None
    }
}

/// `parallel` is the place that the launcher gave this process, or without one
/// that of the command line, in the first replica.
pub open spec fn is_place(
    options: Options<Seq<char>>,
    world: World,
    parallel: ParallelConfig,
) -> bool {
    match told(options, world) {
        Some(d) => parallel == d.parallel,
        None => {
            &&& parallel.tp_size == options.tp
            &&& parallel.pp_size == options.pp
            &&& parallel.tp_rank == options.tp_rank
            &&& parallel.pp_rank == options.pp_rank
            &&& parallel.dp_size == options.dp
            &&& parallel.dp_rank == 0
        },
    }
}

/// Nothing but the environment can name the accelerator.
pub open spec fn environment_is_asked(options: Options<Seq<char>>, world: World) -> bool {
    &&& config_is_had(options, world)
    &&& names_are_known(options)
    &&& options.backend == "ascend"@
    &&& options.device_id is None
    &&& told(options, world) is None
}

/// The number of the accelerator, and what it comes from.
pub open spec fn device_is(
    options: Options<Seq<char>>,
    world: World,
    device: ChosenDevice,
) -> bool {
    match device.source {
        DeviceSource::CommandLine => options.device_id == Some(device.id),
        DeviceSource::Launcher => {
            &&& options.device_id is None
            &&& told(options, world) matches Some(d) && d.device_id == device.id
        },
        DeviceSource::TaskDevice => {
            &&& options.device_id is None
            &&& told(options, world) is None
            &&& world.task_device matches Some(text) && i32_value(text) == Some(device.id)
        },
        DeviceSource::AscendDeviceId => {
            &&& options.device_id is None
            &&& told(options, world) is None
            &&& world.task_device is None
            &&& world.ascend_device_id matches Some(text) && i32_value(text) == Some(device.id)
        },
    }
}

/// The backend can do its work: the stub always, the accelerator once opened.
pub open spec fn backend_is_ready(options: Options<Seq<char>>, world: World) -> bool {
    &&& config_is_had(options, world)
    &&& names_are_known(options)
    &&& options.backend == "ascend"@ ==> {
        &&& world.device is None
        &&& {
            ||| options.device_id is Some
            ||| told(options, world) is Some
            ||| world.task_device matches Some(text) && i32_value(text) is Some
            ||| world.task_device is None && (world.ascend_device_id matches Some(text)
                && i32_value(text) is Some)
        }
    }
}

/// The engine is made: the weights, if there are any, were read and, for an
/// accelerator, moved there.
pub open spec fn engine_is_made(options: Options<Seq<char>>, world: World) -> bool {
    &&& backend_is_ready(options, world)
    &&& options.weights is Some ==> world.weights is None
    &&& options.weights is Some && options.backend == "ascend"@ ==> world.upload is None
}

/// The run has other processes, on accelerators.
pub open spec fn has_peers(options: Options<Seq<char>>, world: World) -> bool {
    &&& options.backend == "ascend"@
    &&& told(options, world) matches Some(d) && !d.single
}

/// The engine is made and connected to its peers.
pub open spec fn engine_is_connected(options: Options<Seq<char>>, world: World) -> bool {
    &&& engine_is_made(options, world)
    &&& has_peers(options, world) ==> world.communicators is None
}

/// The engine is connected and the tokenizer, if there is one, was read.
pub open spec fn all_is_set(options: Options<Seq<char>>, world: World) -> bool {
    &&& engine_is_connected(options, world)
    &&& options.weights is Some ==> world.tokenizer is None
}

/// Of a replica's processes this is the one that serves: tensor rank 0 of the
/// last pipeline stage.
pub open spec fn leads(options: Options<Seq<char>>, world: World) -> bool {
    let (tp_rank, pp_rank) = match told(options, world) {
        Some(d) => (d.tp_rank, d.pp_rank),
        None => (options.tp_rank, options.pp_rank),
    };
    &&& tp_rank == 0
    &&& pp_rank + 1 == options.pp || (options.pp == 0 && pp_rank == 0)
}

/// The replica that this process belongs to.
pub open spec fn replica(options: Options<Seq<char>>, world: World) -> int {
    match told(options, world) {
        Some(d) => d.dp_rank as int,
        None => 0,
    }
}

proof fn appended<A>(a: Seq<A>, b: Seq<A>, x: A)
    ensures
        (a + b).contains(x) <==> a.contains(x) || b.contains(x),
{
    if a.contains(x) {
        let i = choose|i: int| 0 <= i < a.len() && a[i] == x;
        assert((a + b)[i] == x);
    }
    if b.contains(x) {
        let i = choose|i: int| 0 <= i < b.len() && b[i] == x;
        assert((a + b)[a.len() + i] == x);
    }
}

proof fn lone<A>(a: A, x: A)
    ensures
        seq![a].contains(x) <==> x == a,
{
    assert(seq![a][0] == a);
}

proof fn conditional(due: bool, a: Action<Seq<char>>, x: Action<Seq<char>>)
    ensures
        only_if(due, a).contains(x) <==> due && x == a,
{
    lone(a, x);
}

proof fn names_differ()
    ensures
        "stub"@ != "ascend"@,
        "none"@ != "int8"@,
        "none"@ != "awq-int4"@,
        "int8"@ != "awq-int4"@,
        "0.6b"@ != "4b"@,
        "0.6b"@ != "8b"@,
        "0.6b"@ != "14b"@,
        "4b"@ != "8b"@,
        "4b"@ != "14b"@,
        "8b"@ != "14b"@,
{
    reveal_strlit("stub");
    reveal_strlit("ascend");
    reveal_strlit("none");
    reveal_strlit("int8");
    reveal_strlit("awq-int4");
    reveal_strlit("0.6b");
    reveal_strlit("4b");
    reveal_strlit("8b");
    reveal_strlit("14b");
    assert("stub"@.len() == 4 && "ascend"@.len() == 6);
    assert("none"@[0] == 'n' && "int8"@[0] == 'i' && "awq-int4"@[0] == 'a');
    assert("0.6b"@[0] == '0' && "4b"@[0] == '4' && "8b"@[0] == '8' && "14b"@[0] == '1');
}

proof fn serving_has(options: Options<Seq<char>>, world: World, x: Action<Seq<char>>)
    requires
        engine_is_connected(options, world),
    ensures
        serving_actions(options, world).contains(x) <==> match x {
            Action::LoadTokenizer(dir) => options.weights == Some(dir),
            Action::EncodePrompt(prompt) => {
                &&& all_is_set(options, world)
                &&& options.weights is Some
                &&& options.prompt == Some(prompt)
            },
            Action::Generate { max_new_tokens } => {
                &&& all_is_set(options, world)
                &&& options.weights is Some
                &&& options.prompt is Some
                &&& world.tokens > 0
                &&& max_new_tokens == options.max_new_tokens
            },
            Action::RunWorker => {
                &&& all_is_set(options, world)
                &&& options.prompt is None
                &&& !leads(options, world)
            },
            Action::Serve { port, backend } => {
                &&& all_is_set(options, world)
                &&& options.prompt is None
                &&& leads(options, world)
                &&& port == options.port + replica(options, world)
                &&& backend == (if options.backend == "stub"@ {
                    Backend::Stub
                } else {
                    Backend::Ascend
                })
            },
            _ => false,
        },
{
    names_differ();
    let port = (options.port + replica(options, world)) as u16;
    let backend = if options.backend == "stub"@ {
        Backend::Stub
    } else {
        Backend::Ascend
    };
    let tokenizer = only_if(options.weights is Some, Action::LoadTokenizer(options.weights->0));
    let encode = only_if(options.weights is Some, Action::EncodePrompt(options.prompt->0));
    let generate = only_if(
        options.weights is Some && world.tokens > 0,
        Action::Generate { max_new_tokens: options.max_new_tokens },
    );
    conditional(options.weights is Some, Action::LoadTokenizer(options.weights->0), x);
    conditional(options.weights is Some, Action::EncodePrompt(options.prompt->0), x);
    conditional(
        options.weights is Some && world.tokens > 0,
        Action::Generate { max_new_tokens: options.max_new_tokens },
        x,
    );
    appended(tokenizer, encode, x);
    appended(tokenizer + encode, generate, x);
    lone(Action::RunWorker, x);
    appended(tokenizer, seq![Action::RunWorker], x);
    lone(Action::Serve { port, backend }, x);
    appended(tokenizer, seq![Action::Serve { port, backend }], x);
}

proof fn engine_has(options: Options<Seq<char>>, world: World, x: Action<Seq<char>>)
    requires
        backend_is_ready(options, world),
    ensures
        engine_actions(options, world).contains(x) <==> match x {
            Action::BuildModel { sharded, parallel } => {
                &&& is_place(options, world, parallel)
                &&& sharded == (parallel.tp_size > 1 || parallel.pp_size > 1)
            },
            Action::LoadWeights { dir, sharded, parallel } => {
                &&& options.weights == Some(dir)
                &&& is_place(options, world, parallel)
                &&& sharded == (parallel.tp_size > 1)
            },
            Action::UploadWeights => {
                &&& options.weights is Some
                &&& world.weights is None
                &&& options.backend == "ascend"@
            },
            Action::CreateEngine { parallel, quant } => {
                &&& engine_is_made(options, world)
                &&& is_place(options, world, parallel)
                &&& quant == (if options.quant == "none"@ {
                    QuantConfig::Unquantized
                } else if options.quant == "int8"@ {
                    QuantConfig::Int8PerTensor
                } else {
                    QuantConfig::AwqInt4 { group_size: 128 }
                })
            },
            Action::InitCommunicators => engine_is_made(options, world) && has_peers(
                options,
                world,
            ),
            _ => engine_is_connected(options, world) && serving_actions(options, world).contains(x),
        },
{
    names_differ();
    let context = context_of(options, world);
    let parallel = context.parallel;
    assert(is_place(options, world, parallel));
    let uploads = options.weights is Some && context.backend == Backend::Ascend;
    let build = Action::BuildModel {
        sharded: parallel.splits_tensors() || parallel.splits_layers(),
        parallel,
    };
    let load = Action::LoadWeights {
        dir: options.weights->0,
        sharded: parallel.splits_tensors(),
        parallel,
    };
    let create = Action::CreateEngine { parallel, quant: context.quant };
    let connects = communicates(context);
    let model = seq![build] + only_if(options.weights is Some, load);
    let upload = only_if(uploads, Action::UploadWeights);
    let connect = only_if(connects, Action::InitCommunicators);
    let engine = upload + seq![create] + connect;
    lone(build, x);
    conditional(options.weights is Some, load, x);
    appended(seq![build], only_if(options.weights is Some, load), x);
    conditional(uploads, Action::UploadWeights, x);
    lone(create, x);
    appended(upload, seq![create], x);
    conditional(connects, Action::InitCommunicators, x);
    appended(upload + seq![create], connect, x);
    lone(Action::UploadWeights, x);
    appended(model, seq![Action::UploadWeights], x);
    appended(model, engine, x);
    appended(model + engine, serving_actions(options, world), x);
    if engine_is_connected(options, world) {
        serving_has(options, world, x);
    }
}

proof fn ranked_has(options: Options<Seq<char>>, world: World, x: Action<Seq<char>>)
    requires
        config_is_had(options, world),
    ensures
        ranked_actions(options, world).contains(x) <==> match x {
            Action::ReadTaskDevice => environment_is_asked(options, world),
            Action::ReadAscendDeviceId => environment_is_asked(options, world)
                && world.task_device is None,
            Action::OpenDevice(device) => {
                &&& names_are_known(options)
                &&& options.backend == "ascend"@
                &&& device_is(options, world, device)
            },
            _ => backend_is_ready(options, world) && engine_actions(options, world).contains(x),
        },
{
    names_differ();
    let asks = options.device_id is None && told(options, world) is None;
    let task = only_if(asks, Action::ReadTaskDevice);
    let ascend = only_if(asks && world.task_device is None, Action::ReadAscendDeviceId);
    let choice = device_choice(options, world);
    let open = only_if(choice is Ok, Action::OpenDevice(choice->Ok_0));
    conditional(asks, Action::ReadTaskDevice, x);
    conditional(asks && world.task_device is None, Action::ReadAscendDeviceId, x);
    conditional(choice is Ok, Action::OpenDevice(choice->Ok_0), x);
    appended(task, ascend, x);
    appended(task + ascend, open, x);
    appended(device_actions(options, world), engine_actions(options, world), x);
    if backend_is_ready(options, world) {
        engine_has(options, world, x);
        if engine_is_connected(options, world) {
            serving_has(options, world, x);
        }
    }
}

proof fn startup_has(options: Options<Seq<char>>, world: World, x: Action<Seq<char>>)
    ensures
        performs(options, world, x) <==> match x {
            Action::LoadConfig(path) => options.config == Some(path),
            Action::ProbeConfig(dir) => options.config is None && options.weights == Some(dir),
            Action::LoadConfigIn(dir) => options.config is None && options.weights == Some(dir)
                && world.found,
            Action::UsePreset(variant) => {
                &&& options.config is None
                &&& options.weights is None || !world.found
                &&& options.model == (match variant {
                    ModelVariant::Small => "0.6b"@,
                    ModelVariant::Medium => "4b"@,
                    ModelVariant::Large => "8b"@,
                    ModelVariant::Huge => "14b"@,
                })
            },
            Action::ReadRank => config_is_had(options, world) && (options.tp > 1 || options.pp > 1
                || options.dp > 1),
            Action::Join { tp, pp, dp } => {
                &&& config_is_had(options, world)
                &&& world.rank
                &&& options.tp > 1 || options.pp > 1 || options.dp > 1
                &&& tp == options.tp && pp == options.pp && dp == options.dp
            },
            _ => config_is_had(options, world) && ranked_actions(options, world).contains(x),
        },
{
    names_differ();
    startup_acts_as_expected(options, world);
    let many = options.tp > 1 || options.pp > 1 || options.dp > 1;
    let join = Action::Join { tp: options.tp, pp: options.pp, dp: options.dp };
    conditional(many, Action::ReadRank, x);
    conditional(many && world.rank, join, x);
    appended(only_if(many, Action::ReadRank), only_if(many && world.rank, join), x);
    appended(
        only_if(many, Action::ReadRank) + only_if(many && world.rank, join),
        ranked_actions(options, world),
        x,
    );
    let source = config_source(options, world);
    let probes = options.config is None && options.weights is Some;
    let probe = only_if(probes, Action::ProbeConfig(options.weights->0));
    conditional(probes, Action::ProbeConfig(options.weights->0), x);
    let config = match source {
        ConfigSource::File(path) => seq![Action::LoadConfig(path)],
        ConfigSource::Found(dir) => seq![Action::LoadConfigIn(dir)],
        ConfigSource::Preset(variant) => seq![Action::UsePreset(variant)],
        ConfigSource::Nowhere => seq![],
    };
    match source {
        ConfigSource::File(path) => lone(Action::LoadConfig(path), x),
        ConfigSource::Found(dir) => lone(Action::LoadConfigIn(dir), x),
        ConfigSource::Preset(variant) => lone(Action::UsePreset(variant), x),
        ConfigSource::Nowhere => {},
    }
    appended(probe, config, x);
    appended(probe + config, configured_actions(options, world), x);
    if config_is_had(options, world) {
        ranked_has(options, world, x);
        if backend_is_ready(options, world) {
            engine_has(options, world, x);
            if engine_is_connected(options, world) {
                serving_has(options, world, x);
            }
        }
    }
}

/// The configuration comes from the file on the command line, else from the
/// `config.json` that is looked for in the weights directory, else from the
/// variant of the name on the command line.
pub proof fn configuration_is_sought_in_order(
    options: Options<Seq<char>>,
    world: World,
    path: Seq<char>,
    variant: ModelVariant,
)
    ensures
        performs(options, world, Action::LoadConfig(path)) <==> options.config == Some(path),
        performs(options, world, Action::ProbeConfig(path)) <==> options.config is None
            && options.weights == Some(path),
        performs(options, world, Action::LoadConfigIn(path)) <==> options.config is None
            && options.weights == Some(path) && world.found,
        performs(options, world, Action::UsePreset(variant)) <==> {
            &&& options.config is None
            &&& options.weights is None || !world.found
            &&& options.model == (match variant {
                ModelVariant::Small => "0.6b"@,
                ModelVariant::Medium => "4b"@,
                ModelVariant::Large => "8b"@,
                ModelVariant::Huge => "14b"@,
            })
        },
{
    startup_has(options, world, Action::LoadConfig(path));
    startup_has(options, world, Action::ProbeConfig(path));
    startup_has(options, world, Action::LoadConfigIn(path));
    startup_has(options, world, Action::UsePreset(variant));
}

/// The launcher is heeded wherever the degrees ask for more than one process,
/// whichever of the three does: `RANK` is looked for, and where it is set, the
/// run of exactly these degrees is joined. Nothing is joined otherwise.
pub proof fn distributed_run_is_joined(
    options: Options<Seq<char>>,
    world: World,
    tp: usize,
    pp: usize,
    dp: usize,
)
    requires
        config_is_had(options, world),
    ensures
        performs(options, world, Action::ReadRank) <==> options.tp > 1 || options.pp > 1
            || options.dp > 1,
        performs(options, world, Action::Join { tp, pp, dp }) <==> {
            &&& world.rank
            &&& options.tp > 1 || options.pp > 1 || options.dp > 1
            &&& tp == options.tp && pp == options.pp && dp == options.dp
        },
        options.tp >= 1 && options.pp >= 1 && options.dp >= 1 ==> (performs(
            options,
            world,
            Action::ReadRank,
        ) <==> options.tp * options.pp * options.dp > 1),
{
    startup_has(options, world, Action::ReadRank);
    startup_has(options, world, Action::Join { tp, pp, dp });
    if options.tp >= 1 && options.pp >= 1 && options.dp >= 1 {
        many_is_more_than_one(options);
    }
}

/// Where the configuration is not had, no launcher is heeded and nothing is
/// opened, built, read from the weights or served.
pub proof fn nothing_follows_without_a_configuration(
    options: Options<Seq<char>>,
    world: World,
    action: Action<Seq<char>>,
)
    requires
        !config_is_had(options, world),
        performs(options, world, action),
    ensures
        action is LoadConfig || action is ProbeConfig || action is LoadConfigIn,
{
    startup_has(options, world, action);
}

/// The environment is asked for an accelerator only where neither the command
/// line nor the launcher names one, and `ASCEND_DEVICE_ID` only where
/// `TASK_DEVICE` is not set.
pub proof fn environment_is_asked_last(options: Options<Seq<char>>, world: World)
    ensures
        performs(options, world, Action::ReadTaskDevice) <==> {
            &&& config_is_had(options, world)
            &&& names_are_known(options)
            &&& options.backend == "ascend"@
            &&& options.device_id is None
            &&& told(options, world) is None
        },
        performs(options, world, Action::ReadAscendDeviceId) <==> performs(
            options,
            world,
            Action::ReadTaskDevice,
        ) && world.task_device is None,
{
    startup_has(options, world, Action::ReadTaskDevice);
    startup_has(options, world, Action::ReadAscendDeviceId);
    if config_is_had(options, world) {
        ranked_has(options, world, Action::ReadTaskDevice);
        ranked_has(options, world, Action::ReadAscendDeviceId);
    }
}

/// The Ascend backend opens the accelerator of the command line's number, else
/// of the launcher's, else of `TASK_DEVICE`, else of `ASCEND_DEVICE_ID`, and no
/// other.
pub proof fn accelerator_is_opened(
    options: Options<Seq<char>>,
    world: World,
    device: ChosenDevice,
)
    ensures
        performs(options, world, Action::OpenDevice(device)) <==> {
            &&& config_is_had(options, world)
            &&& names_are_known(options)
            &&& options.backend == "ascend"@
            &&& match (options.device_id, told(options, world)) {
                (Some(id), _) => device.id == id && device.source == DeviceSource::CommandLine,
                (None, Some(d)) => device.id == d.device_id && device.source
                    == DeviceSource::Launcher,
                (None, None) => match (world.task_device, world.ascend_device_id) {
                    (Some(text), _) => i32_value(text) == Some(device.id) && device.source
                        == DeviceSource::TaskDevice,
                    (None, Some(text)) => i32_value(text) == Some(device.id) && device.source
                        == DeviceSource::AscendDeviceId,
                    (None, None) => false,
                },
            }
        },
{
    startup_has(options, world, Action::OpenDevice(device));
    if config_is_had(options, world) {
        ranked_has(options, world, Action::OpenDevice(device));
    }
}

proof fn built_has(options: Options<Seq<char>>, world: World, x: Action<Seq<char>>)
    requires
        x is BuildModel || x is LoadWeights || x is UploadWeights || x is CreateEngine
            || x is InitCommunicators,
    ensures
        performs(options, world, x) <==> backend_is_ready(options, world) && engine_actions(
            options,
            world,
        ).contains(x),
{
    startup_has(options, world, x);
    if config_is_had(options, world) {
        ranked_has(options, world, x);
    }
}

/// Once the backend is ready the model is built, in part exactly where tensors
/// or layers are split over processes; the weights of the directory, if one is
/// given, are read into it, in part exactly where tensors are split; for the
/// accelerator they are moved there.
pub proof fn model_is_built_and_filled(
    options: Options<Seq<char>>,
    world: World,
    dir: Seq<char>,
    sharded: bool,
    parallel: ParallelConfig,
)
    ensures
        performs(options, world, Action::BuildModel { sharded, parallel }) <==> {
            &&& backend_is_ready(options, world)
            &&& is_place(options, world, parallel)
            &&& sharded <==> parallel.tp_size > 1 || parallel.pp_size > 1
        },
        performs(options, world, Action::LoadWeights { dir, sharded, parallel }) <==> {
            &&& backend_is_ready(options, world)
            &&& options.weights == Some(dir)
            &&& is_place(options, world, parallel)
            &&& sharded <==> parallel.tp_size > 1
        },
        performs(options, world, Action::UploadWeights) <==> {
            &&& backend_is_ready(options, world)
            &&& options.backend == "ascend"@
            &&& options.weights is Some
            &&& world.weights is None
        },
{
    built_has(options, world, Action::BuildModel { sharded, parallel });
    built_has(options, world, Action::LoadWeights { dir, sharded, parallel });
    built_has(options, world, Action::UploadWeights);
    if backend_is_ready(options, world) {
        engine_has(options, world, Action::BuildModel { sharded, parallel });
        engine_has(options, world, Action::LoadWeights { dir, sharded, parallel });
        engine_has(options, world, Action::UploadWeights);
    }
}

/// Model, weights and engine are made for the place of this process. Without a
/// launcher each of its fields is the command line's of that name, in the first
/// replica; with one it is the place that the launcher gave, and so, where that
/// is coherent, the launcher's ranks.
pub proof fn place_is_as_told(options: Options<Seq<char>>, world: World, parallel: ParallelConfig)
    requires
        ({
            ||| exists|sharded: bool|
                performs(options, world, Action::BuildModel { sharded, parallel })
            ||| exists|dir: Seq<char>, sharded: bool|
                performs(options, world, Action::LoadWeights { dir, sharded, parallel })
            ||| exists|quant: QuantConfig|
                performs(options, world, Action::CreateEngine { parallel, quant })
        }),
    ensures
        world.rank && (options.tp > 1 || options.pp > 1 || options.dp > 1)
            && world.distributed is Some ==> {
            let d = world.distributed->0;
            &&& parallel == d.parallel
            &&& d.coherent() ==> {
                &&& parallel.tp_rank == d.tp_rank
                &&& parallel.pp_rank == d.pp_rank
                &&& parallel.dp_rank == d.dp_rank
            }
        },
        !(world.rank && (options.tp > 1 || options.pp > 1 || options.dp > 1)
            && world.distributed is Some) ==> {
            &&& parallel.tp_size == options.tp
            &&& parallel.pp_size == options.pp
            &&& parallel.tp_rank == options.tp_rank
            &&& parallel.pp_rank == options.pp_rank
            &&& parallel.dp_size == options.dp
            &&& parallel.dp_rank == 0
        },
{
    if exists|sharded: bool| performs(options, world, Action::BuildModel { sharded, parallel }) {
        let sharded = choose|sharded: bool|
            performs(options, world, Action::BuildModel { sharded, parallel });
        built_has(options, world, Action::BuildModel { sharded, parallel });
        engine_has(options, world, Action::BuildModel { sharded, parallel });
    } else if exists|dir: Seq<char>, sharded: bool|
        performs(options, world, Action::LoadWeights { dir, sharded, parallel }) {
        let (dir, sharded) = choose|dir: Seq<char>, sharded: bool|
            performs(options, world, Action::LoadWeights { dir, sharded, parallel });
        built_has(options, world, Action::LoadWeights { dir, sharded, parallel });
        engine_has(options, world, Action::LoadWeights { dir, sharded, parallel });
    } else {
        let quant = choose|quant: QuantConfig|
            performs(options, world, Action::CreateEngine { parallel, quant });
        built_has(options, world, Action::CreateEngine { parallel, quant });
        engine_has(options, world, Action::CreateEngine { parallel, quant });
    }
}

/// Two processes of one run hold the same part of the model only if the
/// launcher gave them the same place.
pub proof fn different_places_hold_different_parts(
    options: Options<Seq<char>>,
    one: World,
    other: World,
    a: ParallelConfig,
    b: ParallelConfig,
    s: bool,
    t: bool,
)
    requires
        told(options, one) is Some,
        told(options, other) is Some,
        performs(options, one, Action::BuildModel { sharded: s, parallel: a }),
        performs(options, other, Action::BuildModel { sharded: t, parallel: b }),
    ensures
        a == b <==> told(options, one)->0.parallel == told(options, other)->0.parallel,
{
    place_is_as_told(options, one, a);
    place_is_as_told(options, other, b);
}

/// The engine is created once the backend is ready and the weights, if any, are
/// where they belong, for the quantization that the command line names.
pub proof fn engine_is_created(
    options: Options<Seq<char>>,
    world: World,
    parallel: ParallelConfig,
    quant: QuantConfig,
)
    ensures
        performs(options, world, Action::CreateEngine { parallel, quant }) <==> {
            &&& backend_is_ready(options, world)
            &&& options.weights is Some ==> world.weights is None
            &&& options.weights is Some && options.backend == "ascend"@ ==> world.upload is None
            &&& is_place(options, world, parallel)
            &&& options.quant == (match quant {
                QuantConfig::Unquantized => "none"@,
                QuantConfig::Int8PerTensor => "int8"@,
                QuantConfig::AwqInt4 { .. } => "awq-int4"@,
            })
            &&& quant matches QuantConfig::AwqInt4 { group_size } ==> group_size == 128
        },
{
    names_differ();
    built_has(options, world, Action::CreateEngine { parallel, quant });
    if backend_is_ready(options, world) {
        engine_has(options, world, Action::CreateEngine { parallel, quant });
    }
}

/// The processes of a run are connected wherever there are others and they work
/// on accelerators, whichever of tensors, layers and requests is divided, as
/// soon as the engine is there; and nowhere else.
pub proof fn processes_are_connected(
    options: Options<Seq<char>>,
    world: World,
    parallel: ParallelConfig,
    quant: QuantConfig,
)
    requires
        performs(options, world, Action::CreateEngine { parallel, quant }),
    ensures
        performs(options, world, Action::InitCommunicators) <==> {
            &&& options.backend == "ascend"@
            &&& world.rank
            &&& options.tp > 1 || options.pp > 1 || options.dp > 1
            &&& world.distributed matches Some(d) && !d.single
        },
{
    built_has(options, world, Action::CreateEngine { parallel, quant });
    engine_has(options, world, Action::CreateEngine { parallel, quant });
    built_has(options, world, Action::InitCommunicators);
    engine_has(options, world, Action::InitCommunicators);
}

/// Where every action up to the engine succeeds, the engine is created and the
/// processes of a run of several are connected; where there is no engine, none
/// is.
pub proof fn connection_needs_an_engine(options: Options<Seq<char>>, world: World)
    ensures
        performs(options, world, Action::InitCommunicators) <==> engine_is_made(options, world)
            && has_peers(options, world),
{
    built_has(options, world, Action::InitCommunicators);
    if backend_is_ready(options, world) {
        engine_has(options, world, Action::InitCommunicators);
    }
}

proof fn served_has(options: Options<Seq<char>>, world: World, x: Action<Seq<char>>)
    requires
        x is LoadTokenizer || x is EncodePrompt || x is Generate || x is RunWorker || x is Serve,
    ensures
        performs(options, world, x) <==> engine_is_connected(options, world) && serving_actions(
            options,
            world,
        ).contains(x),
{
    startup_has(options, world, x);
    if config_is_had(options, world) {
        ranked_has(options, world, x);
        if backend_is_ready(options, world) {
            engine_has(options, world, x);
        }
    }
}

/// The tokenizer of the weights directory is read once the engine is connected.
/// A prompt is then turned into tokens, and continued if it has any, up to the
/// limit on the command line.
pub proof fn prompt_is_continued(
    options: Options<Seq<char>>,
    world: World,
    text: Seq<char>,
    max_new_tokens: usize,
)
    ensures
        performs(options, world, Action::LoadTokenizer(text)) <==> engine_is_connected(
            options,
            world,
        ) && options.weights == Some(text),
        performs(options, world, Action::EncodePrompt(text)) <==> {
            &&& engine_is_connected(options, world)
            &&& options.weights is Some
            &&& world.tokenizer is None
            &&& options.prompt == Some(text)
        },
        performs(options, world, Action::Generate { max_new_tokens }) <==> {
            &&& engine_is_connected(options, world)
            &&& options.weights is Some
            &&& world.tokenizer is None
            &&& options.prompt is Some
            &&& world.tokens > 0
            &&& max_new_tokens == options.max_new_tokens
        },
{
    served_has(options, world, Action::LoadTokenizer(text));
    served_has(options, world, Action::EncodePrompt(text));
    served_has(options, world, Action::Generate { max_new_tokens });
    if engine_is_connected(options, world) {
        serving_has(options, world, Action::LoadTokenizer(text));
        serving_has(options, world, Action::EncodePrompt(text));
        serving_has(options, world, Action::Generate { max_new_tokens });
    }
}

/// Without a prompt the process that leads its replica serves, on the command
/// line's port plus the replica's number where there is such a port, and every
/// other works for the one that leads.
pub proof fn leader_serves_and_others_work(
    options: Options<Seq<char>>,
    world: World,
    port: u16,
    backend: Backend,
)
    ensures
        performs(options, world, Action::Serve { port, backend }) <==> {
            &&& all_is_set(options, world)
            &&& options.prompt is None
            &&& leads(options, world)
            &&& port == options.port + replica(options, world)
            &&& options.backend == (match backend {
                Backend::Stub => "stub"@,
                Backend::Ascend => "ascend"@,
            })
        },
        performs(options, world, Action::RunWorker) <==> {
            &&& all_is_set(options, world)
            &&& options.prompt is None
            &&& !leads(options, world)
        },
{
    names_differ();
    served_has(options, world, Action::Serve { port, backend });
    served_has(options, world, Action::RunWorker);
    if engine_is_connected(options, world) {
        serving_has(options, world, Action::Serve { port, backend });
        serving_has(options, world, Action::RunWorker);
    }
}

/// Of the processes of one replica, told apart by their tensor and pipeline
/// ranks, no two lead.
pub proof fn one_process_leads_a_replica(
    options: Options<Seq<char>>,
    one: World,
    other: World,
)
    requires
        options.tp > 1 || options.pp > 1 || options.dp > 1,
        one.rank,
        other.rank,
        one.distributed is Some,
        other.distributed is Some,
        leads(options, one),
    ensures
        leads(options, other) <==> one.distributed->0.tp_rank == other.distributed->0.tp_rank
            && one.distributed->0.pp_rank == other.distributed->0.pp_rank,
{
}

/// The turn of an action: what comes earlier in a start-up has a smaller one.
pub open spec fn turn(action: Action<Seq<char>>) -> int {
    match action {
        Action::ProbeConfig(_) => 0,
        Action::LoadConfig(_) => 1,
        Action::LoadConfigIn(_) => 1,
        Action::UsePreset(_) => 1,
        Action::ReadRank => 2,
        Action::Join { .. } => 3,
        Action::ReadTaskDevice => 4,
        Action::ReadAscendDeviceId => 5,
        Action::OpenDevice(_) => 6,
        Action::BuildModel { .. } => 7,
        Action::LoadWeights { .. } => 8,
        Action::UploadWeights => 9,
        Action::CreateEngine { .. } => 10,
        Action::InitCommunicators => 11,
        Action::LoadTokenizer(_) => 12,
        Action::EncodePrompt(_) => 13,
        Action::Generate { .. } => 14,
        Action::RunWorker => 15,
        Action::Serve { .. } => 15,
    }
}

proof fn next_turn(options: Options<Seq<char>>, phase: Phase, world: World)
    ensures
        after(options, phase, world) matches Step::Continue(next) ==> turn(
            action_of(options, phase),
        ) < turn(action_of(options, next)),
{
    match phase {
        Phase::LoadConfig => {},
        Phase::ProbeConfig => {},
        Phase::LoadFoundConfig => {},
        Phase::UsePreset(_) => {},
        Phase::ReadRank => {},
        Phase::Join => {},
        Phase::ReadTaskDevice(_) => {},
        Phase::ReadAscendDeviceId(_) => {},
        Phase::OpenDevice(_, _) => {},
        Phase::BuildModel(_) => {},
        Phase::LoadWeights(_) => {},
        Phase::UploadWeights(_) => {},
        Phase::CreateEngine(_) => {},
        Phase::InitCommunicators(_) => {},
        Phase::LoadTokenizer(_) => {},
        _ => {},
    }
}

proof fn turns_rise(options: Options<Seq<char>>, phase: Phase, world: World, i: int, j: int)
    requires
        0 <= i < j < actions_from(options, Step::Continue(phase), world).len(),
    ensures
        turn(actions_from(options, Step::Continue(phase), world)[i]) < turn(
            actions_from(options, Step::Continue(phase), world)[j],
        ),
    decreases actions_left(Step::<Seq<char>>::Continue(phase)), j,
{
    let rest = after(options, phase, world);
    let made = actions_from(options, Step::Continue(phase), world);
    assert(made == seq![action_of(options, phase)] + actions_from(options, rest, world));
    actions_run_out(options, phase, world);
    match rest {
        Step::Stop(_) => {},
        Step::Continue(next) => {
            let later = actions_from(options, rest, world);
            assert(later[0] == action_of(options, next));
            assert(made[j] == later[j - 1]);
            next_turn(options, phase, world);
            if i > 0 {
                assert(made[i] == later[i - 1]);
                turns_rise(options, next, world, i - 1, j - 1);
            } else if j > 1 {
                turns_rise(options, next, world, 0, j - 1);
            }
        },
    }
}

/// The actions of a start-up come in the order of their turns, each once: the
/// configuration first, then the ranks, the accelerator, the model, its
/// weights, the engine, its connections, the tokenizer, and last what the
/// process was started for.
pub proof fn actions_come_in_turn(options: Options<Seq<char>>, world: World)
    ensures
        forall|i: int, j: int|
            0 <= i < j < actions(options, world).len() ==> turn(
                #[trigger] actions(options, world)[i],
            ) < turn(#[trigger] actions(options, world)[j]),
{
    assert forall|i: int, j: int| 0 <= i < j < actions(options, world).len() implies turn(
        #[trigger] actions(options, world)[i],
    ) < turn(#[trigger] actions(options, world)[j]) by {
        turns_rise(options, on_begin(options)->Continue_0, world, i, j);
    }
}

/// A start-up whose action fails ends with that failure, in the words that came
/// back, and only then.
pub proof fn failed_actions_end_the_startup(
    options: Options<Seq<char>>,
    world: World,
    words: Seq<char>,
)
    ensures
        (end(options, world) matches Err(StartupError::Config(w)) && w == words) <==> {
            &&& options.config is Some || (options.weights is Some && world.found)
            &&& world.config == Some(words)
        },
        (end(options, world) matches Err(StartupError::Device(w)) && w == words) <==> {
            &&& exists|device: ChosenDevice| #[trigger]
                performs(options, world, Action::OpenDevice(device))
            &&& world.device == Some(words)
        },
        (end(options, world) matches Err(StartupError::Weights(w)) && w == words) <==> {
            &&& backend_is_ready(options, world)
            &&& options.weights is Some
            &&& world.weights == Some(words)
        },
        (end(options, world) matches Err(StartupError::Upload(w)) && w == words) <==> performs(
            options,
            world,
            Action::UploadWeights,
        ) && world.upload == Some(words),
        (end(options, world) matches Err(StartupError::Communicators(w)) && w == words)
            <==> performs(options, world, Action::InitCommunicators) && world.communicators == Some(
            words,
        ),
        (end(options, world) matches Err(StartupError::Tokenizer(w)) && w == words) <==> {
            &&& engine_is_connected(options, world)
            &&& options.weights is Some
            &&& world.tokenizer == Some(words)
        },
        (end(options, world) matches Err(StartupError::Serve(w)) && w == words) <==> {
            &&& all_is_set(options, world)
            &&& options.prompt is None
            &&& leads(options, world)
            &&& options.port + replica(options, world) <= 65535
            &&& world.serve == Some(words)
        },
{
    names_differ();
    startup_ends_as_expected(options, world);
    model_is_built_and_filled(options, world, words, true, context_of(options, world).parallel);
    connection_needs_an_engine(options, world);
    let choice = device_choice(options, world);
    assert forall|device: ChosenDevice| #[trigger]
        performs(options, world, Action::OpenDevice(device)) implies choice == Ok::<
        ChosenDevice,
        StartupError<Seq<char>>,
    >(device) by {
        accelerator_is_opened(options, world, device);
    }
    if choice is Ok {
        accelerator_is_opened(options, world, choice->Ok_0);
    }
}

/// What keeps a start-up from going on without any action failing: a name that
/// is not known, no accelerator, a prompt without a tokenizer or without tokens,
/// a port that does not exist.
pub proof fn refusals_have_their_reasons(
    options: Options<Seq<char>>,
    world: World,
    name: Seq<char>,
)
    ensures
        (end(options, world) matches Err(StartupError::UnknownModel(n)) && n == name) <==> {
            &&& options.config is None && (options.weights is None || !world.found)
            &&& !config_is_had(options, world)
            &&& name == options.model
        },
        (end(options, world) matches Err(StartupError::UnknownQuant(n)) && n == name) <==> {
            &&& config_is_had(options, world)
            &&& name == options.quant
            &&& name != "none"@ && name != "int8"@ && name != "awq-int4"@
        },
        (end(options, world) matches Err(StartupError::UnknownBackend(n)) && n == name) <==> {
            &&& config_is_had(options, world)
            &&& options.quant == "none"@ || options.quant == "int8"@ || options.quant == "awq-int4"@
            &&& name == options.backend
            &&& name != "stub"@ && name != "ascend"@
        },
        (end(options, world) matches Err(StartupError::TaskDeviceInvalid)) <==> performs(
            options,
            world,
            Action::ReadTaskDevice,
        ) && (world.task_device matches Some(text) && i32_value(text) is None),
        (end(options, world) matches Err(StartupError::AscendDeviceIdInvalid)) <==> performs(
            options,
            world,
            Action::ReadAscendDeviceId,
        ) && (world.ascend_device_id matches Some(text) && i32_value(text) is None),
        (end(options, world) matches Err(StartupError::NoDevice)) <==> performs(
            options,
            world,
            Action::ReadAscendDeviceId,
        ) && world.ascend_device_id is None,
        (end(options, world) matches Err(StartupError::WeightsRequired)) <==> {
            &&& engine_is_connected(options, world)
            &&& options.weights is None
            &&& options.prompt is Some
        },
        (end(options, world) matches Err(StartupError::EmptyPrompt)) <==> {
            &&& all_is_set(options, world)
            &&& options.weights is Some
            &&& options.prompt is Some
            &&& world.tokens == 0
        },
        (end(options, world) matches Err(StartupError::PortOverflow)) <==> {
            &&& all_is_set(options, world)
            &&& options.prompt is None
            &&& leads(options, world)
            &&& options.port + replica(options, world) > 65535
        },
{
    names_differ();
    startup_ends_as_expected(options, world);
    environment_is_asked_last(options, world);
}

/// A start-up ends well exactly by having done what the process was started
/// for: continued the prompt, worked for the process that leads, or served
/// until the server stopped in order.
pub proof fn good_ends_are_earned(options: Options<Seq<char>>, world: World)
    ensures
        (end(options, world) matches Ok(Finish::Generated)) <==> performs(
            options,
            world,
            Action::Generate { max_new_tokens: options.max_new_tokens },
        ),
        (end(options, world) matches Ok(Finish::WorkerStopped)) <==> performs(
            options,
            world,
            Action::RunWorker,
        ),
        (end(options, world) matches Ok(Finish::Served)) <==> {
            &&& exists|port: u16, backend: Backend| #[trigger]
                performs(options, world, Action::Serve { port, backend })
            &&& world.serve is None
        },
{
    names_differ();
    startup_ends_as_expected(options, world);
    prompt_is_continued(options, world, options.model, options.max_new_tokens);
    let port = (options.port + replica(options, world)) as u16;
    let backend = if options.backend == "stub"@ {
        Backend::Stub
    } else {
        Backend::Ascend
    };
    leader_serves_and_others_work(options, world, port, backend);
    assert forall|port: u16, backend: Backend| #[trigger]
        performs(options, world, Action::Serve { port, backend }) implies all_is_set(options, world)
        && options.prompt is None && leads(options, world) && port == options.port + replica(
        options,
        world,
    ) by {
        leader_serves_and_others_work(options, world, port, backend);
    }
}

/// An answer of another kind than the action that is due can give leaves that
/// action due.
pub proof fn stray_answers_change_nothing(
    options: Options<Seq<char>>,
    phase: Phase,
    event: Event<Seq<char>>,
)
    requires
        match phase {
            Phase::ProbeConfig | Phase::ReadRank => !(event is Flag),
            Phase::Join => !(event is Joined),
            Phase::ReadTaskDevice(_) | Phase::ReadAscendDeviceId(_) => !(event is Variable),
            Phase::EncodePrompt(_) => !(event is Tokens),
            Phase::UsePreset(_) | Phase::BuildModel(_) | Phase::CreateEngine(_) | Phase::Generate(
                _,
            ) | Phase::RunWorker(_) => !(event is Completed),
            _ => !(event is Completed || event is Failed),
        },
    ensures
        on_event(options, phase, event) == Step::<Seq<char>>::Continue(phase),
{
}

/// The command line is taken as it is given: numbers as they are, texts by
/// their characters.
pub proof fn options_are_taken_as_given(options: Options<String>)
    ensures
        options.config matches Some(text) ==> options@.config == Some(text@),
        options.config is None ==> options@.config is None,
        options@.model == options.model@,
        options@.port == options.port,
        options@.tp == options.tp,
        options@.pp == options.pp,
        options@.tp_rank == options.tp_rank,
        options@.pp_rank == options.pp_rank,
        options@.dp == options.dp,
        options@.quant == options.quant@,
        options@.backend == options.backend@,
        options@.device_id == options.device_id,
        options.weights matches Some(text) ==> options@.weights == Some(text@),
        options.weights is None ==> options@.weights is None,
        options.prompt matches Some(text) ==> options@.prompt == Some(text@),
        options.prompt is None ==> options@.prompt is None,
        options@.max_new_tokens == options.max_new_tokens,
{
}

/// Actions that look the same are the same, up to the storage of their texts.
pub proof fn actions_look_as_they_are(action: Action<String>)
    ensures
        action matches Action::LoadConfig(s) ==> action@ == Action::LoadConfig(s@),
        action matches Action::ProbeConfig(s) ==> action@ == Action::ProbeConfig(s@),
        action matches Action::LoadConfigIn(s) ==> action@ == Action::LoadConfigIn(s@),
        action matches Action::UsePreset(v) ==> action@ == Action::<Seq<char>>::UsePreset(v),
        action is ReadRank ==> action@ is ReadRank,
        action matches Action::Join { tp, pp, dp } ==> action@ == (Action::<Seq<char>>::Join {
            tp,
            pp,
            dp,
        }),
        action is ReadTaskDevice ==> action@ is ReadTaskDevice,
        action is ReadAscendDeviceId ==> action@ is ReadAscendDeviceId,
        action matches Action::OpenDevice(d) ==> action@ == Action::<Seq<char>>::OpenDevice(d),
        action matches Action::BuildModel { sharded, parallel } ==> action@ == (Action::<
            Seq<char>,
        >::BuildModel { sharded, parallel }),
        action matches Action::LoadWeights { dir, sharded, parallel } ==> action@ == (
        Action::LoadWeights { dir: dir@, sharded, parallel }),
        action is UploadWeights ==> action@ is UploadWeights,
        action matches Action::CreateEngine { parallel, quant } ==> action@ == (Action::<
            Seq<char>,
        >::CreateEngine { parallel, quant }),
        action is InitCommunicators ==> action@ is InitCommunicators,
        action matches Action::LoadTokenizer(s) ==> action@ == Action::LoadTokenizer(s@),
        action matches Action::EncodePrompt(s) ==> action@ == Action::EncodePrompt(s@),
        action matches Action::Generate { max_new_tokens } ==> action@ == (Action::<
            Seq<char>,
        >::Generate { max_new_tokens }),
        action is RunWorker ==> action@ is RunWorker,
        action matches Action::Serve { port, backend } ==> action@ == (Action::<Seq<char>>::Serve {
            port,
            backend,
        }),
{
}

/// An answer counts as it is given.
pub proof fn answers_count_as_given(event: Event<String>)
    ensures
        event is Completed <==> event@ is Completed,
        event matches Event::Failed(words) ==> event@ == Event::Failed(words@),
        event matches Event::Flag(flag) ==> event@ == Event::<Seq<char>>::Flag(flag),
        event matches Event::Joined(run) ==> event@ == Event::<Seq<char>>::Joined(run),
        event matches Event::Variable(Some(text)) ==> event@ == Event::Variable(Some(text@)),
        event matches Event::Variable(None) ==> event@ == Event::<Seq<char>>::Variable(None),
        event matches Event::Tokens(count) ==> event@ == Event::<Seq<char>>::Tokens(count),
{
}

/// A step counts as the phase that it goes on to, or the end that it comes to.
pub proof fn steps_count_as_given(step: Step<String>)
    ensures
        step matches Step::Continue(phase) ==> step@ == Step::<Seq<char>>::Continue(phase),
        step matches Step::Stop(Ok(finish)) ==> step@ == Step::<Seq<char>>::Stop(Ok(finish)),
        step matches Step::Stop(Err(error)) ==> step@ == Step::<Seq<char>>::Stop(Err(error@)),
{
}

} // verus!
