//! What holds of a whole start-up, from the command line to its end.

use vstd::prelude::*;

use crate::startup::choices::{
    backend_named, quant_named, variant_named, Backend, ModelVariant,
};
use crate::startup::failure::StartupError;
use crate::startup::options::Options;
use crate::startup::parallel::{
    asks_for_many, last_stage, parallel_of, port_of, primary, Distributed,
};
use crate::startup::plan::{
    action_of, communicates, on_begin, on_config, on_engine, on_event, on_ranks, phase_fits, Action,
    ChosenDevice, Context, DeviceSource, Event, Finish, Phase, Step,
};
use crate::text::i32_value;

verus! {

/// Everything that the process finds in the course of one start-up. Where an
/// action can fail, `None` says that it does not.
pub struct World {
    /// Why the configuration file cannot be read.
    pub config: Option<Seq<char>>,
    /// The weights directory holds a `config.json`.
    pub found: bool,
    /// The variable `RANK` is set.
    pub rank: bool,
    /// The run that the environment describes.
    pub distributed: Option<Distributed>,
    /// The variable `TASK_DEVICE`.
    pub task_device: Option<Seq<char>>,
    /// The variable `ASCEND_DEVICE_ID`.
    pub ascend_device_id: Option<Seq<char>>,
    /// Why the accelerator cannot be opened.
    pub device: Option<Seq<char>>,
    /// Why the weights cannot be read.
    pub weights: Option<Seq<char>>,
    /// Why the weights cannot be moved.
    pub upload: Option<Seq<char>>,
    /// Why the communicators cannot be set up.
    pub communicators: Option<Seq<char>>,
    /// Why the tokenizer cannot be read.
    pub tokenizer: Option<Seq<char>>,
    /// The number of tokens of the prompt.
    pub tokens: usize,
    /// Why the server stops.
    pub serve: Option<Seq<char>>,
}

/// The answer of an action that may fail.
pub open spec fn unless_failed(failure: Option<Seq<char>>) -> Event<Seq<char>> {
    match failure {
        Some(words) => Event::Failed(words),
        None => Event::Completed,
    }
}

/// The answer to an action.
pub open spec fn answer(action: Action<Seq<char>>, world: World) -> Event<Seq<char>> {
    match action {
        Action::LoadConfig(_) => unless_failed(world.config),
        Action::ProbeConfig(_) => Event::Flag(world.found),
        Action::LoadConfigIn(_) => unless_failed(world.config),
        Action::ReadRank => Event::Flag(world.rank),
        Action::Join { .. } => Event::Joined(world.distributed),
        Action::ReadTaskDevice => Event::Variable(world.task_device),
        Action::ReadAscendDeviceId => Event::Variable(world.ascend_device_id),
        Action::OpenDevice(_) => unless_failed(world.device),
        Action::LoadWeights { .. } => unless_failed(world.weights),
        Action::UploadWeights => unless_failed(world.upload),
        Action::InitCommunicators => unless_failed(world.communicators),
        Action::LoadTokenizer(_) => unless_failed(world.tokenizer),
        Action::EncodePrompt(_) => Event::Tokens(world.tokens),
        Action::Serve { .. } => unless_failed(world.serve),
        _ => Event::Completed,
    }
}

/// The most actions that can still follow.
pub open spec fn actions_left(step: Step<Seq<char>>) -> nat {
    match step {
        Step::Stop(_) => 0,
        Step::Continue(phase) => match phase {
            Phase::ProbeConfig => 16,
            Phase::LoadConfig => 15,
            Phase::LoadFoundConfig => 15,
            Phase::UsePreset(_) => 15,
            Phase::ReadRank => 14,
            Phase::Join => 13,
            Phase::ReadTaskDevice(_) => 12,
            Phase::ReadAscendDeviceId(_) => 11,
            Phase::OpenDevice(_, _) => 10,
            Phase::BuildModel(_) => 9,
            Phase::LoadWeights(_) => 8,
            Phase::UploadWeights(_) => 7,
            Phase::CreateEngine(_) => 6,
            Phase::InitCommunicators(_) => 5,
            Phase::LoadTokenizer(_) => 4,
            Phase::EncodePrompt(_) => 3,
            Phase::Generate(_) => 2,
            Phase::RunWorker(_) => 1,
            Phase::Serve(_, _) => 1,
        },
    }
}

/// What follows a phase.
pub open spec fn after(options: Options<Seq<char>>, phase: Phase, world: World) -> Step<Seq<char>> {
    on_event(options, phase, answer(action_of(options, phase), world))
}

/// The actions from a step on, in order.
pub open spec fn actions_from(
    options: Options<Seq<char>>,
    step: Step<Seq<char>>,
    world: World,
) -> Seq<Action<Seq<char>>>
    decreases actions_left(step),
{
    match step {
        Step::Stop(_) => seq![],
        Step::Continue(phase) => seq![action_of(options, phase)] + actions_from(
            options,
            after(options, phase, world),
            world,
        ),
    }
}

/// The end that a step leads to.
pub open spec fn end_from(
    options: Options<Seq<char>>,
    step: Step<Seq<char>>,
    world: World,
) -> Result<Finish, StartupError<Seq<char>>>
    decreases actions_left(step),
{
    match step {
        Step::Stop(end) => end,
        Step::Continue(phase) => end_from(options, after(options, phase, world), world),
    }
}

/// The actions of a start-up, in order.
pub open spec fn actions(options: Options<Seq<char>>, world: World) -> Seq<Action<Seq<char>>> {
    actions_from(options, on_begin(options), world)
}

/// The end of a start-up.
pub open spec fn end(options: Options<Seq<char>>, world: World) -> Result<
    Finish,
    StartupError<Seq<char>>,
> {
    end_from(options, on_begin(options), world)
}

/// Where the model's configuration comes from.
pub enum ConfigSource {
    /// The file on the command line.
    File(Seq<char>),
    /// `config.json` in the weights directory.
    Found(Seq<char>),
    /// The variant on the command line.
    Preset(ModelVariant),
    /// Nowhere: the variant is unknown.
    Nowhere,
}

/// The source of the configuration.
pub open spec fn config_source(options: Options<Seq<char>>, world: World) -> ConfigSource {
    match (options.config, options.weights) {
        (Some(path), _) => ConfigSource::File(path),
        (None, Some(dir)) if world.found => ConfigSource::Found(dir),
        _ => match variant_named(options.model) {
            Some(variant) => ConfigSource::Preset(variant),
            None => ConfigSource::Nowhere,
        },
    }
}

/// The distributed run that this process belongs to.
pub open spec fn joined(options: Options<Seq<char>>, world: World) -> Option<Distributed> {
    if asks_for_many(options) && world.rank {
        world.distributed
    } else {
        None
    }
}

/// The accelerator to use: from the command line, else from the launcher, else
/// from `TASK_DEVICE`, else from `ASCEND_DEVICE_ID`.
pub open spec fn device_choice(options: Options<Seq<char>>, world: World) -> Result<
    ChosenDevice,
    StartupError<Seq<char>>,
> {
    match (options.device_id, joined(options, world)) {
        (Some(id), _) => Ok(ChosenDevice { id, source: DeviceSource::CommandLine }),
        (None, Some(d)) => Ok(ChosenDevice { id: d.device_id, source: DeviceSource::Launcher }),
        (None, None) => match (world.task_device, world.ascend_device_id) {
            (Some(text), _) => match i32_value(text) {
                Some(id) => Ok(ChosenDevice { id, source: DeviceSource::TaskDevice }),
                None => Err(StartupError::TaskDeviceInvalid),
            },
            (None, Some(text)) => match i32_value(text) {
                Some(id) => Ok(ChosenDevice { id, source: DeviceSource::AscendDeviceId }),
                None => Err(StartupError::AscendDeviceIdInvalid),
            },
            (None, None) => Err(StartupError::NoDevice),
        },
    }
}

/// The context that the start-up settles on.
pub open spec fn context_of(options: Options<Seq<char>>, world: World) -> Context {
    let distributed = joined(options, world);
    Context {
        distributed,
        parallel: parallel_of(options, distributed),
        quant: quant_named(options.quant)->0,
        backend: backend_named(options.backend)->0,
    }
}

/// The end of a start-up once the engine is complete.
pub open spec fn serving_end(options: Options<Seq<char>>, world: World) -> Result<
    Finish,
    StartupError<Seq<char>>,
> {
    let distributed = joined(options, world);
    if options.weights is Some && world.tokenizer is Some {
        Err(StartupError::Tokenizer(world.tokenizer->0))
    } else if options.prompt is Some {
        if options.weights is None {
            Err(StartupError::WeightsRequired)
        } else if world.tokens == 0 {
            Err(StartupError::EmptyPrompt)
        } else {
            Ok(Finish::Generated)
        }
    } else if !primary(options, distributed) {
        Ok(Finish::WorkerStopped)
    } else if port_of(options, distributed) > u16::MAX {
        Err(StartupError::PortOverflow)
    } else {
        match world.serve {
            Some(words) => Err(StartupError::Serve(words)),
            None => Ok(Finish::Served),
        }
    }
}

/// The end of a start-up once the backend is open.
pub open spec fn engine_end(options: Options<Seq<char>>, world: World) -> Result<
    Finish,
    StartupError<Seq<char>>,
> {
    let context = context_of(options, world);
    if options.weights is Some && world.weights is Some {
        Err(StartupError::Weights(world.weights->0))
    } else if options.weights is Some && context.backend == Backend::Ascend && world.upload is Some {
        Err(StartupError::Upload(world.upload->0))
    } else if communicates(context) && world.communicators is Some {
        Err(StartupError::Communicators(world.communicators->0))
    } else {
        serving_end(options, world)
    }
}

/// The end of a start-up once the configuration is known.
pub open spec fn configured_end(options: Options<Seq<char>>, world: World) -> Result<
    Finish,
    StartupError<Seq<char>>,
> {
    if quant_named(options.quant) is None {
        Err(StartupError::UnknownQuant(options.quant))
    } else if backend_named(options.backend) is None {
        Err(StartupError::UnknownBackend(options.backend))
    } else if backend_named(options.backend) == Some(Backend::Stub) {
        engine_end(options, world)
    } else {
        match (device_choice(options, world), world.device) {
            (Err(error), _) => Err(error),
            (Ok(_), Some(words)) => Err(StartupError::Device(words)),
            (Ok(_), None) => engine_end(options, world),
        }
    }
}

/// The end of a start-up, in one piece: the first thing that goes wrong, in
/// this order, or else what the process was started for.
pub open spec fn expected_end(options: Options<Seq<char>>, world: World) -> Result<
    Finish,
    StartupError<Seq<char>>,
> {
    let source = config_source(options, world);
    if source is Nowhere {
        Err(StartupError::UnknownModel(options.model))
    } else if !(source is Preset) && world.config is Some {
        Err(StartupError::Config(world.config->0))
    } else {
        configured_end(options, world)
    }
}

proof fn serving_lemma(options: Options<Seq<char>>, world: World)
    requires
        quant_named(options.quant) is Some,
        backend_named(options.backend) is Some,
    ensures
        end_from(
            options,
            Step::Continue(Phase::BuildModel(context_of(options, world))),
            world,
        ) == engine_end(options, world),
{
    reveal_with_fuel(end_from, 9);
}

proof fn device_lemma(options: Options<Seq<char>>, world: World)
    ensures
        end_from(options, on_ranks(options, joined(options, world)), world) == configured_end(
            options,
            world,
        ),
{
    if quant_named(options.quant) is Some && backend_named(options.backend) is Some {
        serving_lemma(options, world);
        reveal_with_fuel(end_from, 4);
    }
}

proof fn config_lemma(options: Options<Seq<char>>, world: World)
    ensures
        end_from(options, on_config(options), world) == configured_end(options, world),
{
    device_lemma(options, world);
    reveal_with_fuel(end_from, 3);
}

/// Every start-up ends as [`expected_end`] says.
pub proof fn startup_ends_as_expected(options: Options<Seq<char>>, world: World)
    ensures
        end(options, world) == expected_end(options, world),
{
    config_lemma(options, world);
    reveal_with_fuel(end_from, 3);
}

/// An action, if there is one.
pub open spec fn only_if(due: bool, action: Action<Seq<char>>) -> Seq<Action<Seq<char>>> {
    if due {
        seq![action]
    } else {
        seq![]
    }
}

/// The actions from the complete engine on.
pub open spec fn serving_actions(options: Options<Seq<char>>, world: World) -> Seq<
    Action<Seq<char>>,
> {
    let distributed = joined(options, world);
    let backend = context_of(options, world).backend;
    let port = port_of(options, distributed);
    let tokenizer = only_if(
        options.weights is Some,
        Action::LoadTokenizer(options.weights->0),
    );
    if options.weights is Some && world.tokenizer is Some {
        tokenizer
    } else if options.prompt is Some {
        tokenizer + only_if(options.weights is Some, Action::EncodePrompt(options.prompt->0))
            + only_if(
            options.weights is Some && world.tokens > 0,
            Action::Generate { max_new_tokens: options.max_new_tokens },
        )
    } else if !primary(options, distributed) {
        tokenizer + seq![Action::RunWorker]
    } else if port > u16::MAX {
        tokenizer
    } else {
        tokenizer + seq![Action::Serve { port: port as u16, backend }]
    }
}

/// The actions from the open backend on.
pub open spec fn engine_actions(options: Options<Seq<char>>, world: World) -> Seq<
    Action<Seq<char>>,
> {
    let context = context_of(options, world);
    let parallel = context.parallel;
    let uploads = options.weights is Some && context.backend == Backend::Ascend;
    let model = seq![
        Action::BuildModel {
            sharded: parallel.splits_tensors() || parallel.splits_layers(),
            parallel,
        },
    ] + only_if(
        options.weights is Some,
        Action::LoadWeights { dir: options.weights->0, sharded: parallel.splits_tensors(), parallel },
    );
    let engine = only_if(uploads, Action::UploadWeights) + seq![
        Action::CreateEngine { parallel, quant: context.quant },
    ] + only_if(communicates(context), Action::InitCommunicators);
    if options.weights is Some && world.weights is Some {
        model
    } else if uploads && world.upload is Some {
        model + seq![Action::UploadWeights]
    } else if communicates(context) && world.communicators is Some {
        model + engine
    } else {
        model + engine + serving_actions(options, world)
    }
}

/// The actions that find and open the accelerator.
pub open spec fn device_actions(options: Options<Seq<char>>, world: World) -> Seq<
    Action<Seq<char>>,
> {
    let asks = options.device_id is None && joined(options, world) is None;
    only_if(asks, Action::ReadTaskDevice) + only_if(
        asks && world.task_device is None,
        Action::ReadAscendDeviceId,
    ) + only_if(
        device_choice(options, world) is Ok,
        Action::OpenDevice(device_choice(options, world)->Ok_0),
    )
}

/// The actions from the known ranks on.
pub open spec fn ranked_actions(options: Options<Seq<char>>, world: World) -> Seq<
    Action<Seq<char>>,
> {
    match (quant_named(options.quant), backend_named(options.backend)) {
        (Some(_), Some(Backend::Stub)) => engine_actions(options, world),
        (Some(_), Some(Backend::Ascend)) => if device_choice(options, world) is Ok
            && world.device is None {
            device_actions(options, world) + engine_actions(options, world)
        } else {
            device_actions(options, world)
        },
        _ => seq![],
    }
}

/// The actions from the known configuration on.
pub open spec fn configured_actions(options: Options<Seq<char>>, world: World) -> Seq<
    Action<Seq<char>>,
> {
    only_if(asks_for_many(options), Action::ReadRank) + only_if(
        asks_for_many(options) && world.rank,
        Action::Join { tp: options.tp, pp: options.pp, dp: options.dp },
    ) + ranked_actions(options, world)
}

/// The actions of a start-up, in one piece: find the configuration, the ranks
/// and the accelerator, build the model, read the weights, create the engine,
/// connect it, read the tokenizer, and do what the process was started for;
/// each as far as what came before allows.
pub open spec fn expected_actions(options: Options<Seq<char>>, world: World) -> Seq<
    Action<Seq<char>>,
> {
    let source = config_source(options, world);
    let probe = only_if(
        options.config is None && options.weights is Some,
        Action::ProbeConfig(options.weights->0),
    );
    let config = match source {
        ConfigSource::File(path) => seq![Action::LoadConfig(path)],
        ConfigSource::Found(dir) => seq![Action::LoadConfigIn(dir)],
        ConfigSource::Preset(variant) => seq![Action::UsePreset(variant)],
        ConfigSource::Nowhere => seq![],
    };
    if source is Nowhere || (!(source is Preset) && world.config is Some) {
        probe + config
    } else {
        probe + config + configured_actions(options, world)
    }
}

proof fn serving_actions_lemma(options: Options<Seq<char>>, world: World)
    ensures
        actions_from(options, on_engine(options, context_of(options, world)), world)
            == serving_actions(options, world),
{
    reveal_with_fuel(actions_from, 4);
    assert(actions_from(options, on_engine(options, context_of(options, world)), world)
        =~= serving_actions(options, world));
}

proof fn engine_actions_lemma(options: Options<Seq<char>>, world: World)
    ensures
        actions_from(
            options,
            Step::Continue(Phase::BuildModel(context_of(options, world))),
            world,
        ) == engine_actions(options, world),
{
    serving_actions_lemma(options, world);
    reveal_with_fuel(actions_from, 6);
    assert(actions_from(
        options,
        Step::Continue(Phase::BuildModel(context_of(options, world))),
        world,
    ) =~= engine_actions(options, world));
}

proof fn ranked_actions_lemma(options: Options<Seq<char>>, world: World)
    ensures
        actions_from(options, on_ranks(options, joined(options, world)), world) == ranked_actions(
            options,
            world,
        ),
{
    engine_actions_lemma(options, world);
    reveal_with_fuel(actions_from, 4);
    assert(actions_from(options, on_ranks(options, joined(options, world)), world)
        =~= ranked_actions(options, world));
}

proof fn configured_actions_lemma(options: Options<Seq<char>>, world: World)
    ensures
        actions_from(options, on_config(options), world) == configured_actions(options, world),
{
    ranked_actions_lemma(options, world);
    reveal_with_fuel(actions_from, 3);
    assert(actions_from(options, on_config(options), world) =~= configured_actions(
        options,
        world,
    ));
}

/// Every start-up performs the actions of [`expected_actions`], in that order.
pub proof fn startup_acts_as_expected(options: Options<Seq<char>>, world: World)
    ensures
        actions(options, world) == expected_actions(options, world),
{
    configured_actions_lemma(options, world);
    reveal_with_fuel(actions_from, 3);
    assert(actions(options, world) =~= expected_actions(options, world));
}

/// `phase` can come up under `options` in `world`.
pub open spec fn phase_agrees(options: Options<Seq<char>>, world: World, phase: Phase) -> bool {
    let settled = context_of(options, world);
    &&& phase_fits(options, phase)
    &&& match phase {
        Phase::LoadConfig => config_source(options, world) is File,
        Phase::ProbeConfig => true,
        Phase::LoadFoundConfig => config_source(options, world) is Found,
        Phase::UsePreset(variant) => config_source(options, world) == ConfigSource::Preset(variant),
        Phase::ReadRank => true,
        Phase::Join => world.rank,
        Phase::ReadTaskDevice(context) => context == settled,
        Phase::ReadAscendDeviceId(context) => context == settled && world.task_device is None,
        Phase::OpenDevice(context, device) => context == settled && device_choice(options, world)
            == Ok::<ChosenDevice, StartupError<Seq<char>>>(device),
        Phase::BuildModel(context) => context == settled,
        Phase::LoadWeights(context) => context == settled,
        Phase::UploadWeights(context) => context == settled,
        Phase::CreateEngine(context) => context == settled,
        Phase::InitCommunicators(context) => context == settled,
        Phase::LoadTokenizer(context) => context == settled,
        Phase::EncodePrompt(context) => context == settled,
        Phase::Generate(context) => context == settled && world.tokens > 0,
        Phase::RunWorker(context) => context == settled,
        Phase::Serve(context, _) => context == settled,
    }
}

/// A phase that is the cause of an action.
pub open spec fn causes(
    options: Options<Seq<char>>,
    world: World,
    phase: Phase,
    action: Action<Seq<char>>,
) -> bool {
    phase_agrees(options, world, phase) && action_of(options, phase) == action
}

proof fn ranks_agree(options: Options<Seq<char>>, world: World)
    ensures
        on_ranks(options, joined(options, world)) matches Step::Continue(next) ==> phase_agrees(
            options,
            world,
            next,
        ),
{
}

proof fn agreement_is_kept(options: Options<Seq<char>>, world: World, phase: Phase)
    requires
        phase_agrees(options, world, phase),
    ensures
        after(options, phase, world) matches Step::Continue(next) ==> phase_agrees(
            options,
            world,
            next,
        ),
{
    ranks_agree(options, world);
    match phase {
        Phase::LoadConfig => {},
        Phase::ProbeConfig => {},
        Phase::LoadFoundConfig => {},
        Phase::UsePreset(_) => {},
        Phase::ReadRank => {},
        Phase::Join => {},
        Phase::ReadTaskDevice(_) => {},
        Phase::ReadAscendDeviceId(_) => {},
        Phase::OpenDevice(_, _) => {},
        Phase::BuildModel(_) => {},
        Phase::LoadWeights(_) => {},
        Phase::UploadWeights(_) => {},
        Phase::CreateEngine(_) => {},
        Phase::InitCommunicators(_) => {},
        Phase::LoadTokenizer(_) => {},
        _ => {},
    }
}

/// The answer to an action takes the start-up forward.
pub proof fn actions_run_out(options: Options<Seq<char>>, phase: Phase, world: World)
    ensures
        actions_left(after(options, phase, world)) < actions_left(
            Step::<Seq<char>>::Continue(phase),
        ),
{
}

proof fn actions_have_causes(
    options: Options<Seq<char>>,
    first: Phase,
    world: World,
    i: int,
) -> (phase: Phase)
    requires
        phase_agrees(options, world, first),
        0 <= i < actions_from(options, Step::Continue(first), world).len(),
    ensures
        causes(options, world, phase, actions_from(options, Step::Continue(first), world)[i]),
    decreases actions_left(Step::<Seq<char>>::Continue(first)),
{
    let rest = after(options, first, world);
    assert(actions_from(options, Step::Continue(first), world) == seq![action_of(options, first)]
        + actions_from(options, rest, world));
    if i == 0 {
        first
    } else {
        agreement_is_kept(options, world, first);
        actions_run_out(options, first, world);
        assert(actions_from(options, Step::Continue(first), world)[i] == actions_from(
            options,
            rest,
            world,
        )[i - 1]);
        match rest {
            Step::Continue(next) => actions_have_causes(options, next, world, i - 1),
            Step::Stop(_) => first,
        }
    }
}

/// Some phase that can come up is the cause of `action`.
pub open spec fn has_cause(
    options: Options<Seq<char>>,
    world: World,
    action: Action<Seq<char>>,
) -> bool {
    exists|phase: Phase| causes(options, world, phase, action)
}

/// Every action of a start-up comes from a phase that can come up.
pub proof fn every_action_has_a_cause(options: Options<Seq<char>>, world: World)
    ensures
        forall|i: int|
            0 <= i < actions(options, world).len() ==> has_cause(
                options,
                world,
                #[trigger] actions(options, world)[i],
            ),
{
    assert forall|i: int| 0 <= i < actions(options, world).len() implies has_cause(
        options,
        world,
        #[trigger] actions(options, world)[i],
    ) by {
        let phase = actions_have_causes(options, on_begin(options)->Continue_0, world, i);
        assert(causes(options, world, phase, actions(options, world)[i]));
    }
}

/// A configuration file on the command line comes before one in the weights
/// directory, and that before the model variant: only the first of them that
/// there is gets read.
pub proof fn config_precedence(options: Options<Seq<char>>, world: World)
    ensures
        forall|i: int|
            0 <= i < actions(options, world).len() ==> match #[trigger] actions(
                options,
                world,
            )[i] {
                Action::LoadConfig(path) => config_source(options, world) == ConfigSource::File(
                    path,
                ),
                Action::LoadConfigIn(dir) => config_source(options, world) == ConfigSource::Found(
                    dir,
                ),
                Action::UsePreset(variant) => config_source(options, world)
                    == ConfigSource::Preset(variant),
                _ => true,
            },
{
    every_action_has_a_cause(options, world);
}

/// An accelerator is opened only with the Ascend backend, and then the one that
/// the command line names, else the launcher, else `TASK_DEVICE`, else
/// `ASCEND_DEVICE_ID`. A variable is read only where nothing before it names
/// one.
pub proof fn device_precedence(options: Options<Seq<char>>, world: World)
    ensures
        forall|i: int|
            0 <= i < actions(options, world).len() ==> match #[trigger] actions(
                options,
                world,
            )[i] {
                Action::OpenDevice(device) => backend_named(options.backend) == Some(
                    Backend::Ascend,
                ) && device_choice(options, world) == Ok::<ChosenDevice, StartupError<Seq<char>>>(
                    device,
                ),
                Action::ReadTaskDevice => options.device_id is None && joined(options, world)
                    is None,
                Action::ReadAscendDeviceId => options.device_id is None && joined(options, world)
                    is None && world.task_device is None,
                _ => true,
            },
{
    every_action_has_a_cause(options, world);
}

/// An action that works on an accelerator or between accelerators.
pub open spec fn touches_accelerator(action: Action<Seq<char>>) -> bool {
    action is OpenDevice || action is UploadWeights || action is InitCommunicators
}

/// The stub backend never works on an accelerator.
pub proof fn stub_leaves_the_accelerator_alone(options: Options<Seq<char>>, world: World)
    requires
        options.backend == "stub"@,
    ensures
        forall|i: int|
            0 <= i < actions(options, world).len() ==> !touches_accelerator(
                #[trigger] actions(options, world)[i],
            ),
{
    every_action_has_a_cause(options, world);
}

/// Communicators are set up only for the processes of a distributed run of
/// more than one, on accelerators.
pub proof fn communicators_need_company(options: Options<Seq<char>>, world: World)
    ensures
        forall|i: int|
            0 <= i < actions(options, world).len() && (#[trigger] actions(options, world)[i])
                is InitCommunicators ==> {
                &&& joined(options, world) matches Some(d) && !d.single
                &&& backend_named(options.backend) == Some(Backend::Ascend)
            },
{
    every_action_has_a_cause(options, world);
}

/// A quantization or backend of unknown name is refused before anything is
/// opened, built or read from the weights.
pub proof fn unknown_names_build_nothing(options: Options<Seq<char>>, world: World)
    requires
        quant_named(options.quant) is None || backend_named(options.backend) is None,
    ensures
        end(options, world) is Err,
        forall|i: int|
            0 <= i < actions(options, world).len() ==> match #[trigger] actions(
                options,
                world,
            )[i] {
                Action::LoadConfig(_) => true,
                Action::ProbeConfig(_) => true,
                Action::LoadConfigIn(_) => true,
                Action::UsePreset(_) => true,
                Action::ReadRank => true,
                Action::Join { .. } => true,
                _ => false,
            },
{
    every_action_has_a_cause(options, world);
    startup_ends_as_expected(options, world);
}

/// A prompt replaces serving: with one, the process neither serves nor works
/// for one that does; without one, nothing is generated. Generation takes the
/// limit of the command line, and only where the prompt has tokens.
pub proof fn prompt_replaces_serving(options: Options<Seq<char>>, world: World)
    ensures
        forall|i: int|
            0 <= i < actions(options, world).len() ==> match #[trigger] actions(
                options,
                world,
            )[i] {
                Action::Serve { .. } => options.prompt is None,
                Action::RunWorker => options.prompt is None,
                Action::EncodePrompt(prompt) => options.prompt == Some(prompt),
                Action::Generate { max_new_tokens } => options.prompt is Some && world.tokens > 0
                    && max_new_tokens == options.max_new_tokens,
                _ => true,
            },
{
    every_action_has_a_cause(options, world);
}

/// Only the primary process of a replica serves, on the replica's own port;
/// only another one works for it.
pub proof fn only_the_primary_serves(options: Options<Seq<char>>, world: World)
    ensures
        forall|i: int|
            0 <= i < actions(options, world).len() ==> match #[trigger] actions(
                options,
                world,
            )[i] {
                Action::Serve { port, backend } => {
                    &&& primary(options, joined(options, world))
                    &&& port == port_of(options, joined(options, world))
                    &&& backend_named(options.backend) == Some(backend)
                },
                Action::RunWorker => !primary(options, joined(options, world)),
                _ => true,
            },
{
    every_action_has_a_cause(options, world);
}

/// Two processes of one distributed run that serve on the same port are the
/// same process: they agree in every rank.
pub proof fn no_two_processes_share_a_port(
    options: Options<Seq<char>>,
    one: World,
    other: World,
    i: int,
    j: int,
)
    requires
        joined(options, one) is Some,
        joined(options, other) is Some,
        0 <= i < actions(options, one).len(),
        0 <= j < actions(options, other).len(),
        actions(options, one)[i] is Serve,
        actions(options, other)[j] is Serve,
        actions(options, one)[i]->Serve_port == actions(options, other)[j]->Serve_port,
    ensures
        ({
            let a = joined(options, one)->0;
            let b = joined(options, other)->0;
            a.tp_rank == b.tp_rank && a.pp_rank == b.pp_rank && a.dp_rank == b.dp_rank
        }),
{
    only_the_primary_serves(options, one);
    only_the_primary_serves(options, other);
}

/// These options ask for the same but for the port, and that port is of no use.
spec fn port_is_idle(
    options: Options<Seq<char>>,
    other: Options<Seq<char>>,
    world: World,
) -> bool {
    &&& other == Options { port: other.port, ..options }
    &&& options.prompt is Some || !primary(options, joined(options, world))
}

proof fn idle_port_changes_no_end(
    options: Options<Seq<char>>,
    other: Options<Seq<char>>,
    world: World,
)
    requires
        port_is_idle(options, other, world),
    ensures
        expected_end(other, world) == expected_end(options, world),
        !(expected_end(options, world) matches Err(error) && error is PortOverflow),
{
    assert(context_of(other, world) == context_of(options, world));
    assert(device_choice(other, world) == device_choice(options, world));
    assert(serving_end(other, world) == serving_end(options, world));
    assert(engine_end(other, world) == engine_end(options, world));
}

proof fn idle_port_changes_no_action(
    options: Options<Seq<char>>,
    other: Options<Seq<char>>,
    world: World,
)
    requires
        port_is_idle(options, other, world),
    ensures
        expected_actions(other, world) == expected_actions(options, world),
{
    assert(context_of(other, world) == context_of(options, world));
    assert(device_choice(other, world) == device_choice(options, world));
    assert(serving_actions(other, world) == serving_actions(options, world));
    assert(engine_actions(other, world) == engine_actions(options, world));
    assert(device_actions(other, world) == device_actions(options, world));
    assert(ranked_actions(other, world) == ranked_actions(options, world));
    assert(configured_actions(other, world) == configured_actions(options, world));
}

/// The port matters only to a process that serves: one that answers a prompt, or
/// works for another, acts and ends alike whatever the port, also where its
/// replica's port does not exist.
pub proof fn only_serving_needs_a_port(options: Options<Seq<char>>, port: u16, world: World)
    requires
        options.prompt is Some || !primary(options, joined(options, world)),
    ensures
        actions((Options { port, ..options }), world) == actions(options, world),
        end((Options { port, ..options }), world) == end(options, world),
        !(end(options, world) matches Err(error) && error is PortOverflow),
{
    let other = Options { port, ..options };
    startup_acts_as_expected(options, world);
    startup_acts_as_expected(other, world);
    idle_port_changes_no_action(options, other, world);
    startup_ends_as_expected(options, world);
    startup_ends_as_expected(other, world);
    idle_port_changes_no_end(options, other, world);
}

/// The model is built in part wherever tensors or layers are split, the
/// weights are read in part only where tensors are; both from the place of
/// this process.
pub proof fn shards_follow_the_ranks(options: Options<Seq<char>>, world: World)
    ensures
        forall|i: int|
            0 <= i < actions(options, world).len() ==> match #[trigger] actions(
                options,
                world,
            )[i] {
                Action::BuildModel { sharded, parallel } => {
                    &&& parallel == parallel_of(options, joined(options, world))
                    &&& sharded == (parallel.tp_size > 1 || parallel.pp_size > 1)
                },
                Action::LoadWeights { dir, sharded, parallel } => {
                    &&& options.weights == Some(dir)
                    &&& parallel == parallel_of(options, joined(options, world))
                    &&& sharded == (parallel.tp_size > 1)
                },
                Action::CreateEngine { parallel, quant } => {
                    &&& parallel == parallel_of(options, joined(options, world))
                    &&& quant_named(options.quant) == Some(quant)
                },
                _ => true,
            },
{
    every_action_has_a_cause(options, world);
}

/// Where the launcher's place of this process is that of its ranks, the part of
/// the model that this process holds and its part in serving go by the same
/// ranks: those with which model, weights and engine are made decide whether it
/// serves, and on which port.
pub proof fn shards_and_serving_agree(options: Options<Seq<char>>, world: World)
    requires
        joined(options, world) matches Some(d) ==> d.coherent(),
    ensures
        forall|i: int|
            0 <= i < actions(options, world).len() ==> {
                let place = match #[trigger] actions(options, world)[i] {
                    Action::BuildModel { parallel, .. } => Some(parallel),
                    Action::LoadWeights { parallel, .. } => Some(parallel),
                    Action::CreateEngine { parallel, .. } => Some(parallel),
                    _ => None,
                };
                place matches Some(p) ==> {
                    &&& primary(options, joined(options, world)) <==> p.tp_rank == 0 && p.pp_rank
                        == last_stage(options.pp)
                    &&& port_of(options, joined(options, world)) == options.port + p.dp_rank
                }
            },
{
    shards_follow_the_ranks(options, world);
}

/// Nothing but the weights can keep this process from serving: model,
/// quantization and backend are known, no other action fails, no prompt is
/// given, and the process is the one that serves, on a port that exists.
pub open spec fn can_serve(options: Options<Seq<char>>, world: World) -> bool {
    let distributed = joined(options, world);
    let source = config_source(options, world);
    &&& source !is Nowhere
    &&& source !is Preset ==> world.config is None
    &&& quant_named(options.quant) is Some
    &&& backend_named(options.backend) is Some
    &&& backend_named(options.backend) == Some(Backend::Ascend) ==> device_choice(options, world)
        is Ok && world.device is None
    &&& communicates(context_of(options, world)) ==> world.communicators is None
    &&& options.prompt is None
    &&& primary(options, distributed)
    &&& port_of(options, distributed) <= u16::MAX
    &&& world.serve is None
}

/// Without a weights directory nothing is read from one, and the server runs
/// all the same, with uninitialized weights.
pub proof fn server_runs_without_weights(options: Options<Seq<char>>, world: World)
    requires
        options.weights is None,
    ensures
        forall|i: int|
            0 <= i < actions(options, world).len() ==> {
                let action = #[trigger] actions(options, world)[i];
                !(action is LoadWeights || action is UploadWeights || action is LoadTokenizer
                    || action is ProbeConfig || action is LoadConfigIn)
            },
        can_serve(options, world) ==> end(options, world) == Ok::<Finish, StartupError<Seq<char>>>(
            Finish::Served,
        ),
{
    every_action_has_a_cause(options, world);
    startup_ends_as_expected(options, world);
}

proof fn few_actions_from(options: Options<Seq<char>>, step: Step<Seq<char>>, world: World)
    ensures
        actions_from(options, step, world).len() <= actions_left(step),
    decreases actions_left(step),
{
    if step is Continue {
        few_actions_from(options, after(options, step->Continue_0, world), world);
    }
}

/// Every start-up comes to its end within 16 actions.
pub proof fn startup_is_short(options: Options<Seq<char>>, world: World)
    ensures
        actions(options, world).len() <= 16,
{
    few_actions_from(options, on_begin(options), world);
}

} // verus!
