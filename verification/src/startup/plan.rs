//! The start-up, action by action.
//!
//! [`Options::begin`] gives the first phase. [`Options::action`] is the action
//! that a phase stands for, and [`Options::advance`] takes its answer to the
//! next phase or to the end.

use vstd::prelude::*;

use crate::startup::choices::{
    backend_named, parse_backend, parse_quant, parse_variant, quant_named, variant_named, Backend,
    ModelVariant, QuantConfig,
};
use crate::startup::failure::StartupError;
use crate::startup::options::{optional_text, Options};
use crate::startup::parallel::{
    asks_for_many, is_primary, parallel_config, parallel_of, port_of, primary, serve_port,
    wants_many, Distributed, ParallelConfig,
};
use crate::text::{i32_value, parse_i32};

verus! {

/// What is settled once the configuration is read and before the backend is
/// opened.
#[derive(Clone, Copy, Debug, PartialEq, Eq)]
pub struct Context {
    /// What the launcher told this process, if there is one.
    pub distributed: Option<Distributed>,
    /// The place of this process among the others.
    pub parallel: ParallelConfig,
    /// How the weights are quantized.
    pub quant: QuantConfig,
    /// What runs the operators.
    pub backend: Backend,
}

/// What names an accelerator.
#[derive(Clone, Copy, Debug, PartialEq, Eq, Structural)]
pub enum DeviceSource {
    /// The command line.
    CommandLine,
    /// The launcher of the distributed run.
    Launcher,
    /// The variable `TASK_DEVICE`.
    TaskDevice,
    /// The variable `ASCEND_DEVICE_ID`.
    AscendDeviceId,
}

/// An accelerator, and what names it.
#[derive(Clone, Copy, Debug, PartialEq, Eq, Structural)]
pub struct ChosenDevice {
    /// The accelerator.
    pub id: i32,
    /// What names it.
    pub source: DeviceSource,
}

/// Which action is due.
#[derive(Clone, Copy, Debug, PartialEq, Eq)]
pub enum Phase {
    LoadConfig,
    ProbeConfig,
    LoadFoundConfig,
    UsePreset(ModelVariant),
    ReadRank,
    Join,
    ReadTaskDevice(Context),
    ReadAscendDeviceId(Context),
    OpenDevice(Context, ChosenDevice),
    BuildModel(Context),
    LoadWeights(Context),
    UploadWeights(Context),
    CreateEngine(Context),
    InitCommunicators(Context),
    LoadTokenizer(Context),
    EncodePrompt(Context),
    Generate(Context),
    RunWorker(Context),
    Serve(Context, u16),
}

/// An action, with texts of type `S`.
#[derive(Debug)]
pub enum Action<S> {
    /// Read the model's configuration from this file.
    LoadConfig(S),
    /// See whether this directory holds a `config.json`.
    ProbeConfig(S),
    /// Read the model's configuration from `config.json` in this directory.
    LoadConfigIn(S),
    /// Take the configuration of this variant.
    UsePreset(ModelVariant),
    /// See whether the variable `RANK` is set.
    ReadRank,
    /// Join the distributed run that the environment describes.
    Join { tp: usize, pp: usize, dp: usize },
    /// Read the variable `TASK_DEVICE`.
    ReadTaskDevice,
    /// Read the variable `ASCEND_DEVICE_ID`.
    ReadAscendDeviceId,
    /// Open this accelerator.
    OpenDevice(ChosenDevice),
    /// Build the model, or this process's part of it.
    BuildModel { sharded: bool, parallel: ParallelConfig },
    /// Read the weights in this directory, or this process's part of them.
    LoadWeights { dir: S, sharded: bool, parallel: ParallelConfig },
    /// Move the weights to the accelerator.
    UploadWeights,
    /// Create the engine from the model and the accelerator, if one is open.
    CreateEngine { parallel: ParallelConfig, quant: QuantConfig },
    /// Set up the communicators between processes and hand them to the engine.
    InitCommunicators,
    /// Read `tokenizer.json` in this directory.
    LoadTokenizer(S),
    /// Turn this prompt into tokens.
    EncodePrompt(S),
    /// Continue the prompt and print the result.
    Generate { max_new_tokens: usize },
    /// Do what the serving process of this replica broadcasts.
    RunWorker,
    /// Answer requests on this port.
    Serve { port: u16, backend: Backend },
}

/// The answer to an action, with texts of type `S`.
#[derive(Debug)]
pub enum Event<S> {
    /// It is done.
    Completed,
    /// It failed, in these words.
    Failed(S),
    /// It is so, or it is not.
    Flag(bool),
    /// The run that was joined, or `None` where the environment describes none.
    Joined(Option<Distributed>),
    /// The variable, if it is set.
    Variable(Option<S>),
    /// The number of tokens.
    Tokens(usize),
}

/// How a start-up ended well.
#[derive(Clone, Copy, Debug, PartialEq, Eq)]
pub enum Finish {
    /// The prompt was continued.
    Generated,
    /// The worker has no more to do.
    WorkerStopped,
    /// The server stopped.
    Served,
}

/// What an answer leads to.
#[derive(Debug)]
pub enum Step<S> {
    /// The next action is due.
    Continue(Phase),
    /// The end.
    Stop(Result<Finish, StartupError<S>>),
}

impl View for Action<String> {
    type V = Action<Seq<char>>;

    open spec fn view(&self) -> Action<Seq<char>> {
        match *self {
            Action::LoadConfig(path) => Action::LoadConfig(path@),
            Action::ProbeConfig(dir) => Action::ProbeConfig(dir@),
            Action::LoadConfigIn(dir) => Action::LoadConfigIn(dir@),
            Action::UsePreset(variant) => Action::UsePreset(variant),
            Action::ReadRank => Action::ReadRank,
            Action::Join { tp, pp, dp } => Action::Join { tp, pp, dp },
            Action::ReadTaskDevice => Action::ReadTaskDevice,
            Action::ReadAscendDeviceId => Action::ReadAscendDeviceId,
            Action::OpenDevice(device) => Action::OpenDevice(device),
            Action::BuildModel { sharded, parallel } => Action::BuildModel { sharded, parallel },
            Action::LoadWeights { dir, sharded, parallel } => Action::LoadWeights {
                dir: dir@,
                sharded,
                parallel,
            },
            Action::UploadWeights => Action::UploadWeights,
            Action::CreateEngine { parallel, quant } => Action::CreateEngine { parallel, quant },
            Action::InitCommunicators => Action::InitCommunicators,
            Action::LoadTokenizer(dir) => Action::LoadTokenizer(dir@),
            Action::EncodePrompt(prompt) => Action::EncodePrompt(prompt@),
            Action::Generate { max_new_tokens } => Action::Generate { max_new_tokens },
            Action::RunWorker => Action::RunWorker,
            Action::Serve { port, backend } => Action::Serve { port, backend },
        }
    }
}

impl View for Event<String> {
    type V = Event<Seq<char>>;

    open spec fn view(&self) -> Event<Seq<char>> {
        match *self {
            Event::Completed => Event::Completed,
            Event::Failed(words) => Event::Failed(words@),
            Event::Flag(flag) => Event::Flag(flag),
            Event::Joined(distributed) => Event::Joined(distributed),
            Event::Variable(value) => Event::Variable(optional_text(value)),
            Event::Tokens(count) => Event::Tokens(count),
        }
    }
}

impl View for Step<String> {
    type V = Step<Seq<char>>;

    open spec fn view(&self) -> Step<Seq<char>> {
        match *self {
            Step::Continue(phase) => Step::Continue(phase),
            Step::Stop(Ok(finish)) => Step::Stop(Ok(finish)),
            Step::Stop(Err(error)) => Step::Stop(Err(error@)),
        }
    }
}

/// The processes of this run exchange data over communicators.
pub open spec fn communicates(context: Context) -> bool {
    &&& context.distributed matches Some(d) && !d.single
    &&& context.backend == Backend::Ascend
}

/// The configuration is that of the variant on the command line.
pub open spec fn on_preset(options: Options<Seq<char>>) -> Step<Seq<char>> {
    match variant_named(options.model) {
        Some(variant) => Step::Continue(Phase::UsePreset(variant)),
        None => Step::Stop(Err(StartupError::UnknownModel(options.model))),
    }
}

/// The start: a configuration file on the command line comes before one in the
/// weights directory, and that before the model variant.
pub open spec fn on_begin(options: Options<Seq<char>>) -> Step<Seq<char>> {
    if options.config is Some {
        Step::Continue(Phase::LoadConfig)
    } else if options.weights is Some {
        Step::Continue(Phase::ProbeConfig)
    } else {
        on_preset(options)
    }
}

/// The ranks are known: quantization and backend are chosen, and the
/// accelerator, from the command line before the launcher and the environment.
pub open spec fn on_ranks(
    options: Options<Seq<char>>,
    distributed: Option<Distributed>,
) -> Step<Seq<char>> {
    match (quant_named(options.quant), backend_named(options.backend)) {
        (None, _) => Step::Stop(Err(StartupError::UnknownQuant(options.quant))),
        (_, None) => Step::Stop(Err(StartupError::UnknownBackend(options.backend))),
        (Some(quant), Some(backend)) => {
            let parallel = parallel_of(options, distributed);
            let context = Context { distributed, parallel, quant, backend };
            match backend {
                Backend::Stub => Step::Continue(Phase::BuildModel(context)),
                Backend::Ascend => match (options.device_id, distributed) {
                    (Some(id), _) => Step::Continue(
                        Phase::OpenDevice(
                            context,
                            ChosenDevice { id, source: DeviceSource::CommandLine },
                        ),
                    ),
                    (None, Some(d)) => Step::Continue(
                        Phase::OpenDevice(
                            context,
                            ChosenDevice { id: d.device_id, source: DeviceSource::Launcher },
                        ),
                    ),
                    (None, None) => Step::Continue(Phase::ReadTaskDevice(context)),
                },
            }
        },
    }
}

/// The configuration is known: ranks matter where more than one process is
/// asked for.
pub open spec fn on_config(options: Options<Seq<char>>) -> Step<Seq<char>> {
    if asks_for_many(options) {
        Step::Continue(Phase::ReadRank)
    } else {
        on_ranks(options, None)
    }
}

/// Working for the process that serves, or serving, where the replica's port
/// exists.
pub open spec fn on_ready(options: Options<Seq<char>>, context: Context) -> Step<Seq<char>> {
    let port = port_of(options, context.distributed);
    if !primary(options, context.distributed) {
        Step::Continue(Phase::RunWorker(context))
    } else if port > u16::MAX {
        Step::Stop(Err(StartupError::PortOverflow))
    } else {
        Step::Continue(Phase::Serve(context, port as u16))
    }
}

/// The engine is complete. The tokenizer lies in the weights directory; a
/// prompt cannot do without, serving can.
pub open spec fn on_engine(options: Options<Seq<char>>, context: Context) -> Step<Seq<char>> {
    if options.weights is Some {
        Step::Continue(Phase::LoadTokenizer(context))
    } else if options.prompt is Some {
        Step::Stop(Err(StartupError::WeightsRequired))
    } else {
        on_ready(options, context)
    }
}

/// A variable names the accelerator.
pub open spec fn on_variable(
    context: Context,
    value: Seq<char>,
    source: DeviceSource,
    invalid: StartupError<Seq<char>>,
) -> Step<Seq<char>> {
    match i32_value(value) {
        Some(id) => Step::Continue(Phase::OpenDevice(context, ChosenDevice { id, source })),
        None => Step::Stop(Err(invalid)),
    }
}

/// What an answer leads to. What does not answer the action that is due leaves
/// it due.
pub open spec fn on_event(
    options: Options<Seq<char>>,
    phase: Phase,
    event: Event<Seq<char>>,
) -> Step<Seq<char>> {
    match (phase, event) {
        (Phase::LoadConfig, Event::Completed) => on_config(options),
        (Phase::LoadConfig, Event::Failed(e)) => Step::Stop(Err(StartupError::Config(e))),
        (Phase::ProbeConfig, Event::Flag(found)) => if found {
            Step::Continue(Phase::LoadFoundConfig)
        } else {
            on_preset(options)
        },
        (Phase::LoadFoundConfig, Event::Completed) => on_config(options),
        (Phase::LoadFoundConfig, Event::Failed(e)) => Step::Stop(Err(StartupError::Config(e))),
        (Phase::UsePreset(_), Event::Completed) => on_config(options),
        (Phase::ReadRank, Event::Flag(set)) => if set {
            Step::Continue(Phase::Join)
        } else {
            on_ranks(options, None)
        },
        (Phase::Join, Event::Joined(distributed)) => on_ranks(options, distributed),
        (Phase::ReadTaskDevice(context), Event::Variable(value)) => match value {
            Some(text) => on_variable(
                context,
                text,
                DeviceSource::TaskDevice,
                StartupError::TaskDeviceInvalid,
            ),
            None => Step::Continue(Phase::ReadAscendDeviceId(context)),
        },
        (Phase::ReadAscendDeviceId(context), Event::Variable(value)) => match value {
            Some(text) => on_variable(
                context,
                text,
                DeviceSource::AscendDeviceId,
                StartupError::AscendDeviceIdInvalid,
            ),
            None => Step::Stop(Err(StartupError::NoDevice)),
        },
        (Phase::OpenDevice(context, _), Event::Completed) => Step::Continue(
            Phase::BuildModel(context),
        ),
        (Phase::OpenDevice(_, _), Event::Failed(e)) => Step::Stop(Err(StartupError::Device(e))),
        (Phase::BuildModel(context), Event::Completed) => if options.weights is Some {
            Step::Continue(Phase::LoadWeights(context))
        } else {
            Step::Continue(Phase::CreateEngine(context))
        },
        (Phase::LoadWeights(context), Event::Completed) => if context.backend == Backend::Ascend {
            Step::Continue(Phase::UploadWeights(context))
        } else {
            Step::Continue(Phase::CreateEngine(context))
        },
        (Phase::LoadWeights(_), Event::Failed(e)) => Step::Stop(Err(StartupError::Weights(e))),
        (Phase::UploadWeights(context), Event::Completed) => Step::Continue(
            Phase::CreateEngine(context),
        ),
        (Phase::UploadWeights(_), Event::Failed(e)) => Step::Stop(Err(StartupError::Upload(e))),
        (Phase::CreateEngine(context), Event::Completed) => if communicates(context) {
            Step::Continue(Phase::InitCommunicators(context))
        } else {
            on_engine(options, context)
        },
        (Phase::InitCommunicators(context), Event::Completed) => on_engine(options, context),
        (Phase::InitCommunicators(_), Event::Failed(e)) => Step::Stop(
            Err(StartupError::Communicators(e)),
        ),
        (Phase::LoadTokenizer(context), Event::Completed) => if options.prompt is Some {
            Step::Continue(Phase::EncodePrompt(context))
        } else {
            on_ready(options, context)
        },
        (Phase::LoadTokenizer(_), Event::Failed(e)) => Step::Stop(Err(StartupError::Tokenizer(e))),
        (Phase::EncodePrompt(context), Event::Tokens(count)) => if count == 0 {
            Step::Stop(Err(StartupError::EmptyPrompt))
        } else {
            Step::Continue(Phase::Generate(context))
        },
        (Phase::Generate(_), Event::Completed) => Step::Stop(Ok(Finish::Generated)),
        (Phase::RunWorker(_), Event::Completed) => Step::Stop(Ok(Finish::WorkerStopped)),
        (Phase::Serve(_, _), Event::Completed) => Step::Stop(Ok(Finish::Served)),
        (Phase::Serve(_, _), Event::Failed(e)) => Step::Stop(Err(StartupError::Serve(e))),
        (_, _) => Step::Continue(phase),
    }
}

/// `context` is what the options and the launcher settle.
pub open spec fn context_fits(options: Options<Seq<char>>, context: Context) -> bool {
    &&& quant_named(options.quant) == Some(context.quant)
    &&& backend_named(options.backend) == Some(context.backend)
    &&& context.parallel == parallel_of(options, context.distributed)
    &&& context.distributed is Some ==> asks_for_many(options)
}

/// `phase` can come up under `options`.
pub open spec fn phase_fits(options: Options<Seq<char>>, phase: Phase) -> bool {
    match phase {
        Phase::LoadConfig => options.config is Some,
        Phase::ProbeConfig | Phase::LoadFoundConfig => options.config is None
            && options.weights is Some,
        Phase::UsePreset(variant) => options.config is None && variant_named(options.model) == Some(
            variant,
        ),
        Phase::ReadRank | Phase::Join => asks_for_many(options),
        Phase::ReadTaskDevice(context) | Phase::ReadAscendDeviceId(context) => {
            &&& context_fits(options, context)
            &&& context.backend == Backend::Ascend
            &&& options.device_id is None
            &&& context.distributed is None
        },
        Phase::OpenDevice(context, device) => {
            &&& context_fits(options, context)
            &&& context.backend == Backend::Ascend
            &&& match (options.device_id, context.distributed) {
                (Some(id), _) => device == (ChosenDevice { id, source: DeviceSource::CommandLine }),
                (None, Some(d)) => device == (ChosenDevice {
                    id: d.device_id,
                    source: DeviceSource::Launcher,
                }),
                (None, None) => device.source is TaskDevice || device.source is AscendDeviceId,
            }
        },
        Phase::BuildModel(context) | Phase::CreateEngine(context) => context_fits(options, context),
        Phase::LoadWeights(context) => context_fits(options, context) && options.weights is Some,
        Phase::UploadWeights(context) => {
            &&& context_fits(options, context)
            &&& options.weights is Some
            &&& context.backend == Backend::Ascend
        },
        Phase::InitCommunicators(context) => context_fits(options, context) && communicates(
            context,
        ),
        Phase::LoadTokenizer(context) => context_fits(options, context) && options.weights is Some,
        Phase::EncodePrompt(context) | Phase::Generate(context) => {
            &&& context_fits(options, context)
            &&& options.weights is Some
            &&& options.prompt is Some
        },
        Phase::RunWorker(context) => {
            &&& context_fits(options, context)
            &&& options.prompt is None
            &&& !primary(options, context.distributed)
        },
        Phase::Serve(context, port) => {
            &&& context_fits(options, context)
            &&& options.prompt is None
            &&& primary(options, context.distributed)
            &&& port == port_of(options, context.distributed)
        },
    }
}

/// The phase that a step leads to, if any, can come up.
pub open spec fn step_fits(options: Options<Seq<char>>, step: Step<Seq<char>>) -> bool {
    step matches Step::Continue(phase) ==> phase_fits(options, phase)
}

/// The action that a phase stands for.
pub open spec fn action_of(options: Options<Seq<char>>, phase: Phase) -> Action<Seq<char>> {
    match phase {
        Phase::LoadConfig => Action::LoadConfig(options.config->0),
        Phase::ProbeConfig => Action::ProbeConfig(options.weights->0),
        Phase::LoadFoundConfig => Action::LoadConfigIn(options.weights->0),
        Phase::UsePreset(variant) => Action::UsePreset(variant),
        Phase::ReadRank => Action::ReadRank,
        Phase::Join => Action::Join { tp: options.tp, pp: options.pp, dp: options.dp },
        Phase::ReadTaskDevice(_) => Action::ReadTaskDevice,
        Phase::ReadAscendDeviceId(_) => Action::ReadAscendDeviceId,
        Phase::OpenDevice(_, device) => Action::OpenDevice(device),
        Phase::BuildModel(context) => Action::BuildModel {
            sharded: context.parallel.splits_tensors() || context.parallel.splits_layers(),
            parallel: context.parallel,
        },
        Phase::LoadWeights(context) => Action::LoadWeights {
            dir: options.weights->0,
            sharded: context.parallel.splits_tensors(),
            parallel: context.parallel,
        },
        Phase::UploadWeights(_) => Action::UploadWeights,
        Phase::CreateEngine(context) => Action::CreateEngine {
            parallel: context.parallel,
            quant: context.quant,
        },
        Phase::InitCommunicators(_) => Action::InitCommunicators,
        Phase::LoadTokenizer(_) => Action::LoadTokenizer(options.weights->0),
        Phase::EncodePrompt(_) => Action::EncodePrompt(options.prompt->0),
        Phase::Generate(_) => Action::Generate { max_new_tokens: options.max_new_tokens },
        Phase::RunWorker(_) => Action::RunWorker,
        Phase::Serve(context, port) => Action::Serve { port, backend: context.backend },
    }
}

impl Options<String> {
    fn preset(&self) -> (step: Step<String>)
        ensures
            step@ == on_preset(self@),
    {
        match parse_variant(self.model.as_str()) {
            Some(variant) => Step::Continue(Phase::UsePreset(variant)),
            None => Step::Stop(Err(StartupError::UnknownModel(self.model.clone()))),
        }
    }

    /// The first phase, or the end where the options name no model.
    pub fn begin(&self) -> (step: Step<String>)
        ensures
            step@ == on_begin(self@),
            step_fits(self@, step@),
    {
        if self.config.is_some() {
            Step::Continue(Phase::LoadConfig)
        } else if self.weights.is_some() {
            Step::Continue(Phase::ProbeConfig)
        } else {
            self.preset()
        }
    }

    fn with_ranks(&self, distributed: Option<Distributed>) -> (step: Step<String>)
        ensures
            step@ == on_ranks(self@, distributed),
    {
        let quant = match parse_quant(self.quant.as_str()) {
            Some(quant) => quant,
            None => {
                return Step::Stop(Err(StartupError::UnknownQuant(self.quant.clone())));
            },
        };
        let backend = match parse_backend(self.backend.as_str()) {
            Some(backend) => backend,
            None => {
                return Step::Stop(Err(StartupError::UnknownBackend(self.backend.clone())));
            },
        };
        let parallel = parallel_config(self, &distributed);
        let context = Context { distributed, parallel, quant, backend };
        match backend {
            Backend::Stub => Step::Continue(Phase::BuildModel(context)),
            Backend::Ascend => match (self.device_id, distributed) {
                (Some(id), _) => Step::Continue(
                    Phase::OpenDevice(
                        context,
                        ChosenDevice { id, source: DeviceSource::CommandLine },
                    ),
                ),
                (None, Some(d)) => Step::Continue(
                    Phase::OpenDevice(
                        context,
                        ChosenDevice { id: d.device_id, source: DeviceSource::Launcher },
                    ),
                ),
                (None, None) => Step::Continue(Phase::ReadTaskDevice(context)),
            },
        }
    }

    fn with_config(&self) -> (step: Step<String>)
        ensures
            step@ == on_config(self@),
    {
        if wants_many(self) {
            Step::Continue(Phase::ReadRank)
        } else {
            self.with_ranks(None)
        }
    }

    fn ready(&self, context: Context) -> (step: Step<String>)
        ensures
            step@ == on_ready(self@, context),
    {
        if !is_primary(self, &context.distributed) {
            return Step::Continue(Phase::RunWorker(context));
        }
        match serve_port(self, &context.distributed) {
            None => Step::Stop(Err(StartupError::PortOverflow)),
            Some(port) => Step::Continue(Phase::Serve(context, port)),
        }
    }

    fn with_engine(&self, context: Context) -> (step: Step<String>)
        ensures
            step@ == on_engine(self@, context),
    {
        if self.weights.is_some() {
            Step::Continue(Phase::LoadTokenizer(context))
        } else if self.prompt.is_some() {
            Step::Stop(Err(StartupError::WeightsRequired))
        } else {
            self.ready(context)
        }
    }

    /// The action that `phase` stands for.
    pub fn action(&self, phase: Phase) -> (action: Action<String>)
        requires
            phase_fits(self@, phase),
        ensures
            action@ == action_of(self@, phase),
    {
        match phase {
            Phase::LoadConfig => Action::LoadConfig(given(&self.config)),
            Phase::ProbeConfig => Action::ProbeConfig(given(&self.weights)),
            Phase::LoadFoundConfig => Action::LoadConfigIn(given(&self.weights)),
            Phase::UsePreset(variant) => Action::UsePreset(variant),
            Phase::ReadRank => Action::ReadRank,
            Phase::Join => Action::Join { tp: self.tp, pp: self.pp, dp: self.dp },
            Phase::ReadTaskDevice(_) => Action::ReadTaskDevice,
            Phase::ReadAscendDeviceId(_) => Action::ReadAscendDeviceId,
            Phase::OpenDevice(_, device) => Action::OpenDevice(device),
            Phase::BuildModel(context) => Action::BuildModel {
                sharded: context.parallel.is_tp() || context.parallel.is_pp(),
                parallel: context.parallel,
            },
            Phase::LoadWeights(context) => Action::LoadWeights {
                dir: given(&self.weights),
                sharded: context.parallel.is_tp(),
                parallel: context.parallel,
            },
            Phase::UploadWeights(_) => Action::UploadWeights,
            Phase::CreateEngine(context) => Action::CreateEngine {
                parallel: context.parallel,
                quant: context.quant,
            },
            Phase::InitCommunicators(_) => Action::InitCommunicators,
            Phase::LoadTokenizer(_) => Action::LoadTokenizer(given(&self.weights)),
            Phase::EncodePrompt(_) => Action::EncodePrompt(given(&self.prompt)),
            Phase::Generate(_) => Action::Generate { max_new_tokens: self.max_new_tokens },
            Phase::RunWorker(_) => Action::RunWorker,
            Phase::Serve(context, port) => Action::Serve { port, backend: context.backend },
        }
    }

    /// Takes the answer to the action of `phase`.
    pub fn advance(&self, phase: Phase, event: Event<String>) -> (step: Step<String>)
        requires
            phase_fits(self@, phase),
        ensures
            step@ == on_event(self@, phase, event@),
            step_fits(self@, step@),
    {
        match (phase, event) {
            (Phase::LoadConfig, Event::Completed) => self.with_config(),
            (Phase::LoadConfig, Event::Failed(e)) => Step::Stop(Err(StartupError::Config(e))),
            (Phase::ProbeConfig, Event::Flag(found)) => {
                if found {
                    Step::Continue(Phase::LoadFoundConfig)
                } else {
                    self.preset()
                }
            },
            (Phase::LoadFoundConfig, Event::Completed) => self.with_config(),
            (Phase::LoadFoundConfig, Event::Failed(e)) => Step::Stop(Err(StartupError::Config(e))),
            (Phase::UsePreset(_), Event::Completed) => self.with_config(),
            (Phase::ReadRank, Event::Flag(set)) => {
                if set {
                    Step::Continue(Phase::Join)
                } else {
                    self.with_ranks(None)
                }
            },
            (Phase::Join, Event::Joined(distributed)) => self.with_ranks(distributed),
            (Phase::ReadTaskDevice(context), Event::Variable(value)) => match value {
                Some(text) => named_device(
                    context,
                    text,
                    DeviceSource::TaskDevice,
                    StartupError::TaskDeviceInvalid,
                ),
                None => Step::Continue(Phase::ReadAscendDeviceId(context)),
            },
            (Phase::ReadAscendDeviceId(context), Event::Variable(value)) => match value {
                Some(text) => named_device(
                    context,
                    text,
                    DeviceSource::AscendDeviceId,
                    StartupError::AscendDeviceIdInvalid,
                ),
                None => Step::Stop(Err(StartupError::NoDevice)),
            },
            (Phase::OpenDevice(context, _), Event::Completed) => Step::Continue(
                Phase::BuildModel(context),
            ),
            (Phase::OpenDevice(_, _), Event::Failed(e)) => Step::Stop(Err(StartupError::Device(e))),
            (Phase::BuildModel(context), Event::Completed) => {
                if self.weights.is_some() {
                    Step::Continue(Phase::LoadWeights(context))
                } else {
                    Step::Continue(Phase::CreateEngine(context))
                }
            },
            (Phase::LoadWeights(context), Event::Completed) => match context.backend {
                Backend::Ascend => Step::Continue(Phase::UploadWeights(context)),
                Backend::Stub => Step::Continue(Phase::CreateEngine(context)),
            },
            (Phase::LoadWeights(_), Event::Failed(e)) => Step::Stop(Err(StartupError::Weights(e))),
            (Phase::UploadWeights(context), Event::Completed) => Step::Continue(
                Phase::CreateEngine(context),
            ),
            (Phase::UploadWeights(_), Event::Failed(e)) => Step::Stop(Err(StartupError::Upload(e))),
            (Phase::CreateEngine(context), Event::Completed) => {
                if has_communicators(&context) {
                    Step::Continue(Phase::InitCommunicators(context))
                } else {
                    self.with_engine(context)
                }
            },
            (Phase::InitCommunicators(context), Event::Completed) => self.with_engine(context),
            (Phase::InitCommunicators(_), Event::Failed(e)) => Step::Stop(
                Err(StartupError::Communicators(e)),
            ),
            (Phase::LoadTokenizer(context), Event::Completed) => {
                if self.prompt.is_some() {
                    Step::Continue(Phase::EncodePrompt(context))
                } else {
                    self.ready(context)
                }
            },
            (Phase::LoadTokenizer(_), Event::Failed(e)) => Step::Stop(
                Err(StartupError::Tokenizer(e)),
            ),
            (Phase::EncodePrompt(context), Event::Tokens(count)) => {
                if count == 0 {
                    Step::Stop(Err(StartupError::EmptyPrompt))
                } else {
                    Step::Continue(Phase::Generate(context))
                }
            },
            (Phase::Generate(_), Event::Completed) => Step::Stop(Ok(Finish::Generated)),
            (Phase::RunWorker(_), Event::Completed) => Step::Stop(Ok(Finish::WorkerStopped)),
            (Phase::Serve(_, _), Event::Completed) => Step::Stop(Ok(Finish::Served)),
            (Phase::Serve(_, _), Event::Failed(e)) => Step::Stop(Err(StartupError::Serve(e))),
            (_, _) => Step::Continue(phase),
        }
    }
}

fn given(text: &Option<String>) -> (copy: String)
    requires
        text is Some,
    ensures
        copy@ == text->0@,
{
    match text {
        Some(t) => t.clone(),
        None => String::new(),
    }
}

fn has_communicators(context: &Context) -> (has: bool)
    ensures
        has == communicates(*context),
{
    match (context.distributed, context.backend) {
        (Some(d), Backend::Ascend) => !d.single,
        _ => false,
    }
}

fn named_device(
    context: Context,
    text: String,
    source: DeviceSource,
    invalid: StartupError<String>,
) -> (step: Step<String>)
    ensures
        step@ == on_variable(context, text@, source, invalid@),
{
    match parse_i32(text.as_str()) {
        Some(id) => Step::Continue(Phase::OpenDevice(context, ChosenDevice { id, source })),
        None => Step::Stop(Err(invalid)),
    }
}

} // verus!
