//! Why the start-up ended without a server.

use vstd::prelude::*;

verus! {

/// A failed start-up, with texts of type `S`. Where an action failed, the text
/// is what it said.
#[derive(Debug, PartialEq, Eq)]
pub enum StartupError<S> {
    /// No model variant has this name.
    UnknownModel(S),
    /// No quantization has this name.
    UnknownQuant(S),
    /// No backend has this name.
    UnknownBackend(S),
    /// Nothing says which accelerator to use.
    NoDevice,
    /// `TASK_DEVICE` is no integer.
    TaskDeviceInvalid,
    /// `ASCEND_DEVICE_ID` is no integer.
    AscendDeviceIdInvalid,
    /// The model's configuration was not read.
    Config(S),
    /// The accelerator was not opened.
    Device(S),
    /// The weights were not read.
    Weights(S),
    /// The weights were not moved to the accelerator.
    Upload(S),
    /// The communicators between processes were not set up.
    Communicators(S),
    /// The tokenizer was not read.
    Tokenizer(S),
    /// A prompt was given and no weights directory to take a tokenizer from.
    WeightsRequired,
    /// The prompt has no tokens.
    EmptyPrompt,
    /// The port that this process is to serve on does not exist.
    PortOverflow,
    /// The server stopped with an error.
    Serve(S),
}

impl View for StartupError<String> {
    type V = StartupError<Seq<char>>;

    open spec fn view(&self) -> StartupError<Seq<char>> {
        match self {
            StartupError::UnknownModel(s) => StartupError::UnknownModel(s@),
            StartupError::UnknownQuant(s) => StartupError::UnknownQuant(s@),
            StartupError::UnknownBackend(s) => StartupError::UnknownBackend(s@),
            StartupError::NoDevice => StartupError::NoDevice,
            StartupError::TaskDeviceInvalid => StartupError::TaskDeviceInvalid,
            StartupError::AscendDeviceIdInvalid => StartupError::AscendDeviceIdInvalid,
            StartupError::Config(s) => StartupError::Config(s@),
            StartupError::Device(s) => StartupError::Device(s@),
            StartupError::Weights(s) => StartupError::Weights(s@),
            StartupError::Upload(s) => StartupError::Upload(s@),
            StartupError::Communicators(s) => StartupError::Communicators(s@),
            StartupError::Tokenizer(s) => StartupError::Tokenizer(s@),
            StartupError::WeightsRequired => StartupError::WeightsRequired,
            StartupError::EmptyPrompt => StartupError::EmptyPrompt,
            StartupError::PortOverflow => StartupError::PortOverflow,
            StartupError::Serve(s) => StartupError::Serve(s@),
        }
    }
}

/// The words of a failure.
pub open spec fn failure_text(error: StartupError<Seq<char>>) -> Seq<char> {
    match error {
        StartupError::UnknownModel(s) => "Unknown model variant: "@ + s
            + ". Use 0.6b, 4b, 8b, or 14b."@,
        StartupError::UnknownQuant(s) => "Unknown quant: "@ + s
            + ". Use none, int8, or awq-int4."@,
        StartupError::UnknownBackend(s) => "Unknown backend: "@ + s + ". Use stub or ascend."@,
        StartupError::NoDevice => "No NPU device specified. Use --device-id N, --device N, or set TASK_DEVICE or ASCEND_DEVICE_ID environment variables."@,
        StartupError::TaskDeviceInvalid => "TASK_DEVICE must be a valid integer"@,
        StartupError::AscendDeviceIdInvalid => "ASCEND_DEVICE_ID must be a valid integer"@,
        StartupError::Config(s) => s,
        StartupError::Device(s) => "Failed to init Ascend backend: "@ + s,
        StartupError::Weights(s) => s,
        StartupError::Upload(s) => s,
        StartupError::Communicators(s) => "Failed to init HCCL process groups: "@ + s,
        StartupError::Tokenizer(s) => "Failed to load tokenizer: "@ + s,
        StartupError::WeightsRequired => "--weights is required to load tokenizer.json"@,
        StartupError::EmptyPrompt => "Empty prompt after tokenization"@,
        StartupError::PortOverflow => "attempt to add with overflow"@,
        StartupError::Serve(s) => s,
    }
}

fn sentence(start: &str, middle: &str, end: &str) -> (text: String)
    ensures
        text@ == start@ + middle@ + end@,
{
    let mut text = start.to_owned();
    text.append(middle);
    text.append(end);
    text
}

fn phrase(start: &str, end: &str) -> (text: String)
    ensures
        text@ == start@ + end@,
{
    let mut text = start.to_owned();
    text.append(end);
    text
}

impl StartupError<String> {
    /// A broken environment, on which the process is to abort; every other
    /// failure is reported and ends the process in order.
    pub open spec fn is_fatal(&self) -> bool {
        self is TaskDeviceInvalid || self is AscendDeviceIdInvalid || self is PortOverflow
    }

    /// Whether the process is to abort.
    pub fn aborts(&self) -> (fatal: bool)
        ensures
            fatal == self.is_fatal(),
    {
        match self {
            StartupError::TaskDeviceInvalid => true,
            StartupError::AscendDeviceIdInvalid => true,
            StartupError::PortOverflow => true,
            _ => false,
        }
    }

    /// The words of the failure.
    pub fn message(&self) -> (text: String)
        ensures
            text@ == failure_text(self@),
    {
        match self {
            StartupError::UnknownModel(s) => sentence(
                "Unknown model variant: ",
                s.as_str(),
                ". Use 0.6b, 4b, 8b, or 14b.",
            ),
            StartupError::UnknownQuant(s) => sentence(
                "Unknown quant: ",
                s.as_str(),
                ". Use none, int8, or awq-int4.",
            ),
            StartupError::UnknownBackend(s) => sentence(
                "Unknown backend: ",
                s.as_str(),
                ". Use stub or ascend.",
            ),
            StartupError::NoDevice => "No NPU device specified. Use --device-id N, --device N, or set TASK_DEVICE or ASCEND_DEVICE_ID environment variables.".to_owned(),
            StartupError::TaskDeviceInvalid => "TASK_DEVICE must be a valid integer".to_owned(),
            StartupError::AscendDeviceIdInvalid => "ASCEND_DEVICE_ID must be a valid integer".to_owned(),
            StartupError::Config(s) => s.clone(),
            StartupError::Device(s) => phrase("Failed to init Ascend backend: ", s.as_str()),
            StartupError::Weights(s) => s.clone(),
            StartupError::Upload(s) => s.clone(),
            StartupError::Communicators(s) => phrase(
                "Failed to init HCCL process groups: ",
                s.as_str(),
            ),
            StartupError::Tokenizer(s) => phrase("Failed to load tokenizer: ", s.as_str()),
            StartupError::WeightsRequired => "--weights is required to load tokenizer.json".to_owned(),
            StartupError::EmptyPrompt => "Empty prompt after tokenization".to_owned(),
            StartupError::PortOverflow => "attempt to add with overflow".to_owned(),
            StartupError::Serve(s) => s.clone(),
        }
    }
}

/// A failure of an action is told in the action's own words, and a name that is
/// not known is quoted beside those that are.
pub proof fn failures_are_told_in_words(words: Seq<char>)
    ensures
        failure_text(StartupError::Config(words)) == words,
        failure_text(StartupError::Weights(words)) == words,
        failure_text(StartupError::Upload(words)) == words,
        failure_text(StartupError::Serve(words)) == words,
        failure_text(StartupError::Device(words)) == "Failed to init Ascend backend: "@ + words,
        failure_text(StartupError::Communicators(words))
            == "Failed to init HCCL process groups: "@ + words,
        failure_text(StartupError::Tokenizer(words)) == "Failed to load tokenizer: "@ + words,
        failure_text(StartupError::UnknownModel(words)) == "Unknown model variant: "@ + words
            + ". Use 0.6b, 4b, 8b, or 14b."@,
        failure_text(StartupError::UnknownQuant(words)) == "Unknown quant: "@ + words
            + ". Use none, int8, or awq-int4."@,
        failure_text(StartupError::UnknownBackend(words)) == "Unknown backend: "@ + words
            + ". Use stub or ascend."@,
{
}

/// The process aborts on a number in the environment that is none and on a port
/// beyond the last, and on nothing else.
pub proof fn only_broken_numbers_abort(error: StartupError<String>)
    ensures
        error.is_fatal() <==> (error@ is TaskDeviceInvalid || error@ is AscendDeviceIdInvalid
            || error@ is PortOverflow),
{
}

/// A failure counts as the kind that it is, by the characters of its text.
pub proof fn failures_count_as_given(error: StartupError<String>)
    ensures
        error matches StartupError::UnknownModel(s) ==> error@ == StartupError::UnknownModel(s@),
        error matches StartupError::UnknownQuant(s) ==> error@ == StartupError::UnknownQuant(s@),
        error matches StartupError::UnknownBackend(s) ==> error@ == StartupError::UnknownBackend(
            s@,
        ),
        error matches StartupError::Config(s) ==> error@ == StartupError::Config(s@),
        error matches StartupError::Device(s) ==> error@ == StartupError::Device(s@),
        error matches StartupError::Weights(s) ==> error@ == StartupError::Weights(s@),
        error matches StartupError::Upload(s) ==> error@ == StartupError::Upload(s@),
        error matches StartupError::Communicators(s) ==> error@ == StartupError::Communicators(s@),
        error matches StartupError::Tokenizer(s) ==> error@ == StartupError::Tokenizer(s@),
        error matches StartupError::Serve(s) ==> error@ == StartupError::Serve(s@),
        error is NoDevice <==> error@ is NoDevice,
        error is TaskDeviceInvalid <==> error@ is TaskDeviceInvalid,
        error is AscendDeviceIdInvalid <==> error@ is AscendDeviceIdInvalid,
        error is WeightsRequired <==> error@ is WeightsRequired,
        error is EmptyPrompt <==> error@ is EmptyPrompt,
        error is PortOverflow <==> error@ is PortOverflow,
{
}

} // verus!
