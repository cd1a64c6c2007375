//! The command line.

use vstd::prelude::*;

verus! {

/// The server's options, with texts of type `S`.
#[derive(Debug)]
pub struct Options<S> {
    /// Path to the model's `config.json`.
    pub config: Option<S>,
    /// Model variant, for want of a `config.json`.
    pub model: S,
    /// Server port.
    pub port: u16,
    /// Tensor parallelism degree.
    pub tp: usize,
    /// Pipeline parallelism degree.
    pub pp: usize,
    /// This process's rank in tensor parallelism.
    pub tp_rank: usize,
    /// This process's rank in pipeline parallelism.
    pub pp_rank: usize,
    /// Data parallelism degree: the number of independent replicas.
    pub dp: usize,
    /// Quantization.
    pub quant: S,
    /// Backend.
    pub backend: S,
    /// Accelerator to use.
    pub device_id: Option<i32>,
    /// Directory of the model's weights. Without one the server runs with
    /// uninitialized weights.
    pub weights: Option<S>,
    /// Prompt of a one-shot generation, which replaces serving.
    pub prompt: Option<S>,
    /// Most tokens that a one-shot generation adds.
    pub max_new_tokens: usize,
}

/// The characters of an optional text.
pub open spec fn optional_text(text: Option<String>) -> Option<Seq<char>> {
    match text {
        Some(t) => Some(t@),
        None => None,
    }
}

impl View for Options<String> {
    type V = Options<Seq<char>>;

    open spec fn view(&self) -> Options<Seq<char>> {
        Options {
            config: optional_text(self.config),
            model: self.model@,
            port: self.port,
            tp: self.tp,
            pp: self.pp,
            tp_rank: self.tp_rank,
            pp_rank: self.pp_rank,
            dp: self.dp,
            quant: self.quant@,
            backend: self.backend@,
            device_id: self.device_id,
            weights: optional_text(self.weights),
            prompt: optional_text(self.prompt),
            max_new_tokens: self.max_new_tokens,
        }
    }
}

} // verus!
