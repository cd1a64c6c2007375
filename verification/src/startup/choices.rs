//! Choices that the command line makes by name.

use vstd::prelude::*;

use crate::text::same_text;

verus! {

/// A model whose configuration is known beforehand.
#[derive(Clone, Copy, Debug, PartialEq, Eq, Structural)]
pub enum ModelVariant {
    /// Qwen3 with 0.6 billion parameters.
    Small,
    /// Qwen3 with 4 billion parameters.
    Medium,
    /// Qwen3 with 8 billion parameters.
    Large,
    /// Qwen3 with 14 billion parameters.
    Huge,
}

/// The variant of this name.
pub open spec fn variant_named(name: Seq<char>) -> Option<ModelVariant> {
    if name == "0.6b"@ {
        Some(ModelVariant::Small)
    } else if name == "4b"@ {
        Some(ModelVariant::Medium)
    } else if name == "8b"@ {
        Some(ModelVariant::Large)
    } else if name == "14b"@ {
        Some(ModelVariant::Huge)
    } else {
        None
    }
}

/// The variant of this name.
pub fn parse_variant(name: &str) -> (variant: Option<ModelVariant>)
    ensures
        variant == variant_named(name@),
{
    if same_text(name, "0.6b") {
        Some(ModelVariant::Small)
    } else if same_text(name, "4b") {
        Some(ModelVariant::Medium)
    } else if same_text(name, "8b") {
        Some(ModelVariant::Large)
    } else if same_text(name, "14b") {
        Some(ModelVariant::Huge)
    } else {
        None
    }
}

/// How the weights are quantized.
#[derive(Clone, Copy, Debug, PartialEq, Eq, Structural)]
pub enum QuantConfig {
    /// Not at all.
    Unquantized,
    /// 8-bit integers, one scale for a tensor.
    Int8PerTensor,
    /// 4-bit integers, one scale for a group of this many.
    AwqInt4 { group_size: usize },
}

/// The quantization of this name.
pub open spec fn quant_named(name: Seq<char>) -> Option<QuantConfig> {
    if name == "none"@ {
        Some(QuantConfig::Unquantized)
    } else if name == "int8"@ {
        Some(QuantConfig::Int8PerTensor)
    } else if name == "awq-int4"@ {
        Some(QuantConfig::AwqInt4 { group_size: 128 })
    } else {
        None
    }
}

/// The quantization of this name.
pub fn parse_quant(name: &str) -> (quant: Option<QuantConfig>)
    ensures
        quant == quant_named(name@),
{
    if same_text(name, "none") {
        Some(QuantConfig::Unquantized)
    } else if same_text(name, "int8") {
        Some(QuantConfig::Int8PerTensor)
    } else if same_text(name, "awq-int4") {
        Some(QuantConfig::AwqInt4 { group_size: 128 })
    } else {
        None
    }
}

/// What runs the operators.
#[derive(Clone, Copy, Debug, PartialEq, Eq, Structural)]
pub enum Backend {
    /// Nothing: operators do no work.
    Stub,
    /// An Ascend accelerator.
    Ascend,
}

/// The backend of this name.
pub open spec fn backend_named(name: Seq<char>) -> Option<Backend> {
    if name == "stub"@ {
        Some(Backend::Stub)
    } else if name == "ascend"@ {
        Some(Backend::Ascend)
    } else {
        None
    }
}

/// The backend of this name.
pub fn parse_backend(name: &str) -> (backend: Option<Backend>)
    ensures
        backend == backend_named(name@),
{
    if same_text(name, "stub") {
        Some(Backend::Stub)
    } else if same_text(name, "ascend") {
        Some(Backend::Ascend)
    } else {
        None
    }
}

impl Backend {
    /// The backend as the server's banner shows it.
    pub open spec fn label_text(self) -> Seq<char> {
        match self {
            Backend::Stub => "STUB (no-op)"@,
            Backend::Ascend => "ASCEND NPU (CANN)"@,
        }
    }

    /// The backend as the server's banner shows it.
    pub fn label(&self) -> (label: String)
        ensures
            label@ == self.label_text(),
    {
        match self {
            Backend::Stub => "STUB (no-op)".to_owned(),
            Backend::Ascend => "ASCEND NPU (CANN)".to_owned(),
        }
    }
}

/// Names are exact: a choice has one name and no other is taken for it.
pub proof fn names_are_exact(
    name: Seq<char>,
    variant: ModelVariant,
    quant: QuantConfig,
    backend: Backend,
)
    ensures
        variant_named(name) == Some(variant) <==> name == (match variant {
            ModelVariant::Small => "0.6b"@,
            ModelVariant::Medium => "4b"@,
            ModelVariant::Large => "8b"@,
            ModelVariant::Huge => "14b"@,
        }),
        quant_named(name) == Some(quant) <==> match quant {
            QuantConfig::Unquantized => name == "none"@,
            QuantConfig::Int8PerTensor => name == "int8"@,
            QuantConfig::AwqInt4 { group_size } => name == "awq-int4"@ && group_size == 128,
        },
        backend_named(name) == Some(backend) <==> name == (match backend {
            Backend::Stub => "stub"@,
            Backend::Ascend => "ascend"@,
        }),
{
    reveal_strlit("stub");
    reveal_strlit("ascend");
    reveal_strlit("none");
    reveal_strlit("int8");
    reveal_strlit("awq-int4");
    reveal_strlit("0.6b");
    reveal_strlit("4b");
    reveal_strlit("8b");
    reveal_strlit("14b");
    assert("stub"@.len() == 4 && "ascend"@.len() == 6);
    assert("none"@[0] == 'n' && "int8"@[0] == 'i' && "awq-int4"@[0] == 'a');
    assert("0.6b"@[0] == '0' && "4b"@[0] == '4' && "8b"@[0] == '8' && "14b"@[0] == '1');
}

} // verus!
