//! Configuration of the flow language model and of the audio codec, as the
//! model's yaml files lay it out (the integer and text parts).

use vstd::prelude::*;

verus! {

/// Flow network configuration.
#[derive(Debug, Clone)]
pub struct FlowConfig {
    pub dim: usize,
    pub depth: usize,
}

/// Transformer configuration of the flow language model.
#[derive(Debug, Clone)]
pub struct FlowLMTransformerConfig {
    pub hidden_scale: usize,
    pub max_period: usize,
    pub d_model: usize,
    pub num_heads: usize,
    pub num_layers: usize,
}

/// Lookup table (text conditioner) configuration.
#[derive(Debug, Clone)]
pub struct LookupTableConfig {
    pub dim: usize,
    pub n_bins: usize,
    pub tokenizer: String,
    pub tokenizer_path: String,
}

/// Flow language model configuration.
#[derive(Debug, Clone)]
pub struct FlowLMConfig {
    pub dtype: String,
    pub flow: FlowConfig,
    pub transformer: FlowLMTransformerConfig,
    pub lookup_table: LookupTableConfig,
    pub weights_path: Option<String>,
    /// Teacher models (such as the 24-layer Korean one) put a learned BOS
    /// frame before the voice-conditioning sequence.
    pub insert_bos_before_voice: bool,
}

/// SEANet encoder/decoder configuration.
#[derive(Debug, Clone)]
pub struct SEANetConfig {
    pub dimension: usize,
    pub channels: usize,
    pub n_filters: usize,
    pub n_residual_layers: usize,
    pub ratios: Vec<usize>,
    pub kernel_size: usize,
    pub residual_kernel_size: usize,
    pub last_kernel_size: usize,
    pub dilation_base: usize,
    pub pad_mode: String,
    pub compress: usize,
}

/// Quantizer configuration.
#[derive(Debug, Clone)]
pub struct QuantizerConfig {
    pub dimension: usize,
    pub output_dimension: usize,
}

} // verus!
