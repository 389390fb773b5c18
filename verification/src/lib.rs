//! Incremental token-generation engine for tag-emitting causal language
//! models: the control-token vocabulary, the prompt composer, the sampling
//! configuration, the generation cache and the per-step decoding loop.
//!
//! Everything the engine decides or computes is verified here; the neural
//! forward pass, the tokenizer and the sampling of floating-point logits are
//! external collaborators reached through narrow trusted boundaries.

pub mod engine;
pub mod external;
pub mod generation;
pub mod prompt;
pub mod sampling;
pub mod tags;
