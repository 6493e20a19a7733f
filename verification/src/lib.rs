//! Core of a real-time audio host: a peak level meter over sample bit
//! patterns, a bounded sample queue bridging the input and output callbacks,
//! a capacity-bounded chain of audio processors, and the project state that
//! persists a chain's processor settings.
//!
//! Samples travel through this crate as the bit patterns of 32-bit floats
//! (`u32`, as `f32::to_bits` yields them). The conversion between raw device
//! formats and the float domain, and the decibel read-out, are numeric work
//! done by the host program around this crate; everything here is stated and
//! proved over the bit patterns themselves.

mod au_wrapper;
mod chain;
mod device;
mod engine;
mod loader;
mod meter;
mod paths;
mod processor;
mod project;
mod queue;
mod scanner;
mod types;

pub use au_wrapper::{enumerate_audio_units, is_loaded_metadata, spec_loaded_name, AudioUnitPlugin};
pub use chain::{ChainError, PluginChain, Processor, MAX_PLUGINS};
pub use device::AudioDeviceConfig;
pub use engine::{handle_input_block, stream_plan, EngineError, SampleFormat, StreamPlan};
pub use loader::{first_index_of, DummyPlugin, PluginLoader};
pub use meter::{
    lemma_peak_is_running_max, mag_bits, meter_fold, step_peak, LevelMeter, SIGN_MASK,
};
pub use paths::{base_start, file_stem, last_dot_after, spec_file_stem};
pub use processor::AudioProcessorEngine;
pub use project::{project_touched, AudioConfig, Project, ProjectError, ProjectManager};
pub use queue::{
    enqueue_result, lemma_overflow_drops_newest, queue_capacity, queue_samples, SampleQueue,
};
pub use scanner::{PluginInfo, PluginScanner, ScanError};
pub use types::{
    AudioProcessor, LoadError, PluginFormat, PluginMetadata, PluginParameter, PluginState,
};
