//! Stream pipeline decisions.
//!
//! The host opens the devices and registers the two hardware callbacks;
//! what is decided here is which sample formats a stream pair can be built
//! for, how large the bridging queue must be, and what one input callback
//! invocation does to the meter and the queue. Raw device samples are
//! normalized to the `[-1, 1]` float domain at the host's numeric edge and
//! travel through this crate as `f32` bit patterns.

use vstd::prelude::*;

use crate::meter::{meter_fold, LevelMeter};
use crate::processor::AudioProcessorEngine;
use crate::queue::{enqueue_result, queue_capacity, queue_samples, SampleQueue};

verus! {

/// Sample format a device advertises, as far as this pipeline cares: the
/// three formats it can normalize, and everything else.
#[derive(Debug, Clone, Copy, PartialEq, Eq, Structural)]
pub enum SampleFormat {
    /// 32-bit float, passed through unchanged.
    F32,
    /// Signed 16-bit, normalized by the signed maximum.
    I16,
    /// Unsigned 16-bit, mapped affinely onto `[-1, 1]`.
    U16,
    /// Any other advertised format; streams cannot be built for it.
    Other,
}

/// Why the stream pair could not be built.
#[derive(Debug, Clone, Copy, PartialEq, Eq, Structural)]
pub enum EngineError {
    /// The device's sample format is none of the supported three.
    UnsupportedFormat,
}

/// What the stream pair is built with: the negotiated format and the
/// capacity of the bridging queue.
#[derive(Debug, Clone, Copy, PartialEq, Eq, Structural)]
pub struct StreamPlan {
    pub format: SampleFormat,
    /// Queue capacity: two seconds of samples at the negotiated rate.
    pub queue_capacity: usize,
}

/// Decide whether streams can be built: any of the three supported formats
/// yields a plan with a two-second queue, any other format is refused.
/// The rate bounds are machine limits: the queue must have at least one
/// slot and its capacity must be a `usize`.
pub fn stream_plan(format: SampleFormat, sample_rate: u32) -> (r: Result<StreamPlan, EngineError>)
    requires
        1 <= sample_rate,
        2 * sample_rate <= usize::MAX,
    ensures
        format == SampleFormat::Other ==> r == Err::<StreamPlan, EngineError>(
            EngineError::UnsupportedFormat,
        ),
        format != SampleFormat::Other ==> r == Ok::<StreamPlan, EngineError>(
            (StreamPlan { format, queue_capacity: (2 * sample_rate) as usize }),
        ),
{
    match format {
        SampleFormat::Other => Err(EngineError::UnsupportedFormat),
        _ => Ok(StreamPlan { format, queue_capacity: (sample_rate as usize) * 2 }),
    }
}

/// One input callback invocation, after normalization: the block first
/// drives the level meter, then runs through the engine's processing
/// chain, and what the engine put out goes into the queue sample by
/// sample, each sample that finds the queue full being dropped. No step
/// can block or fail. The engine's processors all pass audio through, so
/// the block the queue receives equals the block that came in.
pub fn handle_input_block(
    meter: &mut LevelMeter,
    engine: &mut AudioProcessorEngine,
    queue: &mut SampleQueue,
    block: &mut Vec<u32>,
)
    ensures
        final(meter).peaks() == meter_fold(
            old(meter).peak_left,
            old(meter).peak_right,
            old(block)@,
        ),
        final(block)@ == old(block)@,
        final(engine).bypass == old(engine).bypass,
        final(engine).plugin_chain@ == old(engine).plugin_chain@,
        queue_capacity(*final(queue)) == queue_capacity(*old(queue)),
        queue_samples(*final(queue)) == enqueue_result(
            queue_samples(*old(queue)),
            queue_capacity(*old(queue)),
            final(block)@,
        ),
{
    meter.process_buffer(block);
    engine.process_audio(block);
    queue.push_block(block);
}

} // verus!
