//! The audio-side processing engine: a chain plus a bypass flag.
//!
//! The audio thread hands every input block to `process_audio`. Bypass is
//! checked first and forces pure pass-through. The host shares one engine
//! between the audio thread and its controller behind a lock, and the audio
//! thread must only ever try that lock without waiting: when the try fails
//! because a chain mutation is in flight, it skips processing for that block
//! (pass-through again) rather than stall. The skip-or-process decision is
//! the host's; everything the block goes through when the lock is held is
//! specified here.

use vstd::prelude::*;

use crate::chain::PluginChain;
use crate::chain::Processor;

verus! {

/// Processing chain and bypass flag, as the audio thread sees them.
#[derive(Debug)]
pub struct AudioProcessorEngine {
    pub plugin_chain: PluginChain,
    pub bypass: bool,
}

impl AudioProcessorEngine {
    /// An engine with an empty chain, not bypassed.
    pub fn new() -> (e: AudioProcessorEngine)
        ensures
            e.plugin_chain@ == Seq::<Processor>::empty(),
            !e.bypass,
    {
        AudioProcessorEngine { plugin_chain: PluginChain::new(), bypass: false }
    }

    /// The chain the engine applies.
    pub fn get_plugin_chain(&self) -> (c: &PluginChain)
        ensures
            c@ == self.plugin_chain@,
    {
        &self.plugin_chain
    }

    /// Force (or stop forcing) pure pass-through, independent of the
    /// chain's contents.
    pub fn set_bypass(&mut self, bypass: bool)
        ensures
            final(self).bypass == bypass,
            final(self).plugin_chain@ == old(self).plugin_chain@,
    {
        self.bypass = bypass;
    }

    /// Process one interleaved block in place: under bypass the chain is
    /// not consulted at all, otherwise the block runs through it. Every
    /// processor this engine can hold passes audio through untouched, so
    /// either way the block comes out byte-for-byte as it went in, and the
    /// engine is left as it was.
    pub fn process_audio(&mut self, buffer: &mut Vec<u32>)
        ensures
            final(buffer)@ == old(buffer)@,
            final(self).bypass == old(self).bypass,
            final(self).plugin_chain@ == old(self).plugin_chain@,
    {
        if self.bypass {
            return ;
        }
        if !self.plugin_chain.is_empty() {
            self.plugin_chain.process(buffer);
        }
    }
}

impl Default for AudioProcessorEngine {
    fn default() -> (e: AudioProcessorEngine)
        ensures
            e.plugin_chain@ == Seq::<Processor>::empty(),
            !e.bypass,
    {
        AudioProcessorEngine::new()
    }
}

} // verus!
