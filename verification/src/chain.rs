//! The processing chain: an ordered, capacity-bounded sequence of processors
//! applied in series to a block of samples.

use vstd::prelude::*;

use crate::au_wrapper::AudioUnitPlugin;
use crate::loader::DummyPlugin;
use crate::types::{AudioProcessor, PluginMetadata, PluginParameter, PluginState};

verus! {

/// Most processors a chain will hold.
pub const MAX_PLUGINS: usize = 8;

/// Why a chain operation failed. Every failing operation leaves the chain
/// exactly as it was.
#[derive(Debug, Clone, Copy, PartialEq, Eq, Structural)]
pub enum ChainError {
    /// The chain already holds `MAX_PLUGINS` processors.
    ChainFull,
    /// An index lay beyond the chain's current length.
    IndexOutOfRange,
}

/// A processor the chain can hold: one of the known plugin kinds, dispatched
/// by tag. Each kind implements the `AudioProcessor` capability contract,
/// and every method below forwards to it.
#[derive(Debug)]
pub enum Processor {
    /// The trivial pass-through plugin.
    Dummy(DummyPlugin),
    /// An AudioUnit plugin.
    AudioUnit(AudioUnitPlugin),
}

impl Processor {
    /// The processor's immutable metadata.
    pub open spec fn info(self) -> PluginMetadata {
        match self {
            Processor::Dummy(p) => p.metadata,
            Processor::AudioUnit(p) => p.metadata,
        }
    }

    /// Transform one interleaved block in place. Both plugin kinds pass
    /// audio through untouched, so the block comes out byte-for-byte as it
    /// went in and the processor is left as it was.
    pub fn process(&mut self, buffer: &mut Vec<u32>)
        ensures
            final(buffer)@ == old(buffer)@,
            *final(self) == *old(self),
    {
        match self {
            Processor::Dummy(p) => p.process(buffer),
            Processor::AudioUnit(p) => p.process(buffer),
        }
    }

    /// The metadata the processor was created with.
    pub fn get_info(&self) -> (info: &PluginMetadata)
        ensures
            *info == self.info(),
    {
        match self {
            Processor::Dummy(p) => p.get_info(),
            Processor::AudioUnit(p) => p.get_info(),
        }
    }

    /// Set a parameter to a normalized value (an `f64` bit pattern).
    /// Neither plugin kind exposes parameters, so nothing changes.
    pub fn set_parameter(&mut self, id: u32, value_bits: u64)
        ensures
            *final(self) == *old(self),
    {
        match self {
            Processor::Dummy(p) => p.set_parameter(id, value_bits),
            Processor::AudioUnit(p) => p.set_parameter(id, value_bits),
        }
    }

    /// Current normalized value of a parameter; no plugin kind exposes
    /// parameters, so there is none under any id.
    pub fn get_parameter(&self, id: u32) -> (r: Option<u64>)
        ensures
            r is None,
    {
        match self {
            Processor::Dummy(p) => p.get_parameter(id),
            Processor::AudioUnit(p) => p.get_parameter(id),
        }
    }

    /// Current state of every parameter: the empty list.
    pub fn get_all_parameters(&self) -> (params: Vec<PluginParameter>)
        ensures
            params@ == Seq::<PluginParameter>::empty(),
    {
        match self {
            Processor::Dummy(p) => p.get_all_parameters(),
            Processor::AudioUnit(p) => p.get_all_parameters(),
        }
    }

    /// Capture the processor's state: its own id, no parameters, an empty
    /// blob.
    pub fn save_state(&self) -> (state: PluginState)
        ensures
            state.plugin_id == self.info().id,
            state.parameters@ == Seq::<PluginParameter>::empty(),
            state.state_data@ == Seq::<char>::empty(),
    {
        match self {
            Processor::Dummy(p) => p.save_state(),
            Processor::AudioUnit(p) => p.save_state(),
        }
    }

    /// Restore a previously captured state. Neither plugin kind keeps
    /// restorable state, so nothing changes.
    pub fn load_state(&mut self, state: &PluginState)
        ensures
            *final(self) == *old(self),
    {
        match self {
            Processor::Dummy(p) => p.load_state(state),
            Processor::AudioUnit(p) => p.load_state(state),
        }
    }
}

/// Ordered sequence of processors, processing order = insertion order, at
/// most `MAX_PLUGINS` long. Index-based operations fail rather than clamp,
/// and a failed operation never changes the chain.
#[derive(Debug)]
pub struct PluginChain {
    plugins: Vec<Processor>,
}

impl View for PluginChain {
    type V = Seq<Processor>;

    closed spec fn view(&self) -> Seq<Processor> {
        self.plugins@
    }
}

impl PluginChain {
    pub fn new() -> (c: PluginChain)
        ensures
            c@ == Seq::<Processor>::empty(),
    {
        PluginChain { plugins: Vec::new() }
    }

    /// Append a processor at the end; fails with `ChainFull` when the chain
    /// already holds `MAX_PLUGINS`, leaving the chain unchanged.
    pub fn add_plugin(&mut self, plugin: Processor) -> (r: Result<(), ChainError>)
        ensures
            old(self)@.len() < MAX_PLUGINS ==> r is Ok && final(self)@ == old(self)@.push(plugin),
            old(self)@.len() >= MAX_PLUGINS ==> r == Err::<(), ChainError>(ChainError::ChainFull)
                && final(self)@ == old(self)@,
    {
        if self.plugins.len() >= MAX_PLUGINS {
            return Err(ChainError::ChainFull);
        }
        self.plugins.push(plugin);
        Ok(())
    }

    /// Insert a processor at `index`; fails with `ChainFull` when the chain
    /// is full, else with `IndexOutOfRange` when `index > len`, in both
    /// cases leaving the chain unchanged.
    pub fn insert_plugin(&mut self, index: usize, plugin: Processor) -> (r: Result<(), ChainError>)
        ensures
            old(self)@.len() >= MAX_PLUGINS ==> r == Err::<(), ChainError>(ChainError::ChainFull)
                && final(self)@ == old(self)@,
            old(self)@.len() < MAX_PLUGINS && index > old(self)@.len() ==> r == Err::<
                (),
                ChainError,
            >(ChainError::IndexOutOfRange) && final(self)@ == old(self)@,
            old(self)@.len() < MAX_PLUGINS && index <= old(self)@.len() ==> r is Ok && final(self)@
                == old(self)@.insert(index as int, plugin),
    {
        if self.plugins.len() >= MAX_PLUGINS {
            return Err(ChainError::ChainFull);
        }
        if index > self.plugins.len() {
            return Err(ChainError::IndexOutOfRange);
        }
        self.plugins.insert(index, plugin);
        Ok(())
    }

    /// Remove and return the processor at `index`; fails with
    /// `IndexOutOfRange` when `index >= len`, leaving the chain unchanged.
    pub fn remove_plugin(&mut self, index: usize) -> (r: Result<Processor, ChainError>)
        ensures
            index >= old(self)@.len() ==> (r matches Err(e) && e == ChainError::IndexOutOfRange
                && final(self)@ == old(self)@),
            index < old(self)@.len() ==> (r matches Ok(p) && p == old(self)@[index as int]
                && final(self)@ == old(self)@.remove(index as int)),
    {
        if index >= self.plugins.len() {
            return Err(ChainError::IndexOutOfRange);
        }
        Ok(self.plugins.remove(index))
    }

    /// Move the processor at `from` so that it sits at `to`; fails with
    /// `IndexOutOfRange` when either index is `>= len`, leaving the chain
    /// unchanged.
    pub fn move_plugin(&mut self, from: usize, to: usize) -> (r: Result<(), ChainError>)
        ensures
            from >= old(self)@.len() || to >= old(self)@.len() ==> r == Err::<(), ChainError>(
                ChainError::IndexOutOfRange,
            ) && final(self)@ == old(self)@,
            from < old(self)@.len() && to < old(self)@.len() ==> r is Ok && final(self)@
                == old(self)@.remove(from as int).insert(to as int, old(self)@[from as int]),
    {
        if from >= self.plugins.len() || to >= self.plugins.len() {
            return Err(ChainError::IndexOutOfRange);
        }
        let plugin = self.plugins.remove(from);
        self.plugins.insert(to, plugin);
        Ok(())
    }

    /// Drop every processor.
    pub fn clear(&mut self)
        ensures
            final(self)@ == Seq::<Processor>::empty(),
    {
        self.plugins.clear();
    }

    /// How many processors the chain holds.
    pub fn len(&self) -> (n: usize)
        ensures
            n == self@.len(),
    {
        self.plugins.len()
    }

    pub fn is_empty(&self) -> (r: bool)
        ensures
            r == (self@.len() == 0),
    {
        self.plugins.is_empty()
    }

    /// Run the block through every processor in chain order, each receiving
    /// the previous one's output in place; an empty chain is pure
    /// pass-through. Every processor the chain can hold passes audio
    /// through untouched, so the block comes out byte-for-byte as it went
    /// in and the chain is left as it was.
    pub fn process(&mut self, buffer: &mut Vec<u32>)
        ensures
            final(buffer)@ == old(buffer)@,
            final(self)@ == old(self)@,
    {
        if self.plugins.is_empty() {
            return ;
        }
        let n = self.plugins.len();
        let mut i: usize = 0;
        while i < n
            invariant
                n == self.plugins@.len(),
                i <= n,
                buffer@ == old(buffer)@,
                self.plugins@ == old(self)@,
            decreases n - i,
        {
            let p = &mut self.plugins[i];
            p.process(buffer);
            proof {
                assert(self.plugins@ =~= old(self)@);
            }
            i = i + 1;
        }
    }

    /// The display names of the processors, in chain order.
    pub fn get_plugin_names(&self) -> (names: Vec<String>)
        ensures
            names@.len() == self@.len(),
            forall|i: int| 0 <= i < self@.len() ==> names@[i] == self@[i].info().name,
    {
        let mut names: Vec<String> = Vec::new();
        let n = self.plugins.len();
        let mut i: usize = 0;
        while i < n
            invariant
                n == self.plugins@.len(),
                self@ == self.plugins@,
                i <= n,
                names@.len() == i,
                forall|j: int| 0 <= j < i ==> names@[j] == self@[j].info().name,
            decreases n - i,
        {
            names.push(self.plugins[i].get_info().name.clone());
            i = i + 1;
        }
        names
    }

    /// Capture every processor's state, in chain order; entry `i` carries
    /// the id of processor `i`, an empty parameter list and an empty blob.
    pub fn save_chain_state(&self) -> (states: Vec<PluginState>)
        ensures
            states@.len() == self@.len(),
            forall|i: int|
                0 <= i < self@.len() ==> states@[i].plugin_id == self@[i].info().id,
            forall|i: int|
                0 <= i < self@.len() ==> states@[i].parameters@ == Seq::<
                    PluginParameter,
                >::empty() && states@[i].state_data@ == Seq::<char>::empty(),
    {
        let mut states: Vec<PluginState> = Vec::new();
        let n = self.plugins.len();
        let mut i: usize = 0;
        while i < n
            invariant
                n == self.plugins@.len(),
                self@ == self.plugins@,
                i <= n,
                states@.len() == i,
                forall|j: int| 0 <= j < i ==> states@[j].plugin_id == self@[j].info().id,
                forall|j: int|
                    0 <= j < i ==> states@[j].parameters@ == Seq::<PluginParameter>::empty()
                        && states@[j].state_data@ == Seq::<char>::empty(),
            decreases n - i,
        {
            states.push(self.plugins[i].save_state());
            i = i + 1;
        }
        states
    }

    /// Hand each processor its saved state, pairing them in order. When the
    /// number of states differs from the chain's length nothing at all is
    /// offered: the states are never applied partially or reordered to fit.
    /// Neither plugin kind keeps restorable state, so the chain is left as
    /// it was in every case.
    pub fn load_chain_state(&mut self, states: &Vec<PluginState>)
        ensures
            final(self)@ == old(self)@,
    {
        if states.len() != self.plugins.len() {
            return ;
        }
        let n = self.plugins.len();
        let mut i: usize = 0;
        while i < n
            invariant
                n == self.plugins@.len(),
                n == states@.len(),
                i <= n,
                self.plugins@ == old(self)@,
            decreases n - i,
        {
            let p = &mut self.plugins[i];
            p.load_state(&states[i]);
            proof {
                assert(self.plugins@ =~= old(self)@);
            }
            i = i + 1;
        }
    }
}

impl Default for PluginChain {
    fn default() -> (c: PluginChain)
        ensures
            c@ == Seq::<Processor>::empty(),
    {
        PluginChain::new()
    }
}

} // verus!
