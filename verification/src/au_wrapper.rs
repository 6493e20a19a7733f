//! AudioUnit plugin wrapper.
//!
//! Loading derives the plugin's identity from its bundle path alone: the
//! display name is the path's file stem (or `Unknown` if the path has none)
//! and the id prefixes it with `au:`. Driving the plugin binary itself is
//! the host's integration work; as far as this crate is concerned an
//! AudioUnit processor passes audio through untouched and offers an empty
//! parameter surface, exactly as its contracts state.

use vstd::prelude::*;
use vstd::string::*;

use crate::paths::{file_stem, spec_file_stem};
use crate::types::{
    AudioProcessor, LoadError, PluginFormat, PluginMetadata, PluginParameter, PluginState,
};

verus! {

/// The display name `load` derives from a bundle path: the file stem, or
/// `Unknown` when the path has none.
pub open spec fn spec_loaded_name(path: Seq<char>) -> Seq<char> {
    match spec_file_stem(path) {
        Some(stem) => stem,
        None => "Unknown"@,
    }
}

/// Does this metadata describe what `load` builds for the given path?
pub open spec fn is_loaded_metadata(m: PluginMetadata, path: Seq<char>) -> bool {
    &&& m.id@ == "au:"@ + spec_loaded_name(path)
    &&& m.name@ == spec_loaded_name(path)
    &&& m.vendor@ == "Unknown"@
    &&& m.version@ == "1.0.0"@
    &&& m.path@ == path
    &&& m.format == PluginFormat::AudioUnit
    &&& m.num_inputs == 2
    &&& m.num_outputs == 2
}

/// A plugin in the native AudioUnit format.
#[derive(Debug)]
pub struct AudioUnitPlugin {
    pub metadata: PluginMetadata,
}

impl AudioUnitPlugin {
    /// Load the plugin bundle at the given path. The identity comes from the
    /// path; stereo in and out are assumed until the binary is queried.
    pub fn load(path: &str) -> (r: Result<AudioUnitPlugin, LoadError>)
        ensures
            r matches Ok(p) && is_loaded_metadata(p.metadata, path@),
    {
        let name: String = match file_stem(path) {
            Some(stem) => stem,
            None => "Unknown".to_owned(),
        };
        let mut id: String = "au:".to_owned();
        id.append(name.as_str());
        let metadata = PluginMetadata {
            id,
            name,
            vendor: "Unknown".to_owned(),
            version: "1.0.0".to_owned(),
            path: path.to_owned(),
            format: PluginFormat::AudioUnit,
            num_inputs: 2,
            num_outputs: 2,
        };
        Ok(AudioUnitPlugin { metadata })
    }

    /// Load the plugin a scan described, from the path its metadata records.
    pub fn from_metadata(metadata: PluginMetadata) -> (r: Result<AudioUnitPlugin, LoadError>)
        ensures
            r matches Ok(p) && is_loaded_metadata(p.metadata, metadata.path@),
    {
        AudioUnitPlugin::load(metadata.path.as_str())
    }
}

impl AudioProcessor for AudioUnitPlugin {
    open spec fn info_spec(&self) -> PluginMetadata {
        self.metadata
    }

    /// Pass-through: the block comes out byte-for-byte as it went in.
    fn process(&mut self, buffer: &mut Vec<u32>)
        ensures
            final(buffer)@ == old(buffer)@,
            *final(self) == *old(self),
    {
    }

    fn get_info(&self) -> (info: &PluginMetadata) {
        &self.metadata
    }

    /// The binary's parameters are not exposed; setting one changes nothing.
    fn set_parameter(&mut self, id: u32, value_bits: u64)
        ensures
            *final(self) == *old(self),
    {
    }

    /// No parameter is exposed under any id.
    fn get_parameter(&self, id: u32) -> (r: Option<u64>)
        ensures
            r is None,
    {
        None
    }

    /// The exposed parameter surface is empty.
    fn get_all_parameters(&self) -> (params: Vec<PluginParameter>)
        ensures
            params@ == Seq::<PluginParameter>::empty(),
    {
        Vec::new()
    }

    /// The state is the plugin's id with no parameters and an empty blob.
    fn save_state(&self) -> (state: PluginState)
        ensures
            state.parameters@ == Seq::<PluginParameter>::empty(),
            state.state_data@ == Seq::<char>::empty(),
    {
        PluginState {
            plugin_id: self.metadata.id.clone(),
            parameters: Vec::new(),
            state_data: String::new(),
        }
    }

    /// No state reaches the binary; loading changes nothing.
    fn load_state(&mut self, state: &PluginState)
        ensures
            *final(self) == *old(self),
    {
    }
}

/// Enumerate the AudioUnit components installed on the system. Component
/// discovery is not wired up, so the list is empty.
pub fn enumerate_audio_units() -> (r: Result<Vec<PluginMetadata>, LoadError>)
    ensures
        r matches Ok(v) && v@ == Seq::<PluginMetadata>::empty(),
{
    Ok(Vec::new())
}

} // verus!
