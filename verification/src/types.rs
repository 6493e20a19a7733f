//! Data model of the plugin system: metadata, parameters, saved state, and
//! the capability contract every audio processor offers.

use vstd::prelude::*;

verus! {

/// Format a plugin binary comes in. Only the native AudioUnit format exists
/// today; the enum leaves room for more.
#[derive(Debug, Clone, Copy, PartialEq, Eq, Structural)]
pub enum PluginFormat {
    AudioUnit,
}

/// Immutable description of a plugin: identity, origin and channel layout.
#[derive(Debug)]
pub struct PluginMetadata {
    /// Globally unique identifier.
    pub id: String,
    /// Display name.
    pub name: String,
    /// Vendor name.
    pub vendor: String,
    /// Version string.
    pub version: String,
    /// Filesystem path of the plugin bundle.
    pub path: String,
    /// Binary format.
    pub format: PluginFormat,
    /// Input channel count.
    pub num_inputs: u32,
    /// Output channel count.
    pub num_outputs: u32,
}

impl Clone for PluginMetadata {
    fn clone(&self) -> (r: PluginMetadata)
        ensures
            r == *self,
    {
        PluginMetadata {
            id: self.id.clone(),
            name: self.name.clone(),
            vendor: self.vendor.clone(),
            version: self.version.clone(),
            path: self.path.clone(),
            format: self.format,
            num_inputs: self.num_inputs,
            num_outputs: self.num_outputs,
        }
    }
}

/// One plugin parameter. The normalized value lives in `[0, 1]` of the
/// 64-bit float domain; it is carried here as its bit pattern
/// (`f64::to_bits`), which the host converts at its numeric edge.
#[derive(Debug)]
pub struct PluginParameter {
    /// Parameter identifier.
    pub id: u32,
    /// Parameter name.
    pub name: String,
    /// Bit pattern of the normalized parameter value.
    pub value_bits: u64,
    /// Text the parameter value is displayed as.
    pub display: String,
}

impl Clone for PluginParameter {
    fn clone(&self) -> (r: PluginParameter)
        ensures
            r == *self,
    {
        PluginParameter {
            id: self.id,
            name: self.name.clone(),
            value_bits: self.value_bits,
            display: self.display.clone(),
        }
    }
}

/// Saved state of one plugin: produced by its `save_state`, consumed by the
/// same plugin (matched by id) on `load_state`.
#[derive(Debug)]
pub struct PluginState {
    /// Id of the plugin the state belongs to.
    pub plugin_id: String,
    /// Current parameter values, in the plugin's order.
    pub parameters: Vec<PluginParameter>,
    /// Opaque serialized state blob (base64 text; may be empty).
    pub state_data: String,
}

/// Why loading a plugin failed.
#[derive(Debug)]
pub enum LoadError {
    /// The scan marked the plugin invalid; the recorded reason, if any.
    InvalidPlugin { reason: Option<String> },
}

/// The capability contract of an audio processor: an in-place transform of
/// an interleaved stereo block of samples (`f32` bit patterns), plus
/// immutable metadata, parameter access and state save/load. The chain holds
/// any object that offers this; implementations backing real plugin binaries
/// live with the host, and a trivial pass-through implementation exists for
/// exercising the chain in isolation.
pub trait AudioProcessor {
    /// The processor's immutable metadata.
    spec fn info_spec(&self) -> PluginMetadata;

    /// Transform one interleaved block in place. The block keeps its length,
    /// and the processor's identity does not change.
    fn process(&mut self, buffer: &mut Vec<u32>)
        ensures
            final(buffer)@.len() == old(buffer)@.len(),
            final(self).info_spec() == old(self).info_spec(),
    ;

    /// The metadata the processor was created with.
    fn get_info(&self) -> (info: &PluginMetadata)
        ensures
            *info == self.info_spec(),
    ;

    /// Set a parameter to a normalized value (an `f64` bit pattern).
    fn set_parameter(&mut self, id: u32, value_bits: u64)
        ensures
            final(self).info_spec() == old(self).info_spec(),
    ;

    /// Current normalized value of a parameter, if the parameter exists.
    fn get_parameter(&self, id: u32) -> Option<u64>;

    /// Current state of every parameter.
    fn get_all_parameters(&self) -> Vec<PluginParameter>;

    /// Capture the processor's state under its own id.
    fn save_state(&self) -> (state: PluginState)
        ensures
            state.plugin_id == self.info_spec().id,
    ;

    /// Restore a previously captured state.
    fn load_state(&mut self, state: &PluginState)
        ensures
            final(self).info_spec() == old(self).info_spec(),
    ;
}

} // verus!
