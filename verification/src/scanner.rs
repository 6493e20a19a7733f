//! Plugin scanning: turning a bundle path into a scan record.
//!
//! Walking the plugin directories and probing the filesystem are the host's
//! work; what is decided here is how one candidate path becomes a
//! `PluginInfo`, given whether the bundle's binary was found on disk.

use vstd::prelude::*;
use vstd::string::*;

use crate::paths::{file_stem, spec_file_stem};
use crate::types::{PluginFormat, PluginMetadata};

verus! {

/// One scan result: the metadata derived for a candidate plugin, whether it
/// looked loadable, and the reason if it did not.
#[derive(Debug)]
pub struct PluginInfo {
    pub metadata: PluginMetadata,
    pub valid: bool,
    pub error: Option<String>,
}

/// Why scanning one candidate path failed.
#[derive(Debug, Clone, Copy, PartialEq, Eq, Structural)]
pub enum ScanError {
    /// The path has no file stem to name the plugin by.
    InvalidName,
    /// The bundle holds no binary where one was expected.
    MissingBinary,
}

/// Scans AudioUnit bundles and keeps the scan cache's location.
#[derive(Debug)]
pub struct PluginScanner {
    pub cache_file: String,
}

impl PluginScanner {
    /// The cache sits beside the program, under a fixed name.
    pub fn new() -> (s: PluginScanner)
        ensures
            s.cache_file@ == "plugin_cache.json"@,
    {
        PluginScanner { cache_file: "plugin_cache.json".to_owned() }
    }

    /// Describe the plugin bundle at `path`. The name is the path's file
    /// stem; `binary_present` says whether the bundle's binary was found at
    /// `Contents/MacOS/<name>` inside the bundle. The vendor and version
    /// are placeholders until the binary itself is read.
    pub fn scan_plugin(&self, path: &str, binary_present: bool) -> (r: Result<
        PluginInfo,
        ScanError,
    >)
        ensures
            spec_file_stem(path@) is None ==> r == Err::<PluginInfo, ScanError>(
                ScanError::InvalidName,
            ),
            spec_file_stem(path@) is Some && !binary_present ==> r == Err::<
                PluginInfo,
                ScanError,
            >(ScanError::MissingBinary),
            spec_file_stem(path@) is Some && binary_present ==> (r matches Ok(info) && {
                let stem = spec_file_stem(path@)->0;
                &&& info.valid
                &&& info.error is None
                &&& info.metadata.id@ == "au:"@ + stem
                &&& info.metadata.name@ == stem
                &&& info.metadata.vendor@ == "Unknown"@
                &&& info.metadata.version@ == "0.0.0"@
                &&& info.metadata.path@ == path@
                &&& info.metadata.format == PluginFormat::AudioUnit
                &&& info.metadata.num_inputs == 2
                &&& info.metadata.num_outputs == 2
            }),

    {
        let name: String = match file_stem(path) {
            Some(stem) => stem,
            None => {
                return Err(ScanError::InvalidName);
            },
        };
        if !binary_present {
            return Err(ScanError::MissingBinary);
        }
        let mut id: String = "au:".to_owned();
        id.append(name.as_str());
        let metadata = PluginMetadata {
            id,
            name,
            vendor: "Unknown".to_owned(),
            version: "0.0.0".to_owned(),
            path: path.to_owned(),
            format: PluginFormat::AudioUnit,
            num_inputs: 2,
            num_outputs: 2,
        };
        Ok(PluginInfo { metadata, valid: true, error: None })
    }
}

impl Default for PluginScanner {
    fn default() -> (s: PluginScanner)
        ensures
            s.cache_file@ == "plugin_cache.json"@,
    {
        PluginScanner::new()
    }
}

} // verus!
