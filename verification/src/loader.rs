//! Plugin loading and the trivial pass-through plugin.

use vstd::prelude::*;

use crate::au_wrapper::{is_loaded_metadata, AudioUnitPlugin};
use crate::chain::Processor;
use crate::scanner::PluginInfo;
use crate::types::{
    AudioProcessor, LoadError, PluginMetadata, PluginParameter, PluginState,
};

verus! {

/// Pass-through plugin: identity processing and an empty parameter surface,
/// for exercising the chain without a real plugin binary.
#[derive(Debug)]
pub struct DummyPlugin {
    pub metadata: PluginMetadata,
}

impl DummyPlugin {
    pub fn new(metadata: PluginMetadata) -> (p: DummyPlugin)
        ensures
            p.metadata == metadata,
    {
        DummyPlugin { metadata }
    }
}

impl AudioProcessor for DummyPlugin {
    open spec fn info_spec(&self) -> PluginMetadata {
        self.metadata
    }

    /// Identity: the block comes out byte-for-byte as it went in.
    fn process(&mut self, buffer: &mut Vec<u32>)
        ensures
            final(buffer)@ == old(buffer)@,
            *final(self) == *old(self),
    {
    }

    fn get_info(&self) -> (info: &PluginMetadata) {
        &self.metadata
    }

    /// No parameters exist, so setting one changes nothing.
    fn set_parameter(&mut self, id: u32, value_bits: u64)
        ensures
            *final(self) == *old(self),
    {
    }

    /// No parameter exists under any id.
    fn get_parameter(&self, id: u32) -> (r: Option<u64>)
        ensures
            r is None,
    {
        None
    }

    /// The parameter surface is empty.
    fn get_all_parameters(&self) -> (params: Vec<PluginParameter>)
        ensures
            params@ == Seq::<PluginParameter>::empty(),
    {
        Vec::new()
    }

    /// The state is the plugin's id with no parameters and an empty blob.
    fn save_state(&self) -> (state: PluginState)
        ensures
            state.parameters@ == Seq::<PluginParameter>::empty(),
            state.state_data@ == Seq::<char>::empty(),
    {
        PluginState {
            plugin_id: self.metadata.id.clone(),
            parameters: Vec::new(),
            state_data: String::new(),
        }
    }

    /// There is no state to restore; loading changes nothing.
    fn load_state(&mut self, state: &PluginState)
        ensures
            *final(self) == *old(self),
    {
    }
}

/// Index of the first entry of `ids` equal to `id`, or -1 if none.
pub open spec fn first_index_of(ids: Seq<String>, id: Seq<char>) -> int
    decreases ids.len(),
{
    if ids.len() == 0 {
        -1
    } else if ids[0]@ == id {
        0
    } else {
        let rest = first_index_of(ids.skip(1), id);
        if rest == -1 {
            -1
        } else {
            rest + 1
        }
    }
}

/// Loads AudioUnit plugins and remembers the ids of the ones it loaded.
#[derive(Debug)]
pub struct PluginLoader {
    loaded_plugins: Vec<String>,
}

impl PluginLoader {
    pub fn new() -> (l: PluginLoader)
        ensures
            l@ == Seq::<String>::empty(),
    {
        PluginLoader { loaded_plugins: Vec::new() }
    }

    /// The ids of the plugins loaded through this loader, oldest first.
    pub closed spec fn view(&self) -> Seq<String> {
        self.loaded_plugins@
    }

    /// Load the plugin bundle at a path and record its id.
    pub fn load_plugin(&mut self, path: &str) -> (r: Result<Processor, LoadError>)
        ensures
            r matches Ok(p) && is_loaded_metadata(p.info(), path@),
            final(self)@.len() == old(self)@.len() + 1,
            final(self)@.last()@ == "au:"@ + crate::au_wrapper::spec_loaded_name(path@),
            final(self)@.take(old(self)@.len() as int) == old(self)@,
    {
        let plugin = match AudioUnitPlugin::load(path) {
            Ok(p) => p,
            Err(e) => {
                return Err(e);
            },
        };
        self.loaded_plugins.push(plugin.metadata.id.clone());
        proof {
            assert(final(self)@.take(old(self)@.len() as int) =~= old(self)@);
        }
        Ok(Processor::AudioUnit(plugin))
    }

    /// Load a plugin from a scan entry. An entry the scan marked invalid is
    /// refused, the error carrying the reason the scan recorded, and the id
    /// list is left as it was; a valid entry loads from the recorded path
    /// and appends its id, exactly as `load_plugin` does.
    pub fn load_from_info(&mut self, info: &PluginInfo) -> (r: Result<Processor, LoadError>)
        ensures
            !info.valid ==> r == Err::<Processor, LoadError>(
                (LoadError::InvalidPlugin { reason: info.error }),
            ) && final(self)@ == old(self)@,
            info.valid ==> (r matches Ok(p) && is_loaded_metadata(p.info(), info.metadata.path@)),
            info.valid ==> final(self)@.len() == old(self)@.len() + 1 && final(self)@.last()@
                == "au:"@ + crate::au_wrapper::spec_loaded_name(info.metadata.path@)
                && final(self)@.take(old(self)@.len() as int) == old(self)@,
    {
        if !info.valid {
            let reason: Option<String> = match &info.error {
                Some(e) => Some(e.clone()),
                None => None,
            };
            return Err(LoadError::InvalidPlugin { reason });
        }
        self.load_plugin(info.metadata.path.as_str())
    }

    /// Load a plugin from its metadata, by the path the metadata records,
    /// appending its id as `load_plugin` does.
    pub fn load_from_metadata(&mut self, metadata: &PluginMetadata) -> (r: Result<
        Processor,
        LoadError,
    >)
        ensures
            r matches Ok(p) && is_loaded_metadata(p.info(), metadata.path@),
            final(self)@.len() == old(self)@.len() + 1,
            final(self)@.last()@ == "au:"@ + crate::au_wrapper::spec_loaded_name(metadata.path@),
            final(self)@.take(old(self)@.len() as int) == old(self)@,
    {
        self.load_plugin(metadata.path.as_str())
    }

    /// Release a plugin and forget the first record of its id, if one is
    /// still listed.
    pub fn unload_plugin(&mut self, plugin: Processor)
        ensures
            ({
                let pos = first_index_of(old(self)@, plugin.info().id@);
                if pos == -1 {
                    final(self)@ == old(self)@
                } else {
                    final(self)@ == old(self)@.remove(pos)
                }
            }),
    {
        let id = plugin.get_info().id.clone();
        let n = self.loaded_plugins.len();
        let mut i: usize = 0;
        while i < n
            invariant
                n == self.loaded_plugins@.len(),
                i <= n,
                self.loaded_plugins@ == old(self)@,
                forall|m: int| 0 <= m < i ==> self.loaded_plugins@[m]@ != id@,
                id@ == plugin.info().id@,
            decreases n - i,
        {
            if self.loaded_plugins[i] == id {
                proof {
                    lemma_first_index_found(self.loaded_plugins@, id@, i as int);
                }
                self.loaded_plugins.remove(i);
                return ;
            }
            i = i + 1;
        }
        proof {
            lemma_first_index_missing(self.loaded_plugins@, id@);
        }
    }

    /// The ids of the plugins loaded so far.
    pub fn get_loaded_plugins(&self) -> (ids: &Vec<String>)
        ensures
            ids@ == self@,
    {
        &self.loaded_plugins
    }
}

impl Default for PluginLoader {
    fn default() -> (l: PluginLoader)
        ensures
            l@ == Seq::<String>::empty(),
    {
        PluginLoader::new()
    }
}

proof fn lemma_first_index_found(ids: Seq<String>, id: Seq<char>, k: int)
    requires
        0 <= k < ids.len(),
        ids[k]@ == id,
        forall|m: int| 0 <= m < k ==> ids[m]@ != id,
    ensures
        first_index_of(ids, id) == k,
    decreases ids.len(),
{
    if k == 0 {
    } else {
        assert(ids[0]@ != id);
        assert(ids.skip(1)[k - 1] == ids[k]);
        assert(forall|m: int| 0 <= m < k - 1 ==> ids.skip(1)[m] == ids[m + 1]);
        lemma_first_index_found(ids.skip(1), id, k - 1);
    }
}

proof fn lemma_first_index_missing(ids: Seq<String>, id: Seq<char>)
    requires
        forall|m: int| 0 <= m < ids.len() ==> ids[m]@ != id,
    ensures
        first_index_of(ids, id) == -1,
    decreases ids.len(),
{
    if ids.len() == 0 {
    } else {
        assert(ids[0]@ != id);
        assert(forall|m: int| 0 <= m < ids.len() - 1 ==> ids.skip(1)[m] == ids[m + 1]);
        lemma_first_index_missing(ids.skip(1), id);
    }
}

} // verus!
