//! Project state: a named, timestamped audio configuration together with a
//! saved processor-chain state, and the manager that keeps track of the
//! currently open project and where it is stored. Reading and writing the
//! project file itself is the host's work; everything decided about the
//! state lives here.

use vstd::prelude::*;
use vstd::string::*;

use crate::types::PluginState;

verus! {

/// Audio configuration a project records.
#[derive(Debug, Clone, Copy, PartialEq, Eq, Structural)]
pub struct AudioConfig {
    pub sample_rate: u32,
    pub buffer_size: u32,
    pub channels: u16,
}

impl Default for AudioConfig {
    /// 48 kHz stereo with a 256-frame buffer.
    fn default() -> (c: AudioConfig)
        ensures
            c.sample_rate == 48000,
            c.buffer_size == 256,
            c.channels == 2,
    {
        AudioConfig { sample_rate: 48000, buffer_size: 256, channels: 2 }
    }
}

/// Relies on `chrono::Local::now`: the current local time, formatted as
/// `%Y-%m-%d %H:%M:%S`. The result depends on the clock, so nothing is
/// assumed about it.
#[verifier::external_body]
fn now_string() -> String {
    chrono::Local::now().format("%Y-%m-%d %H:%M:%S").to_string()
}

/// One project: identity, timestamps, audio configuration and the saved
/// state of its processor chain.
#[derive(Debug)]
pub struct Project {
    pub name: String,
    pub version: String,
    /// Creation time, as local `%Y-%m-%d %H:%M:%S` text.
    pub created: String,
    /// Last-modified time, same format.
    pub modified: String,
    pub audio_config: AudioConfig,
    pub plugin_chain: Vec<PluginState>,
}

impl Project {
    /// A fresh project: just created, so created and modified coincide, the
    /// audio configuration is the default, and no chain state is stored.
    pub fn new(name: String) -> (p: Project)
        ensures
            p.name == name,
            p.version@ == "1.0"@,
            p.created == p.modified,
            p.audio_config == (AudioConfig { sample_rate: 48000, buffer_size: 256, channels: 2 }),
            p.plugin_chain@ == Seq::<PluginState>::empty(),
    {
        let now = now_string();
        Project {
            name,
            version: "1.0".to_owned(),
            created: now.clone(),
            modified: now,
            audio_config: AudioConfig::default(),
            plugin_chain: Vec::new(),
        }
    }

    /// Stamp the project as modified now; nothing else changes.
    pub fn touch_modified(&mut self)
        ensures
            final(self).name == old(self).name,
            final(self).version == old(self).version,
            final(self).created == old(self).created,
            final(self).audio_config == old(self).audio_config,
            final(self).plugin_chain == old(self).plugin_chain,
    {
        self.modified = now_string();
    }

    /// Replace the stored chain state.
    pub fn update_plugin_chain(&mut self, plugin_chain: Vec<PluginState>)
        ensures
            final(self).plugin_chain == plugin_chain,
            final(self).name == old(self).name,
            final(self).version == old(self).version,
            final(self).created == old(self).created,
            final(self).modified == old(self).modified,
            final(self).audio_config == old(self).audio_config,
    {
        self.plugin_chain = plugin_chain;
    }

    /// The stored chain state.
    pub fn get_plugin_chain(&self) -> (states: &Vec<PluginState>)
        ensures
            states == &self.plugin_chain,
    {
        &self.plugin_chain
    }
}

/// Why a project operation failed.
#[derive(Debug, Clone, Copy, PartialEq, Eq, Structural)]
pub enum ProjectError {
    /// No project is open.
    NoProjectOpen,
    /// The open project has no storage path yet; save it under a path first.
    NoPathSet,
}

/// Keeps the currently open project, if any, and the path it was opened
/// from or last saved to.
#[derive(Debug)]
pub struct ProjectManager {
    pub current_project: Option<Project>,
    pub current_path: Option<String>,
}

impl ProjectManager {
    pub fn new() -> (m: ProjectManager)
        ensures
            m.current_project is None,
            m.current_path is None,
    {
        ProjectManager { current_project: None, current_path: None }
    }

    /// Create a fresh project and make it current; it has no storage path
    /// until it is saved under one. Returns the project for further setup.
    pub fn new_project(&mut self, name: String) -> (p: &mut Project)
        ensures
            (*p).name == name,
            (*p).version@ == "1.0"@,
            (*p).created == (*p).modified,
            (*p).plugin_chain@ == Seq::<PluginState>::empty(),
            final(self).current_project == Some(*final(p)),
            final(self).current_path is None,
    {
        let project = Project::new(name);
        self.current_project = Some(project);
        self.current_path = None;
        match &mut self.current_project {
            Some(p) => p,
            None => unreached(),
        }
    }

    /// Make a project the host read from `path` the current one.
    pub fn open_project(&mut self, path: String, project: Project)
        ensures
            final(self).current_project == Some(project),
            final(self).current_path == Some(path),
    {
        self.current_path = Some(path);
        self.current_project = Some(project);
    }

    /// Stamp the current project as modified and say where the host should
    /// write it: its stored path. Fails if no project is open, or if the
    /// project has never been given a path; a failed call changes nothing.
    pub fn save_current(&mut self) -> (r: Result<String, ProjectError>)
        ensures
            old(self).current_project is None ==> r == Err::<String, ProjectError>(
                ProjectError::NoProjectOpen,
            ) && *final(self) == *old(self),
            old(self).current_project is Some && old(self).current_path is None ==> r == Err::<
                String,
                ProjectError,
            >(ProjectError::NoPathSet) && *final(self) == *old(self),
            old(self).current_project is Some && old(self).current_path is Some ==> r == Ok::<
                String,
                ProjectError,
            >(old(self).current_path->0) && final(self).current_path == old(self).current_path
                && project_touched(old(self).current_project->0, final(self).current_project),
    {
        if self.current_project.is_none() {
            return Err(ProjectError::NoProjectOpen);
        }
        let path = match &self.current_path {
            Some(p) => p.clone(),
            None => {
                return Err(ProjectError::NoPathSet);
            },
        };
        match &mut self.current_project {
            Some(p) => p.touch_modified(),
            None => unreached(),
        }
        Ok(path)
    }

    /// Give the current project a storage path and stamp it as modified;
    /// the host then writes it there. Fails if no project is open, leaving
    /// the manager unchanged.
    pub fn save_as(&mut self, path: String) -> (r: Result<String, ProjectError>)
        ensures
            old(self).current_project is None ==> r == Err::<String, ProjectError>(
                ProjectError::NoProjectOpen,
            ) && *final(self) == *old(self),
            old(self).current_project is Some ==> r == Ok::<String, ProjectError>(path)
                && final(self).current_path == Some(path) && project_touched(
                old(self).current_project->0,
                final(self).current_project,
            ),
    {
        if self.current_project.is_none() {
            return Err(ProjectError::NoProjectOpen);
        }
        let stored = path.clone();
        self.current_path = Some(path);
        match &mut self.current_project {
            Some(p) => p.touch_modified(),
            None => unreached(),
        }
        Ok(stored)
    }

    /// The current project, if one is open.
    pub fn get_current_project(&self) -> (p: Option<&Project>)
        ensures
            match p {
                Some(pr) => self.current_project == Some(*pr),
                None => self.current_project is None,
            },
    {
        self.current_project.as_ref()
    }

    /// Close the current project; the manager forgets it and its path.
    pub fn close_project(&mut self)
        ensures
            final(self).current_project is None,
            final(self).current_path is None,
    {
        self.current_project = None;
        self.current_path = None;
    }
}

impl Default for ProjectManager {
    fn default() -> (m: ProjectManager)
        ensures
            m.current_project is None,
            m.current_path is None,
    {
        ProjectManager::new()
    }
}

/// Does `after` hold the same project as `before`, except that its
/// modified stamp may have moved?
pub open spec fn project_touched(before: Project, after: Option<Project>) -> bool {
    &&& after is Some
    &&& after->0.name == before.name
    &&& after->0.version == before.version
    &&& after->0.created == before.created
    &&& after->0.audio_config == before.audio_config
    &&& after->0.plugin_chain == before.plugin_chain
}

} // verus!
