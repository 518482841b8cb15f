//! `robo init`: turning a profile, what a project's files show and the
//! command line into the runtime description robo writes.
use vstd::prelude::*;

pub mod manifest;
pub mod spec;
pub mod probe;
pub mod pipeline;

verus! {

/// The options of `robo init`.
pub struct InitArgs {
    /// Project directory to initialize.
    pub target: Option<String>,
    /// Run the guided initializer.
    pub interactive: bool,
    /// List recommended starter profiles.
    pub list_profiles: bool,
    /// List reusable runtime components.
    pub list_components: bool,
    /// Print the generated flake instead of writing files.
    pub stdout: bool,
    /// Overwrite the generated flake.
    pub force: bool,
    /// Build the runtime after writing project files.
    pub build: bool,
    /// Environment name.
    pub name: Option<String>,
    /// Apply a recommended profile.
    pub profile: Option<String>,
    /// Add comma-separated components.
    pub with_components: Option<String>,
    /// Disable pyproject/workspace runtime probing.
    pub no_probe: bool,
    /// Environment description.
    pub description: Option<String>,
    /// Workspace root inside the project.
    pub workspace_root: String,
    /// Comma-separated component names.
    pub components: Option<String>,
    /// Python version for the Nix interpreter and uv project files.
    pub python_version: Option<String>,
    /// Comma-separated Nix systems.
    pub systems: Option<String>,
    /// Project-owned directories the runtime requires.
    pub required_dir: Vec<String>,
    /// Project-owned files the runtime requires.
    pub required_file: Vec<String>,
    /// Project-owned bootstrap scripts to source.
    pub source_script: Vec<String>,
    /// `NAME=VALUE` project runtime variables.
    pub env: Vec<String>,
    /// robo-nix input URL to embed in the flake.
    pub robo_nix_url: Option<String>,
}

impl InitArgs {
    /// The options another command uses to initialize a project: the target,
    /// whether to ask, whether to overwrite, and defaults for the rest.
    pub fn generated(target: String, interactive: bool, force: bool) -> (r: Self)
        ensures
            r.target matches Some(t) && t@ == target@,
            r.interactive == interactive,
            r.force == force,
            !r.list_profiles && !r.list_components && !r.stdout && !r.build && !r.no_probe,
            r.name is None && r.profile is None && r.with_components is None,
            r.description is None && r.components is None && r.python_version is None,
            r.systems is None && r.robo_nix_url is None,
            r.workspace_root@ == seq!['.'],
            r.required_dir@.len() == 0 && r.required_file@.len() == 0,
            r.source_script@.len() == 0 && r.env@.len() == 0,
    {
        let root = crate::text::string_of(&vec!['.']);
        InitArgs {
            target: Some(target),
            interactive,
            list_profiles: false,
            list_components: false,
            stdout: false,
            force,
            build: false,
            name: None,
            profile: None,
            with_components: None,
            no_probe: false,
            description: None,
            workspace_root: root,
            components: None,
            python_version: None,
            systems: None,
            required_dir: Vec::new(),
            required_file: Vec::new(),
            source_script: Vec::new(),
            env: Vec::new(),
            robo_nix_url: None,
        }
    }
}

} // verus!
