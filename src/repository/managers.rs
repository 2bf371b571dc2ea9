//! The plugin managers whose repositories are reconciled. Each one's files and
//! commands are read by the caller; what is decided from them stands here.
use crate::repository::Repositories;
use vstd::prelude::*;

verus! {

/// Why a plugin manager's directory could not be found.
#[derive(Debug, Clone)]
pub enum DiscoveryError {
    /// The home directory is unknown.
    HomeNotFound,
    /// The plugin directory does not exist.
    PluginDirNotFound(String),
}

/// The plugin directory, where it exists.
pub fn existing_dir(dir: String, exists_on_disk: bool) -> (r: Result<String, DiscoveryError>)
    ensures
        exists_on_disk ==> (r matches Ok(d) && d@ == dir@),
        !exists_on_disk ==> (r matches Err(DiscoveryError::PluginDirNotFound(d)) && d@ == dir@),
{
    if exists_on_disk {
        Ok(dir)
    } else {
        Err(DiscoveryError::PluginDirNotFound(dir))
    }
}

/// The tmux plugin manager: its plugins are the subdirectories of the path in
/// `TMUX_PLUGIN_MANAGER_PATH`, looked at only while tmux runs.
pub struct Tpm;

impl Tpm {
    /// The plugin directory to list, if any.
    pub fn plugin_root(tmux_running: bool, env_path: Option<String>) -> (r: Option<String>)
        ensures
            r is Some <==> tmux_running && env_path is Some,
            r matches Some(p) ==> env_path matches Some(e) && p@ == e@,
    {
        if !tmux_running {
            return None;
        }
        env_path
    }
}

/// vim-plug, with its plugins below `~/.vim/plugged`.
pub struct VimPlug;

impl VimPlug {
    /// The plugin directory below the home directory.
    pub const PLUGIN_DIR: &'static str = ".vim/plugged";

    /// The plugin directory: `home_plugin_dir` is the home directory joined
    /// with `PLUGIN_DIR`, where the home directory is known.
    pub fn get_plugin_root_dir(home_plugin_dir: Option<String>, exists_on_disk: bool) -> (r: Result<
        String,
        DiscoveryError,
    >)
        ensures
            home_plugin_dir is None ==> (r matches Err(DiscoveryError::HomeNotFound)),
            home_plugin_dir matches Some(d) ==> (exists_on_disk ==> (r matches Ok(o) && o@ == d@)),
            home_plugin_dir matches Some(d) ==> (!exists_on_disk ==> (r matches Err(
                DiscoveryError::PluginDirNotFound(o),
            ) && o@ == d@)),
    {
        match home_plugin_dir {
            None => Err(DiscoveryError::HomeNotFound),
            Some(d) => existing_dir(d, exists_on_disk),
        }
    }
}

/// vim-plug as Neovim reports it: the plugins it lists, where it is installed.
pub struct VimPlugPure;

impl VimPlugPure {
    /// The repositories to reconcile: those listed, where vim-plug is present.
    pub fn get_repositories(plugin_manager_found: bool, listed: Repositories) -> (r: Repositories)
        ensures
            plugin_manager_found ==> r@ == listed@,
            !plugin_manager_found ==> r@.len() == 0,
    {
        if plugin_manager_found {
            listed
        } else {
            Vec::new()
        }
    }
}

/// zinit, which reports its plugin directory in `zinit zstatus`.
pub struct Zinit;

impl Zinit {
    /// The plugin directory that zinit reported, where it exists.
    pub fn get_plugin_root_dir(reported: String, exists_on_disk: bool) -> (r: Result<
        String,
        DiscoveryError,
    >)
        ensures
            exists_on_disk ==> (r matches Ok(d) && d@ == reported@),
            !exists_on_disk ==> r is Err,
    {
        existing_dir(reported, exists_on_disk)
    }
}

/// zplugin, zinit's former name, which reports its plugin directory in
/// `zplugin zstatus`.
pub struct Zplugin;

impl Zplugin {
    /// The plugin directory that zplugin reported, where it exists.
    pub fn get_plugin_root_dir(reported: String, exists_on_disk: bool) -> (r: Result<
        String,
        DiscoveryError,
    >)
        ensures
            exists_on_disk ==> (r matches Ok(d) && d@ == reported@),
            !exists_on_disk ==> r is Err,
    {
        existing_dir(reported, exists_on_disk)
    }
}

} // verus!
