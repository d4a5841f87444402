//! The global settings page: what its switch and its path field do to the
//! global block of the store.

use crate::config::{Config, ConfigView, GlobalConfig, GlobalConfigView};
use vstd::prelude::*;

verus! {

impl ConfigView {
    /// The path of the custom library, where the store names one.
    pub open spec fn custom_dll(self) -> Option<Seq<char>> {
        match self.global {
            Some(global) => global.dll,
            None => None,
        }
    }

    /// This store with `path` as its custom library; the global block is
    /// added where the store had none.
    pub open spec fn with_custom_dll(self, path: Seq<char>) -> ConfigView {
        ConfigView { global: Some(GlobalConfigView { dll: Some(path) }), ..self }
    }

    /// This store without global settings.
    pub open spec fn without_global(self) -> ConfigView {
        ConfigView { global: None, ..self }
    }

    /// This store with its global block emptied of the custom library; a
    /// store without a global block stays without one.
    pub open spec fn with_path_cleared(self) -> ConfigView {
        match self.global {
            Some(_) => ConfigView { global: Some(GlobalConfigView { dll: None }), ..self },
            None => self,
        }
    }

    /// This store after the switch of the custom library was set to
    /// `active` while the path field held `path`: switched on, the global
    /// block names the path; switched off, there is no global block.
    pub open spec fn custom_dll_toggled(self, active: bool, path: Seq<char>) -> ConfigView {
        if active {
            self.with_custom_dll(path)
        } else {
            self.without_global()
        }
    }

    /// This store after the path field changed to `path` while the switch
    /// stood at `active`: with the switch off nothing changes; with it on,
    /// a path is taken over and an empty field clears the path of the
    /// block that the switch stands for.
    pub open spec fn custom_dll_path_changed(self, active: bool, path: Seq<char>) -> ConfigView {
        if !active {
            self
        } else if path.len() > 0 {
            self.with_custom_dll(path)
        } else {
            self.with_path_cleared()
        }
    }

    /// The global block as the file is to hold it: the block where it names
    /// a custom library, and none otherwise, so that the file has a global
    /// block only for a configured path.
    pub open spec fn persisted_global(self) -> Option<GlobalConfigView> {
        match self.custom_dll() {
            Some(path) => Some(GlobalConfigView { dll: Some(path) }),
            None => None,
        }
    }
}

/// The path of the custom library with which the page opens: the switch
/// is on exactly where there is one.
pub fn custom_dll_path(config: &Config) -> (path: Option<String>)
    ensures
        match path {
            Some(found) => config@.custom_dll() == Some(found@),
            None => config@.custom_dll() is None,
        },
{
    match &config.ordered_global.global {
        Some(global) => match &global.dll {
            Some(path) => Some(path.clone()),
            None => None,
        },
        None => None,
    }
}

/// Takes over the switch of the custom library: switched on, the store
/// names the path that the field holds; switched off, the store has no
/// global settings.
pub fn set_custom_dll_enabled(config: &mut Config, active: bool, current_path: String)
    ensures
        final(config)@ == old(config)@.custom_dll_toggled(active, current_path@),
{
    if active {
        config.ordered_global.global = Some(GlobalConfig { dll: Some(current_path) });
    } else {
        config.ordered_global.global = None;
    }
}

/// Takes over a change of the path field. Only with the switch on does the
/// field count: a path is stored, and an empty field clears the stored
/// path.
pub fn set_custom_dll_path(config: &mut Config, switch_active: bool, path: String)
    ensures
        final(config)@ == old(config)@.custom_dll_path_changed(switch_active, path@),
{
    if switch_active {
        if !path.as_str().is_empty() {
            config.ordered_global.global = Some(GlobalConfig { dll: Some(path) });
        } else {
            clear_custom_dll(config);
        }
    }
}

/// Clears the path of the global block, where there is a block.
fn clear_custom_dll(config: &mut Config)
    ensures
        final(config)@ == old(config)@.with_path_cleared(),
{
    if config.ordered_global.global.is_some() {
        config.ordered_global.global = Some(GlobalConfig { dll: None });
    }
}

/// The global block to write to the file: the block with its path where
/// the store names a custom library, and none otherwise.
pub fn persisted_global(config: &Config) -> (block: Option<GlobalConfig>)
    ensures
        match block {
            Some(global) => config@.persisted_global() == Some(global@),
            None => config@.persisted_global() is None,
        },
{
    match custom_dll_path(config) {
        Some(path) => Some(GlobalConfig { dll: Some(path) }),
        None => None,
    }
}

/// Leaving out a global block without a path loses nothing: the store that
/// is read back from the file names the same custom library.
pub proof fn lemma_persisted_global_keeps_the_library(store: ConfigView)
    ensures
        (ConfigView { global: store.persisted_global(), ..store }).custom_dll()
            == store.custom_dll(),
        store.persisted_global() matches Some(global) ==> global.dll is Some,
{
}

/// Switching the custom library on and off again leaves no global
/// settings, whatever the store held before.
pub proof fn lemma_switched_off_has_no_global(store: ConfigView, path: Seq<char>)
    ensures
        store.custom_dll_toggled(false, path).global is None,
        store.custom_dll_toggled(true, path).custom_dll_toggled(false, path).global is None,
        store.custom_dll_toggled(true, path).global == Some(GlobalConfigView { dll: Some(path) }),
{
}

} // verus!
