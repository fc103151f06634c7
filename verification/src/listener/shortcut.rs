use vstd::prelude::*;

use crate::config::configure::Configure;

verus! {

/// The hotkeys this node can bind.
#[derive(Debug)]
pub enum ShortcutKeymapEnum {
    ToggleWindow,
}

/// Resolves hotkey bindings from the configuration; the actual binding is a
/// desktop concern and happens outside this crate.
#[derive(Debug, Default)]
pub struct ShortcutListener;

impl ShortcutListener {
    /// The configured key sequence for `shortcut_key`, or an error when the
    /// configuration does not provide one.
    pub fn get_shortcut_hotkey_config(config: &Configure, shortcut_key: ShortcutKeymapEnum) -> (r:
        Result<String, String>)
        ensures
            match config.toggle_window_hotkey {
                Some(h) => (r matches Ok(s) && s@ == h@),
                None => r is Err,
            },
    {
        match shortcut_key {
            ShortcutKeymapEnum::ToggleWindow => {
                match &config.toggle_window_hotkey {
                    Some(hotkey) => Ok(hotkey.clone()),
                    None => Err("toggle_window_hotkey not configured!".to_owned()),
                }
            },
        }
    }
}

} // verus!
