//! The settings of the server and how they are made from a settings file.

use vstd::prelude::*;

verus! {

/// The settings the server runs with. They are fixed at startup and shared,
/// unchanged, by every request.
#[derive(Debug, Clone, PartialEq, Eq)]
pub struct Config {
    /// The root directory under which all media resides.
    pub folder: String,
    /// The TCP port the server binds to.
    pub port: u16,
    /// The name under which this device presents itself.
    pub device_name: String,
}

/// The mathematical value of a [`Config`].
pub struct ConfigView {
    pub folder: Seq<char>,
    pub port: u16,
    pub device_name: Seq<char>,
}

impl View for Config {
    type V = ConfigView;

    open spec fn view(&self) -> ConfigView {
        ConfigView { folder: self.folder@, port: self.port, device_name: self.device_name@ }
    }
}

/// One of the settings that a settings file has to hold.
#[derive(Debug, Clone, Copy, PartialEq, Eq)]
pub enum Setting {
    Folder,
    Port,
    DeviceName,
}

/// What the loader found in a settings file that it could read: each setting,
/// where the file holds it.
#[derive(Debug, Clone, PartialEq, Eq)]
pub struct Loaded {
    pub folder: Option<String>,
    pub port: Option<u16>,
    pub device_name: Option<String>,
}

/// Why no settings could be made from a file.
#[derive(Debug, Clone, PartialEq, Eq)]
pub enum ConfigError {
    /// The file at `path` could not be found, read or understood.
    Unreadable { path: String },
    /// The file at `path` was read, but lacks `setting`.
    Missing { path: String, setting: Setting },
}

/// The first setting, in the order folder, port, device name, that `loaded`
/// lacks.
pub open spec fn first_missing(loaded: Loaded) -> Option<Setting> {
    if loaded.folder is None {
        Some(Setting::Folder)
    } else if loaded.port is None {
        Some(Setting::Port)
    } else if loaded.device_name is None {
        Some(Setting::DeviceName)
    } else {
        None
    }
}

impl Config {
    /// Makes the settings from what the loader found in the file at `path`:
    /// `None` where it could not read the file, else the settings it holds.
    ///
    /// The settings are made exactly when the file was read and holds all
    /// three of them, and then they are the ones found. A file that could not
    /// be read is reported as such; one that lacks a setting is reported with
    /// the first setting it lacks. Either report names `path`.
    pub fn from_file(path: &str, loaded: Option<Loaded>) -> (result: Result<Config, ConfigError>)
        ensures
            match result {
                Ok(config) => {
                    &&& loaded matches Some(found)
                    &&& first_missing(found) is None
                    &&& found.folder matches Some(folder)
                    &&& found.port matches Some(port)
                    &&& found.device_name matches Some(device_name)
                    &&& config@ == (ConfigView {
                        folder: folder@,
                        port: port,
                        device_name: device_name@,
                    })
                },
                Err(ConfigError::Unreadable { path: reported }) => {
                    &&& loaded is None
                    &&& reported@ == path@
                },
                Err(ConfigError::Missing { path: reported, setting }) => {
                    &&& loaded matches Some(found)
                    &&& first_missing(found) == Some(setting)
                    &&& reported@ == path@
                },
            },
    {
        match loaded {
            None => Err(ConfigError::Unreadable { path: path.to_owned() }),
            Some(found) => {
                let Loaded { folder, port, device_name } = found;
                match folder {
                    None => Err(ConfigError::Missing { path: path.to_owned(), setting: Setting::Folder }),
                    Some(folder) => match port {
                        None => Err(ConfigError::Missing { path: path.to_owned(), setting: Setting::Port }),
                        Some(port) => match device_name {
                            None => Err(
                                ConfigError::Missing {
                                    path: path.to_owned(),
                                    setting: Setting::DeviceName,
                                },
                            ),
                            Some(device_name) => Ok(Config { folder, port, device_name }),
                        },
                    },
                }
            },
        }
    }
}

} // verus!
