//! Application settings and the rules they must meet.

use vstd::prelude::*;
use crate::error::{ConfigError, Error};

verus! {

#[derive(Debug, Clone)]
pub struct Config {
    pub app_name: String,
    pub window_width: u32,
    pub window_height: u32,
    pub data_dir: String,
    pub theme: String,
    pub auto_save: bool,
    /// Seconds between automatic saves.
    pub auto_save_interval: u32,
}

impl Default for Config {
    /// Mosp in a 1280 by 720 window, light theme, saving every five minutes,
    /// with data under `./data` until a platform directory is chosen.
    fn default() -> (r: Config)
        ensures
            r.app_name@ == "Mosp"@,
            r.window_width == 1280,
            r.window_height == 720,
            r.data_dir@ == "./data"@,
            r.theme@ == "light"@,
            r.auto_save,
            r.auto_save_interval == 300,
    {
        Config {
            app_name: "Mosp".to_owned(),
            window_width: 1280,
            window_height: 720,
            data_dir: "./data".to_owned(),
            theme: "light".to_owned(),
            auto_save: true,
            auto_save_interval: 300,
        }
    }
}

impl Config {
    /// The first rule the settings break, if any: the window must be at
    /// least 800 by 600, the theme light or dark, and saves at least a
    /// minute apart.
    pub open spec fn first_violation(&self) -> Option<ConfigError> {
        if self.window_width < 800 || self.window_height < 600 {
            Some(ConfigError::WindowTooSmall)
        } else if self.theme@ != "light"@ && self.theme@ != "dark"@ {
            Some(ConfigError::InvalidTheme)
        } else if self.auto_save_interval < 60 {
            Some(ConfigError::AutoSaveTooShort)
        } else {
            None
        }
    }

    pub fn validate(&self) -> (r: Result<(), Error>)
        ensures
            match self.first_violation() {
                Some(e) => r matches Err(Error::Config(f)) && f == e,
                None => r is Ok,
            },
    {
        if self.window_width < 800 || self.window_height < 600 {
            return Err(Error::Config(ConfigError::WindowTooSmall));
        }
        let light = "light".to_owned();
        let dark = "dark".to_owned();
        if !(self.theme == light) && !(self.theme == dark) {
            return Err(Error::Config(ConfigError::InvalidTheme));
        }
        if self.auto_save_interval < 60 {
            return Err(Error::Config(ConfigError::AutoSaveTooShort));
        }
        Ok(())
    }
}

} // verus!
