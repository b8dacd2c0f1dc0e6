use vstd::prelude::*;

verus! {

/// Application configuration: where uploads go, which interpreter runs the
/// worker, and how the persistence layer is reached.
#[derive(Debug)]
pub struct AppConfig {
    pub upload_dir: String,
    pub python_executable: String,
    pub mongodb_uri: String,
    pub mongodb_database: String,
}

/// The built-in defaults.
pub open spec fn is_default_config(c: AppConfig) -> bool {
    &&& c.upload_dir@ == "uploads"@
    &&& c.python_executable@ == "python"@
    &&& c.mongodb_uri@ == "localhost"@
    &&& c.mongodb_database@ == "mongodb"@
}

impl Clone for AppConfig {
    fn clone(&self) -> (res: AppConfig)
        ensures
            res == *self,
    {
        AppConfig {
            upload_dir: self.upload_dir.clone(),
            python_executable: self.python_executable.clone(),
            mongodb_uri: self.mongodb_uri.clone(),
            mongodb_database: self.mongodb_database.clone(),
        }
    }
}

impl Default for AppConfig {
    fn default() -> (r: AppConfig)
        ensures
            is_default_config(r),
    {
        AppConfig {
            upload_dir: String::from_str("uploads"),
            python_executable: String::from_str("python"),
            mongodb_uri: String::from_str("localhost"),
            mongodb_database: String::from_str("mongodb"),
        }
    }
}

/// The configuration the environment implies: the defaults, with each value
/// that the environment provides taking precedence.
pub fn config_from_env(
    python_executable: Option<String>,
    mongodb_uri: Option<String>,
    mongodb_database: Option<String>,
) -> (r: AppConfig)
    ensures
        r.upload_dir@ == "uploads"@,
        r.python_executable@ == (match python_executable {
            Some(v) => v@,
            None => "python"@,
        }),
        r.mongodb_uri@ == (match mongodb_uri {
            Some(v) => v@,
            None => "localhost"@,
        }),
        r.mongodb_database@ == (match mongodb_database {
            Some(v) => v@,
            None => "mongodb"@,
        }),
{
    AppConfig {
        upload_dir: String::from_str("uploads"),
        python_executable: match python_executable {
            Some(v) => v,
            None => String::from_str("python"),
        },
        mongodb_uri: match mongodb_uri {
            Some(v) => v,
            None => String::from_str("localhost"),
        },
        mongodb_database: match mongodb_database {
            Some(v) => v,
            None => String::from_str("mongodb"),
        },
    }
}

/// A single slot for the configuration, filled once at startup and read from
/// then on; an explicit object in place of ambient global state.
#[derive(Debug)]
pub struct ConfigStore {
    pub config: Option<AppConfig>,
}

impl ConfigStore {
    /// An empty store: nothing initialised yet.
    pub fn new() -> (r: ConfigStore)
        ensures
            r.config is None,
    {
        ConfigStore { config: None }
    }

    /// Fills the slot on first use: an already-filled store keeps what it has;
    /// an empty one takes the loaded configuration, or the defaults when none
    /// could be loaded.
    pub fn init_config(&mut self, loaded: Option<AppConfig>)
        ensures
            old(self).config matches Some(c) ==> final(self).config == Some(c),
            old(self).config is None ==> (match loaded {
                Some(c) => final(self).config == Some(c),
                None => final(self).config matches Some(d) && is_default_config(d),
            }),
            final(self).config is Some,
    {
        if self.config.is_none() {
            match loaded {
                Some(c) => {
                    self.config = Some(c);
                },
                None => {
                    self.config = Some(AppConfig::default());
                },
            }
        }
    }

    /// The configuration. The store must have been initialised first; reading
    /// an empty store is the caller's error, as it was when the slot was a
    /// process-wide global.
    pub fn get_config(&self) -> (r: &AppConfig)
        requires
            self.config is Some,
        ensures
            match self.config {
                Some(c) => *r == c,
                None => false,
            },
    {
        match &self.config {
            Some(c) => c,
            None => vstd::pervasive::unreached(),
        }
    }
}

} // verus!
