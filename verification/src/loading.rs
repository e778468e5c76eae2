//! Reading the configuration file, as a sequence of decisions between the
//! file system requests that the caller carries out.
use vstd::prelude::*;
use crate::config::{
    check_config_permissions, choose_config_path, config_format, config_search_paths, first_found,
    format_message, format_spec, not_found_message, permission_message, resolved_paths,
    search_paths_spec, string_views, AppConfig, ConfigFormat, EnvSnapshot, LoadedConfig,
};

verus! {

/// Where reading the configuration stands: either the next request to the
/// file system, or the outcome.
#[derive(Debug)]
pub enum ConfigLoad {
    /// Say, for each candidate, whether it names a regular file.
    FindFile { candidates: Vec<String> },
    /// Give the permission bits of this file.
    CheckMode { path: String },
    /// Read this file as text.
    ReadFile { path: String },
    /// Parse this text, read from `path`, in this syntax.
    Parse { path: String, format: ConfigFormat, raw: String },
    /// The configuration has been read.
    Loaded(LoadedConfig),
    /// Reading stopped, for this reason.
    Failed(String),
}

impl AppConfig {
    /// Starts reading the configuration file at `path`.
    pub fn load(path: String) -> (r: ConfigLoad)
        ensures
            r matches ConfigLoad::CheckMode { path: p } && p@ == path@,
    {
        ConfigLoad::CheckMode { path }
    }

    /// Starts reading the configuration: the file given on the command
    /// line, else the first of the usual places that holds one.
    pub fn load_with_resolution(explicit_path: Option<String>, cwd: &str, env: &EnvSnapshot) -> (r:
        ConfigLoad)
        ensures
            match explicit_path {
                Some(p) => r matches ConfigLoad::CheckMode { path } && path@ == p@,
                None => r matches ConfigLoad::FindFile { candidates } && string_views(candidates@)
                    == search_paths_spec(cwd@, *env),
            },
    {
        match explicit_path {
            Some(p) => AppConfig::load(p),
            None => ConfigLoad::FindFile { candidates: config_search_paths(cwd, env) },
        }
    }
}

impl ConfigLoad {
    /// Goes on once it is known which candidates are files.
    pub fn files_found(self, is_file: Vec<bool>) -> (r: ConfigLoad)
        requires
            self matches ConfigLoad::FindFile { candidates } && candidates.len() == is_file.len(),
        ensures
            self matches ConfigLoad::FindFile { candidates } && match first_found(is_file@) {
                Some(k) => r matches ConfigLoad::CheckMode { path } && path@ == candidates@[k]@,
                None => r matches ConfigLoad::Failed(m) && m@ == not_found_message(
                    string_views(candidates@),
                ),
            },
    {
        match self {
            ConfigLoad::FindFile { candidates } => match choose_config_path(&candidates, &is_file) {
                Ok(path) => ConfigLoad::CheckMode { path },
                Err(m) => ConfigLoad::Failed(m),
            },
            _ => ConfigLoad::Failed(String::new()),
        }
    }

    /// Goes on with the permission bits of the file, or the reason they
    /// could not be had.
    pub fn mode_read(self, mode: Result<u32, String>) -> (r: ConfigLoad)
        requires
            self is CheckMode,
        ensures
            self matches ConfigLoad::CheckMode { path } && match mode {
                Ok(bits) => if bits % 512 == 256 || bits % 512 == 384 {
                    r matches ConfigLoad::ReadFile { path: p } && p@ == path@
                } else {
                    r matches ConfigLoad::Failed(m) && m@ == permission_message(
                        path@,
                        (bits % 512) as nat,
                    )
                },
                Err(e) => r matches ConfigLoad::Failed(m) && m@ == e@,
            },
    {
        match self {
            ConfigLoad::CheckMode { path } => match mode {
                Ok(bits) => match check_config_permissions(path.as_str(), bits) {
                    Ok(()) => ConfigLoad::ReadFile { path },
                    Err(m) => ConfigLoad::Failed(m),
                },
                Err(e) => ConfigLoad::Failed(e),
            },
            _ => ConfigLoad::Failed(String::new()),
        }
    }

    /// Goes on with the text of the file, or the reason it could not be
    /// read; the file's name decides the syntax.
    pub fn file_read(self, raw: Result<String, String>) -> (r: ConfigLoad)
        requires
            self is ReadFile,
        ensures
            self matches ConfigLoad::ReadFile { path } && match raw {
                Ok(text) => match format_spec(path@) {
                    Some(f) => r matches ConfigLoad::Parse { path: p, format, raw: t } && p@
                        == path@ && format == f && t@ == text@,
                    None => r matches ConfigLoad::Failed(m) && m@ == format_message(path@),
                },
                Err(e) => r matches ConfigLoad::Failed(m) && m@ == e@,
            },
    {
        match self {
            ConfigLoad::ReadFile { path } => match raw {
                Ok(text) => match config_format(path.as_str()) {
                    Ok(format) => ConfigLoad::Parse { path, format, raw: text },
                    Err(m) => ConfigLoad::Failed(m),
                },
                Err(e) => ConfigLoad::Failed(e),
            },
            _ => ConfigLoad::Failed(String::new()),
        }
    }

    /// Finishes with the parsed configuration, whose relative paths are
    /// then taken against the file's directory, or with the reason the text
    /// could not be parsed.
    pub fn parsed(self, config: Result<AppConfig, String>) -> (r: ConfigLoad)
        requires
            self is Parse,
        ensures
            self matches ConfigLoad::Parse { path, .. } && match config {
                Ok(c) => r matches ConfigLoad::Loaded(l) && l.path@ == path@ && resolved_paths(
                    c,
                    l.config,
                    path@,
                ),
                Err(e) => r matches ConfigLoad::Failed(m) && m@ == e@,
            },
    {
        match self {
            ConfigLoad::Parse { path, .. } => match config {
                Ok(c) => {
                    let mut c = c;
                    c.resolve_relative_paths(path.as_str());
                    ConfigLoad::Loaded(LoadedConfig { path, config: c })
                },
                Err(e) => ConfigLoad::Failed(e),
            },
            _ => ConfigLoad::Failed(String::new()),
        }
    }
}

} // verus!
