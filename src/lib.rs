use vstd::prelude::*;

pub mod directory;
pub mod env;
pub mod errors;
pub mod lifecycle;
pub mod paths;

pub use directory::Directory;
pub use env::OverridableEnv;
pub use errors::{CreateError, RemoveError};
pub use lifecycle::{CreateRemoveResult, Operation};
pub use paths::{DirKind, Platform};

use paths::{platform_of, resolve_dir, resolved_path};

verus! {

/// The cache, config and data directories of one application, resolved once
/// when the value is made.
#[derive(Debug)]
pub struct Config {
    cache_dir: String,
    config_dir: String,
    data_dir: String,
}

impl Config {
    /// The directory of `kind` that this value holds.
    pub closed spec fn path_of(&self, kind: DirKind) -> Seq<char> {
        match kind {
            DirKind::Cache => self.cache_dir@,
            DirKind::Config => self.config_dir@,
            DirKind::Data => self.data_dir@,
        }
    }

    /// Resolves the three directories of application `app_name` on the
    /// operating system that `os` names (`"windows"`, `"macos"`, or any other
    /// value for the Unix-like layout), reading variables from `env`.
    pub fn new(app_name: &str, os: &str, env: &OverridableEnv) -> (r: Config)
        ensures
            forall|kind: DirKind|
                r.path_of(kind) == resolved_path(kind, app_name@, platform_of(os@), env@),
    {
        let platform = Platform::from_os(os);
        let r = Config {
            cache_dir: resolve_dir(DirKind::Cache, app_name, platform, env),
            config_dir: resolve_dir(DirKind::Config, app_name, platform, env),
            data_dir: resolve_dir(DirKind::Data, app_name, platform, env),
        };
        assert forall|kind: DirKind|
            r.path_of(kind) == resolved_path(kind, app_name@, platform_of(os@), env@) by {
            match kind {
                DirKind::Cache => {},
                DirKind::Config => {},
                DirKind::Data => {},
            }
        }
        r
    }

    /// The directory for cached data: `$XDG_CACHE_HOME/<app>` where that is
    /// set, else `%APPDATA%/<app>/Cache` on Windows,
    /// `$HOME/Library/Caches/<app>` on macOS and `$HOME/.cache/<app>` elsewhere.
    pub fn cache(&self) -> (r: &String)
        ensures
            r@ == self.path_of(DirKind::Cache),
    {
        &self.cache_dir
    }

    /// The directory for configuration: `$XDG_CONFIG_HOME/<app>` where that
    /// is set, else `%APPDATA%/<app>/Config` on Windows,
    /// `$HOME/Library/Preferences/<app>` on macOS and `$HOME/.config/<app>`
    /// elsewhere.
    pub fn config(&self) -> (r: &String)
        ensures
            r@ == self.path_of(DirKind::Config),
    {
        &self.config_dir
    }

    /// The directory for other data: `$XDG_DATA_HOME/<app>` where that is
    /// set, else `%APPDATA%/<app>/Data` on Windows, `$HOME/Library/<app>` on
    /// macOS and `$HOME/.local/share/<app>` elsewhere.
    pub fn data(&self) -> (r: &String)
        ensures
            r@ == self.path_of(DirKind::Data),
    {
        &self.data_dir
    }

    /// The directory of `kind`.
    pub fn path(&self, kind: DirKind) -> (r: &String)
        ensures
            r@ == self.path_of(kind),
    {
        match kind {
            DirKind::Cache => &self.cache_dir,
            DirKind::Config => &self.config_dir,
            DirKind::Data => &self.data_dir,
        }
    }
}

} // verus!
