use vstd::prelude::*;
use vstd::string::{StrSliceExecFns, StringExecFns};

use crate::env::OverridableEnv;

verus! {

/// Which of the three standard directories of an application is meant.
#[derive(Clone, Copy, Debug, PartialEq, Eq, Structural)]
pub enum DirKind {
    Cache,
    Config,
    Data,
}

/// The family of operating system whose conventions choose a default path.
/// Every system other than Windows and macOS follows the Unix-like layout.
#[derive(Clone, Copy, Debug, PartialEq, Eq, Structural)]
pub enum Platform {
    Windows,
    MacOs,
    Unix,
}

/// The platform that an operating-system identifier names: exactly
/// `"windows"` or `"macos"`, and the Unix-like default for any other value.
pub open spec fn platform_of(os: Seq<char>) -> Platform {
    if os == "windows"@ {
        Platform::Windows
    } else if os == "macos"@ {
        Platform::MacOs
    } else {
        Platform::Unix
    }
}

/// `segment` appended to the path `base`, with `/` as the only separator:
/// a segment that starts with `/` is absolute and replaces the base; after an
/// empty base, or one that already ends in `/`, no separator is added;
/// otherwise exactly one `/` stands between the two.
pub open spec fn join(base: Seq<char>, segment: Seq<char>) -> Seq<char> {
    if segment.len() > 0 && segment[0] == '/' {
        segment
    } else if base.len() == 0 || base.last() == '/' {
        base + segment
    } else {
        base + "/"@ + segment
    }
}

/// The variable that, where it is set, decides the directory of `kind`.
pub open spec fn override_var(kind: DirKind) -> Seq<char> {
    match kind {
        DirKind::Cache => "XDG_CACHE_HOME"@,
        DirKind::Config => "XDG_CONFIG_HOME"@,
        DirKind::Data => "XDG_DATA_HOME"@,
    }
}

/// The variable whose value is the base of the platform's default paths.
pub open spec fn fallback_var(platform: Platform) -> Seq<char> {
    match platform {
        Platform::Windows => "APPDATA"@,
        _ => "HOME"@,
    }
}

/// The value of `var` in `env`, or `"."` where it is not set.
pub open spec fn value_or_dot(env: Map<Seq<char>, Seq<char>>, var: Seq<char>) -> Seq<char> {
    if env.contains_key(var) {
        env[var]
    } else {
        "."@
    }
}

/// The platform's default directory of `kind` for application `app`, below `base`.
pub open spec fn default_path(kind: DirKind, app: Seq<char>, platform: Platform, base: Seq<char>) -> Seq<char> {
    match platform {
        Platform::Windows => match kind {
            DirKind::Cache => join(join(base, app), "Cache"@),
            DirKind::Config => join(join(base, app), "Config"@),
            DirKind::Data => join(join(base, app), "Data"@),
        },
        Platform::MacOs => match kind {
            DirKind::Cache => join(join(join(base, "Library"@), "Caches"@), app),
            DirKind::Config => join(join(join(base, "Library"@), "Preferences"@), app),
            DirKind::Data => join(join(base, "Library"@), app),
        },
        Platform::Unix => match kind {
            DirKind::Cache => join(join(base, ".cache"@), app),
            DirKind::Config => join(join(base, ".config"@), app),
            DirKind::Data => join(join(join(base, ".local"@), "share"@), app),
        },
    }
}

/// The directory of `kind` for application `app`: below the override
/// variable's value where that is set, else the platform's default below the
/// platform's base variable (or `"."`).
pub open spec fn resolved_path(
    kind: DirKind,
    app: Seq<char>,
    platform: Platform,
    env: Map<Seq<char>, Seq<char>>,
) -> Seq<char> {
    if env.contains_key(override_var(kind)) {
        join(env[override_var(kind)], app)
    } else {
        default_path(kind, app, platform, value_or_dot(env, fallback_var(platform)))
    }
}

impl Platform {
    /// The platform that the operating-system identifier `os` names.
    pub fn from_os(os: &str) -> (r: Platform)
        ensures
            r == platform_of(os@),
    {
        let os = String::from_str(os);
        if os == String::from_str("windows") {
            Platform::Windows
        } else if os == String::from_str("macos") {
            Platform::MacOs
        } else {
            Platform::Unix
        }
    }

    /// The name of the variable whose value is the base of the default paths.
    pub fn fallback_var(self) -> (r: &'static str)
        ensures
            r@ == fallback_var(self),
    {
        match self {
            Platform::Windows => "APPDATA",
            _ => "HOME",
        }
    }
}

impl DirKind {
    /// The name of the variable that overrides this directory.
    pub fn override_var(self) -> (r: &'static str)
        ensures
            r@ == override_var(self),
    {
        match self {
            DirKind::Cache => "XDG_CACHE_HOME",
            DirKind::Config => "XDG_CONFIG_HOME",
            DirKind::Data => "XDG_DATA_HOME",
        }
    }
}

/// `segment` appended to the path `base`, as `join` states it.
pub fn join_path(base: String, segment: &str) -> (r: String)
    ensures
        r@ == join(base@, segment@),
{
    if segment.unicode_len() > 0 && segment.get_char(0) == '/' {
        return String::from_str(segment);
    }
    let base_len = base.as_str().unicode_len();
    if base_len == 0 || base.as_str().get_char(base_len - 1) == '/' {
        base.concat(segment)
    } else {
        base.concat("/").concat(segment)
    }
}

/// The platform's default directory of `kind` for `app` below `base`.
pub fn default_dir(kind: DirKind, app: &str, platform: Platform, base: String) -> (r: String)
    ensures
        r@ == default_path(kind, app@, platform, base@),
{
    match platform {
        Platform::Windows => {
            let below_app = join_path(base, app);
            match kind {
                DirKind::Cache => join_path(below_app, "Cache"),
                DirKind::Config => join_path(below_app, "Config"),
                DirKind::Data => join_path(below_app, "Data"),
            }
        },
        Platform::MacOs => {
            let library = join_path(base, "Library");
            match kind {
                DirKind::Cache => join_path(join_path(library, "Caches"), app),
                DirKind::Config => join_path(join_path(library, "Preferences"), app),
                DirKind::Data => join_path(library, app),
            }
        },
        Platform::Unix => match kind {
            DirKind::Cache => join_path(join_path(base, ".cache"), app),
            DirKind::Config => join_path(join_path(base, ".config"), app),
            DirKind::Data => join_path(join_path(join_path(base, ".local"), "share"), app),
        },
    }
}

/// The directory of `kind` for application `app` on `platform`, as the
/// variables of `env` decide it.
pub fn resolve_dir(kind: DirKind, app: &str, platform: Platform, env: &OverridableEnv) -> (r: String)
    ensures
        r@ == resolved_path(kind, app@, platform, env@),
{
    match env.get(kind.override_var()) {
        Some(dir) => join_path(dir, app),
        None => {
            let base = match env.get(platform.fallback_var()) {
                Some(value) => value,
                None => String::from_str("."),
            };
            default_dir(kind, app, platform, base)
        },
    }
}

} // verus!

verus! {

/// Where the override variable of a directory is set, the directory is that
/// value joined with the application name, whatever the platform and whatever
/// else the environment holds.
pub proof fn override_decides(
    kind: DirKind,
    app: Seq<char>,
    platform: Platform,
    env: Map<Seq<char>, Seq<char>>,
)
    requires
        env.contains_key(override_var(kind)),
    ensures
        resolved_path(kind, app, platform, env) == join(env[override_var(kind)], app),
{
}

/// Setting only the cache override changes neither the config nor the data
/// directory: each stays what it was, which is the platform default wherever
/// its own override is unset.
pub proof fn cache_override_is_independent(
    kind: DirKind,
    app: Seq<char>,
    platform: Platform,
    env: Map<Seq<char>, Seq<char>>,
    value: Seq<char>,
)
    requires
        kind != DirKind::Cache,
    ensures
        resolved_path(kind, app, platform, env.insert("XDG_CACHE_HOME"@, value))
            == resolved_path(kind, app, platform, env),
        !env.contains_key(override_var(kind)) ==> resolved_path(kind, app, platform, env)
            == default_path(kind, app, platform, value_or_dot(env, fallback_var(platform))),
{
    reveal_strlit("XDG_CACHE_HOME");
    reveal_strlit("XDG_CONFIG_HOME");
    reveal_strlit("XDG_DATA_HOME");
    reveal_strlit("APPDATA");
    reveal_strlit("HOME");
    let changed = env.insert("XDG_CACHE_HOME"@, value);
    assert(override_var(kind) != "XDG_CACHE_HOME"@) by {
        assert(override_var(kind).len() != "XDG_CACHE_HOME"@.len());
    }
    assert(fallback_var(platform) != "XDG_CACHE_HOME"@) by {
        assert(fallback_var(platform).len() != "XDG_CACHE_HOME"@.len());
    }
    assert(changed.contains_key(override_var(kind)) == env.contains_key(override_var(kind)));
    assert(value_or_dot(changed, fallback_var(platform)) == value_or_dot(env, fallback_var(platform)));
}

} // verus!
