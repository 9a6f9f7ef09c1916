//! The effective configuration: built-in defaults, overridden by the config
//! file, then by the environment, then by the command-line flags, and
//! checked. Reading the file and the environment is the binary's part; it
//! hands the values it found to `load_effective_from`.
use vstd::prelude::*;
use crate::cli::OsType;
use crate::models::opt_view;
use crate::utm::home_dir;
use crate::text::{
    decimal, is_blank, path_join, path_join_exec, push_decimal, push_str, str_eq, to_owned, trim,
};

verus! {

/// The `[templates]` table of the config file.
pub struct TemplateConfig {
    pub linux: Option<String>,
    pub macos: Option<String>,
}

/// The `[naming]` table of the config file.
pub struct NamingConfig {
    pub default_template: Option<String>,
    pub rand_len: Option<usize>,
    pub max_retries: Option<u8>,
}

/// The `[output]` table of the config file.
pub struct OutputConfig {
    pub default_json: Option<bool>,
    pub default_quiet: Option<bool>,
}

/// The config file as parsed; every key is optional.
pub struct FileConfig {
    pub utm_app: Option<String>,
    pub utmctl_path: Option<String>,
    pub state_path: Option<String>,
    pub default_prefix: Option<String>,
    pub templates: Option<TemplateConfig>,
    pub naming: Option<NamingConfig>,
    pub output: Option<OutputConfig>,
}

/// The `UTMD_*` environment variables that were set, with their values.
pub struct EnvConfig {
    pub utm_app: Option<String>,
    pub utmctl_path: Option<String>,
    pub state_path: Option<String>,
    pub prefix: Option<String>,
    pub template_linux: Option<String>,
    pub template_macos: Option<String>,
    pub json: Option<String>,
    pub quiet: Option<String>,
}

/// The configuration every command runs with.
pub struct EffectiveConfig {
    pub config_path: String,
    pub utm_app: String,
    /// The `utmctl` binary set in the config file or the environment, if any.
    pub utmctl_path: Option<String>,
    pub state_path: String,
    pub default_prefix: String,
    pub template_linux: String,
    pub template_macos: String,
    pub naming_template: String,
    pub naming_rand_len: usize,
    pub naming_max_retries: u8,
    pub json: bool,
    pub quiet: bool,
    pub yes: bool,
    pub dry_run: bool,
}

/// `EffectiveConfig` over plain values.
pub struct EffectiveConfigView {
    pub config_path: Seq<char>,
    pub utm_app: Seq<char>,
    pub utmctl_path: Option<Seq<char>>,
    pub state_path: Seq<char>,
    pub default_prefix: Seq<char>,
    pub template_linux: Seq<char>,
    pub template_macos: Seq<char>,
    pub naming_template: Seq<char>,
    pub naming_rand_len: usize,
    pub naming_max_retries: u8,
    pub json: bool,
    pub quiet: bool,
    pub yes: bool,
    pub dry_run: bool,
}

impl View for EffectiveConfig {
    type V = EffectiveConfigView;

    open spec fn view(&self) -> EffectiveConfigView {
        EffectiveConfigView {
            config_path: self.config_path@,
            utm_app: self.utm_app@,
            utmctl_path: opt_view(self.utmctl_path),
            state_path: self.state_path@,
            default_prefix: self.default_prefix@,
            template_linux: self.template_linux@,
            template_macos: self.template_macos@,
            naming_template: self.naming_template@,
            naming_rand_len: self.naming_rand_len,
            naming_max_retries: self.naming_max_retries,
            json: self.json,
            quiet: self.quiet,
            yes: self.yes,
            dry_run: self.dry_run,
        }
    }
}

/// The template configured for an OS.
pub open spec fn template_of(cfg: EffectiveConfigView, os: OsType) -> Seq<char> {
    match os {
        OsType::Linux => cfg.template_linux,
        OsType::Macos => cfg.template_macos,
    }
}

/// A copy of an optional string.
fn copy_opt(o: &Option<String>) -> (r: Option<String>)
    ensures
        opt_view(r) == opt_view(*o),
{
    match o {
        Some(s) => Some(s.clone()),
        None => None,
    }
}

impl EffectiveConfig {
    /// The name of the template VM to clone for an OS.
    pub fn template_for(&self, os: OsType) -> (r: &str)
        ensures
            r@ == template_of(self@, os),
    {
        match os {
            OsType::Linux => self.template_linux.as_str(),
            OsType::Macos => self.template_macos.as_str(),
        }
    }

    /// A copy of the configuration.
    pub fn copy(&self) -> (r: EffectiveConfig)
        ensures
            r@ == self@,
    {
        EffectiveConfig {
            config_path: self.config_path.clone(),
            utm_app: self.utm_app.clone(),
            utmctl_path: copy_opt(&self.utmctl_path),
            state_path: self.state_path.clone(),
            default_prefix: self.default_prefix.clone(),
            template_linux: self.template_linux.clone(),
            template_macos: self.template_macos.clone(),
            naming_template: self.naming_template.clone(),
            naming_rand_len: self.naming_rand_len,
            naming_max_retries: self.naming_max_retries,
            json: self.json,
            quiet: self.quiet,
            yes: self.yes,
            dry_run: self.dry_run,
        }
    }
}

// ---------------------------------------------------------------------------
// Defaults
// ---------------------------------------------------------------------------
/// The built-in configuration for the given config and state paths.
pub open spec fn default_config(config_path: Seq<char>, state_path: Seq<char>) -> EffectiveConfigView {
    EffectiveConfigView {
        config_path,
        utm_app: "/Applications/UTM.app"@,
        utmctl_path: None,
        state_path,
        default_prefix: "utmd-"@,
        template_linux: "[t]-linux"@,
        template_macos: "[t]-macos"@,
        naming_template: "{prefix}{os}-{rand}"@,
        naming_rand_len: 4,
        naming_max_retries: 8,
        json: false,
        quiet: false,
        yes: false,
        dry_run: false,
    }
}

impl EffectiveConfig {
    /// The built-in configuration.
    pub fn defaults(config_path: String, state_path: String) -> (r: EffectiveConfig)
        ensures
            r@ == default_config(config_path@, state_path@),
    {
        EffectiveConfig {
            config_path,
            utm_app: to_owned("/Applications/UTM.app"),
            utmctl_path: None,
            state_path,
            default_prefix: to_owned("utmd-"),
            template_linux: to_owned("[t]-linux"),
            template_macos: to_owned("[t]-macos"),
            naming_template: to_owned("{prefix}{os}-{rand}"),
            naming_rand_len: 4,
            naming_max_retries: 8,
            json: false,
            quiet: false,
            yes: false,
            dry_run: false,
        }
    }
}

/// The state directory of the user, as `dirs::state_dir` finds it. It
/// depends on the environment and the platform, so nothing is stated of it.
/// The library holds paths as strings: bytes of the path that are not UTF-8
/// come back as U+FFFD.
#[verifier::external_body]
fn state_dir() -> Option<String> {
    dirs::state_dir().map(|p| p.to_string_lossy().into_owned())
}

/// `dir/utmd/file`.
pub open spec fn utmd_file(dir: Seq<char>, file: Seq<char>) -> Seq<char> {
    path_join(path_join(dir, "utmd"@), file)
}

/// The user's config directory, `~/.config`, if the home directory is known.
pub open spec fn user_config_dir(home: Option<Seq<char>>) -> Option<Seq<char>> {
    match home {
        Some(h) => Some(path_join(h, ".config"@)),
        None => None,
    }
}

/// The user's config directory for a home directory.
pub fn user_config_dir_of(home: Option<String>) -> (r: Option<String>)
    ensures
        opt_view(r) == user_config_dir(opt_view(home)),
{
    match home {
        Some(h) => Some(path_join_exec(h.as_str(), ".config")),
        None => None,
    }
}

/// The config file for a config directory, if one is known.
pub open spec fn config_path_in(config_dir: Option<Seq<char>>) -> Seq<char> {
    match config_dir {
        Some(d) => utmd_file(d, "config.toml"@),
        None => "/tmp/utmd/config.toml"@,
    }
}

/// The config file to use when none is given on the command line.
pub fn config_path_from(config_dir: Option<String>) -> (r: String)
    ensures
        r@ == config_path_in(opt_view(config_dir)),
{
    match config_dir {
        Some(d) => {
            let u = path_join_exec(d.as_str(), "utmd");
            path_join_exec(u.as_str(), "config.toml")
        },
        None => to_owned("/tmp/utmd/config.toml"),
    }
}

/// The config file of the current user, `~/.config/utmd/config.toml`.
pub fn default_config_path() -> (r: String)
    ensures
        exists|home: Option<Seq<char>>| r@ == config_path_in(user_config_dir(home)),
{
    let home = home_dir();
    let r = config_path_from(user_config_dir_of(home));
    assert(r@ == config_path_in(user_config_dir(opt_view(home))));
    r
}

/// The state file for the state and config directories that are known.
pub open spec fn state_path_in(
    state_dir: Option<Seq<char>>,
    config_dir: Option<Seq<char>>,
) -> Seq<char> {
    match state_dir {
        Some(d) => utmd_file(d, "state.json"@),
        None => match config_dir {
            Some(d) => utmd_file(d, "state.json"@),
            None => "/tmp/utmd-state.json"@,
        },
    }
}

/// The state file: under the state directory, else under the config
/// directory, else in `/tmp`.
pub fn state_path_from(state_dir: Option<String>, config_dir: Option<String>) -> (r: String)
    ensures
        r@ == state_path_in(opt_view(state_dir), opt_view(config_dir)),
{
    match state_dir {
        Some(d) => {
            let u = path_join_exec(d.as_str(), "utmd");
            path_join_exec(u.as_str(), "state.json")
        },
        None => match config_dir {
            Some(d) => {
                let u = path_join_exec(d.as_str(), "utmd");
                path_join_exec(u.as_str(), "state.json")
            },
            None => to_owned("/tmp/utmd-state.json"),
        },
    }
}

/// The state file of the current user: under the state directory, else under
/// `~/.config`.
pub fn default_state_path() -> (r: String)
    ensures
        exists|s: Option<Seq<char>>, home: Option<Seq<char>>|
            r@ == state_path_in(s, user_config_dir(home)),
{
    let s = state_dir();
    match s {
        Some(_) => {
            let r = state_path_from(s, None);
            assert(r@ == state_path_in(opt_view(s), user_config_dir(None)));
            r
        },
        None => {
            let home = home_dir();
            let r = state_path_from(None, user_config_dir_of(home));
            assert(r@ == state_path_in(None, user_config_dir(opt_view(home))));
            r
        },
    }
}

// ---------------------------------------------------------------------------
// Merging
// ---------------------------------------------------------------------------
/// An optional setting after an optional override: the override when given.
pub open spec fn override_opt<T>(o: Option<T>, before: Option<T>) -> Option<T> {
    match o {
        Some(v) => Some(v),
        None => before,
    }
}

/// The value of an optional override, or the value before it.
pub open spec fn override_with<T>(o: Option<T>, before: T) -> T {
    match o {
        Some(v) => v,
        None => before,
    }
}

/// `FileConfig` over plain values.
pub struct FileConfigView {
    pub utm_app: Option<Seq<char>>,
    pub utmctl_path: Option<Seq<char>>,
    pub state_path: Option<Seq<char>>,
    pub default_prefix: Option<Seq<char>>,
    pub template_linux: Option<Seq<char>>,
    pub template_macos: Option<Seq<char>>,
    pub default_template: Option<Seq<char>>,
    pub rand_len: Option<usize>,
    pub max_retries: Option<u8>,
    pub default_json: Option<bool>,
    pub default_quiet: Option<bool>,
}

impl View for FileConfig {
    type V = FileConfigView;

    open spec fn view(&self) -> FileConfigView {
        FileConfigView {
            utm_app: opt_view(self.utm_app),
            utmctl_path: opt_view(self.utmctl_path),
            state_path: opt_view(self.state_path),
            default_prefix: opt_view(self.default_prefix),
            template_linux: match self.templates {
                Some(t) => opt_view(t.linux),
                None => None,
            },
            template_macos: match self.templates {
                Some(t) => opt_view(t.macos),
                None => None,
            },
            default_template: match self.naming {
                Some(n) => opt_view(n.default_template),
                None => None,
            },
            rand_len: match self.naming {
                Some(n) => n.rand_len,
                None => None,
            },
            max_retries: match self.naming {
                Some(n) => n.max_retries,
                None => None,
            },
            default_json: match self.output {
                Some(o) => o.default_json,
                None => None,
            },
            default_quiet: match self.output {
                Some(o) => o.default_quiet,
                None => None,
            },
        }
    }
}

/// The configuration after the keys present in the config file override it.
pub open spec fn with_file(cfg: EffectiveConfigView, f: FileConfigView) -> EffectiveConfigView {
    EffectiveConfigView {
        utm_app: override_with(f.utm_app, cfg.utm_app),
        utmctl_path: override_opt(f.utmctl_path, cfg.utmctl_path),
        state_path: override_with(f.state_path, cfg.state_path),
        default_prefix: override_with(f.default_prefix, cfg.default_prefix),
        template_linux: override_with(f.template_linux, cfg.template_linux),
        template_macos: override_with(f.template_macos, cfg.template_macos),
        naming_template: override_with(f.default_template, cfg.naming_template),
        naming_rand_len: override_with(f.rand_len, cfg.naming_rand_len),
        naming_max_retries: override_with(f.max_retries, cfg.naming_max_retries),
        json: override_with(f.default_json, cfg.json),
        quiet: override_with(f.default_quiet, cfg.quiet),
        ..cfg
    }
}

/// Overrides `target` with `value` when it is set.
fn set_if_some(target: &mut String, value: Option<String>)
    ensures
        final(target)@ == override_with(opt_view(value), old(target)@),
{
    match value {
        Some(v) => {
            *target = v;
        },
        None => {},
    }
}

/// Overrides an optional `target` with `value` when it is set.
fn set_opt_if_some(target: &mut Option<String>, value: Option<String>)
    ensures
        opt_view(*final(target)) == override_opt(opt_view(value), opt_view(*old(target))),
{
    match value {
        Some(v) => {
            *target = Some(v);
        },
        None => {},
    }
}

/// Applies the keys present in the parsed config file.
pub fn merge_file_config(cfg: &mut EffectiveConfig, parsed: FileConfig)
    ensures
        final(cfg)@ == with_file(old(cfg)@, parsed@),
{
    let ghost f = parsed@;
    set_if_some(&mut cfg.utm_app, parsed.utm_app);
    set_opt_if_some(&mut cfg.utmctl_path, parsed.utmctl_path);
    set_if_some(&mut cfg.state_path, parsed.state_path);
    set_if_some(&mut cfg.default_prefix, parsed.default_prefix);
    match parsed.templates {
        Some(templates) => {
            set_if_some(&mut cfg.template_linux, templates.linux);
            set_if_some(&mut cfg.template_macos, templates.macos);
        },
        None => {},
    }
    match parsed.naming {
        Some(naming) => {
            set_if_some(&mut cfg.naming_template, naming.default_template);
            if let Some(v) = naming.rand_len {
                cfg.naming_rand_len = v;
            }
            if let Some(v) = naming.max_retries {
                cfg.naming_max_retries = v;
            }
        },
        None => {},
    }
    match parsed.output {
        Some(output) => {
            if let Some(v) = output.default_json {
                cfg.json = v;
            }
            if let Some(v) = output.default_quiet {
                cfg.quiet = v;
            }
        },
        None => {},
    }
    assert(cfg@ == with_file(old(cfg)@, f));
}

/// A flag variable is on when it is `1`, `true` or `yes`.
pub open spec fn env_flag(v: Seq<char>) -> bool {
    v == "1"@ || v == "true"@ || v == "yes"@
}

/// Reads a flag variable.
pub fn env_flag_exec(v: &str) -> (r: bool)
    ensures
        r == env_flag(v@),
{
    str_eq(v, "1") || str_eq(v, "true") || str_eq(v, "yes")
}

/// `EnvConfig` over plain values.
pub struct EnvConfigView {
    pub utm_app: Option<Seq<char>>,
    pub utmctl_path: Option<Seq<char>>,
    pub state_path: Option<Seq<char>>,
    pub prefix: Option<Seq<char>>,
    pub template_linux: Option<Seq<char>>,
    pub template_macos: Option<Seq<char>>,
    pub json: Option<Seq<char>>,
    pub quiet: Option<Seq<char>>,
}

impl View for EnvConfig {
    type V = EnvConfigView;

    open spec fn view(&self) -> EnvConfigView {
        EnvConfigView {
            utm_app: opt_view(self.utm_app),
            utmctl_path: opt_view(self.utmctl_path),
            state_path: opt_view(self.state_path),
            prefix: opt_view(self.prefix),
            template_linux: opt_view(self.template_linux),
            template_macos: opt_view(self.template_macos),
            json: opt_view(self.json),
            quiet: opt_view(self.quiet),
        }
    }
}

/// A flag after an optional flag variable: the variable decides when set.
pub open spec fn flag_with(v: Option<Seq<char>>, before: bool) -> bool {
    match v {
        Some(s) => env_flag(s),
        None => before,
    }
}

/// The configuration after the environment variables that are set override it.
pub open spec fn with_env(cfg: EffectiveConfigView, e: EnvConfigView) -> EffectiveConfigView {
    EffectiveConfigView {
        utm_app: override_with(e.utm_app, cfg.utm_app),
        utmctl_path: override_opt(e.utmctl_path, cfg.utmctl_path),
        state_path: override_with(e.state_path, cfg.state_path),
        default_prefix: override_with(e.prefix, cfg.default_prefix),
        template_linux: override_with(e.template_linux, cfg.template_linux),
        template_macos: override_with(e.template_macos, cfg.template_macos),
        json: flag_with(e.json, cfg.json),
        quiet: flag_with(e.quiet, cfg.quiet),
        ..cfg
    }
}

/// Applies the environment variables that are set.
pub fn merge_env_config(cfg: &mut EffectiveConfig, env: EnvConfig)
    ensures
        final(cfg)@ == with_env(old(cfg)@, env@),
{
    let ghost e = env@;
    set_if_some(&mut cfg.utm_app, env.utm_app);
    set_opt_if_some(&mut cfg.utmctl_path, env.utmctl_path);
    set_if_some(&mut cfg.state_path, env.state_path);
    set_if_some(&mut cfg.default_prefix, env.prefix);
    set_if_some(&mut cfg.template_linux, env.template_linux);
    set_if_some(&mut cfg.template_macos, env.template_macos);
    if let Some(v) = env.json {
        cfg.json = env_flag_exec(v.as_str());
    }
    if let Some(v) = env.quiet {
        cfg.quiet = env_flag_exec(v.as_str());
    }
    assert(cfg@ == with_env(old(cfg)@, e));
}

/// The global flags given on the command line.
pub struct CliFlags {
    pub json: bool,
    pub quiet: bool,
    pub yes: bool,
    pub dry_run: bool,
}

/// The configuration after the command-line flags: `--json` and `--quiet`
/// can only turn output modes on; `--yes` and `--dry-run` come from the
/// command line alone.
pub open spec fn with_flags(cfg: EffectiveConfigView, flags: CliFlags) -> EffectiveConfigView {
    EffectiveConfigView {
        json: flags.json || cfg.json,
        quiet: flags.quiet || cfg.quiet,
        yes: flags.yes,
        dry_run: flags.dry_run,
        ..cfg
    }
}

/// Applies the command-line flags.
pub fn apply_cli_flags(cfg: &mut EffectiveConfig, flags: &CliFlags)
    ensures
        final(cfg)@ == with_flags(old(cfg)@, *flags),
{
    cfg.json = flags.json || cfg.json;
    cfg.quiet = flags.quiet || cfg.quiet;
    cfg.yes = flags.yes;
    cfg.dry_run = flags.dry_run;
}

// ---------------------------------------------------------------------------
// Validation
// ---------------------------------------------------------------------------
/// Why a configuration cannot be used.
#[derive(PartialEq, Eq, Debug, Structural)]
pub enum ConfigError {
    EmptyPrefix,
    EmptyTemplate,
    ZeroRandLen,
    ZeroMaxRetries,
}

/// The first rule the configuration breaks, if any.
pub open spec fn config_problem(cfg: EffectiveConfigView) -> Option<ConfigError> {
    if trim(cfg.default_prefix).len() == 0 {
        Some(ConfigError::EmptyPrefix)
    } else if trim(cfg.template_linux).len() == 0 || trim(cfg.template_macos).len() == 0 {
        Some(ConfigError::EmptyTemplate)
    } else if cfg.naming_rand_len == 0 {
        Some(ConfigError::ZeroRandLen)
    } else if cfg.naming_max_retries == 0 {
        Some(ConfigError::ZeroMaxRetries)
    } else {
        None
    }
}

/// Checks the rules a configuration must keep.
pub fn validate(cfg: &EffectiveConfig) -> (r: Result<(), ConfigError>)
    ensures
        match r {
            Ok(()) => config_problem(cfg@) is None,
            Err(e) => config_problem(cfg@) == Some(e),
        },
{
    if is_blank(cfg.default_prefix.as_str()) {
        return Err(ConfigError::EmptyPrefix);
    }
    if is_blank(cfg.template_linux.as_str()) || is_blank(cfg.template_macos.as_str()) {
        return Err(ConfigError::EmptyTemplate);
    }
    if cfg.naming_rand_len == 0 {
        return Err(ConfigError::ZeroRandLen);
    }
    if cfg.naming_max_retries == 0 {
        return Err(ConfigError::ZeroMaxRetries);
    }
    Ok(())
}

/// The message of each rule.
pub open spec fn config_error_message(e: ConfigError) -> Seq<char> {
    match e {
        ConfigError::EmptyPrefix => "default prefix must not be empty"@,
        ConfigError::EmptyTemplate => "template names must not be empty"@,
        ConfigError::ZeroRandLen => "naming rand length must be greater than zero"@,
        ConfigError::ZeroMaxRetries => "naming max retries must be greater than zero"@,
    }
}

impl ConfigError {
    /// The message shown for the broken rule.
    pub fn message(&self) -> (r: &'static str)
        ensures
            r@ == config_error_message(*self),
    {
        match self {
            ConfigError::EmptyPrefix => "default prefix must not be empty",
            ConfigError::EmptyTemplate => "template names must not be empty",
            ConfigError::ZeroRandLen => "naming rand length must be greater than zero",
            ConfigError::ZeroMaxRetries => "naming max retries must be greater than zero",
        }
    }
}

/// The message when the config file given with `--config` does not exist.
pub fn missing_config_message(path: &str) -> (r: String)
    ensures
        r@ == "config file '"@ + path@ + "' does not exist"@,
{
    let mut r = to_owned("config file '");
    push_str(&mut r, path);
    push_str(&mut r, "' does not exist");
    r
}

// ---------------------------------------------------------------------------
// Loading
// ---------------------------------------------------------------------------
/// The configuration the tool runs with: defaults, then the config file (if
/// there is one), then the environment, then the command line.
pub open spec fn effective(
    flags: CliFlags,
    config_path: Seq<char>,
    state_path: Seq<char>,
    file: Option<FileConfigView>,
    env: EnvConfigView,
) -> EffectiveConfigView {
    let base = default_config(config_path, state_path);
    let from_file = match file {
        Some(f) => with_file(base, f),
        None => base,
    };
    with_flags(with_env(from_file, env), flags)
}

/// `FileConfig` as plain values, if present.
pub open spec fn file_view(file: Option<FileConfig>) -> Option<FileConfigView> {
    match file {
        Some(f) => Some(f@),
        None => None,
    }
}

/// Builds and checks the configuration from what was read: the config path
/// and the default state path, the parsed config file (`None` when it does
/// not exist), and the environment.
pub fn load_effective_from(
    flags: &CliFlags,
    config_path: String,
    state_path: String,
    file: Option<FileConfig>,
    env: EnvConfig,
) -> (r: Result<EffectiveConfig, ConfigError>)
    ensures
        ({
            let want = effective(*flags, config_path@, state_path@, file_view(file), env@);
            match r {
                Ok(cfg) => cfg@ == want && config_problem(want) is None,
                Err(e) => config_problem(want) == Some(e),
            }
        }),
{
    let ghost want = effective(*flags, config_path@, state_path@, file_view(file), env@);
    let mut cfg = EffectiveConfig::defaults(config_path, state_path);
    match file {
        Some(f) => merge_file_config(&mut cfg, f),
        None => {},
    }
    merge_env_config(&mut cfg, env);
    apply_cli_flags(&mut cfg, flags);
    assert(cfg@ == want);
    match validate(&cfg) {
        Ok(()) => Ok(cfg),
        Err(e) => Err(e),
    }
}

/// Configuration precedence: for every setting, a command-line flag wins over
/// the environment, the environment over the config file, and the config
/// file over the built-in default.
pub proof fn law_precedence(
    flags: CliFlags,
    config_path: Seq<char>,
    state_path: Seq<char>,
    file: FileConfigView,
    env: EnvConfigView,
)
    ensures
        ({
            let c = effective(flags, config_path, state_path, Some(file), env);
            let d = default_config(config_path, state_path);
            &&& c.utm_app == override_with(env.utm_app, override_with(file.utm_app, d.utm_app))
            &&& c.utmctl_path == override_opt(
                env.utmctl_path,
                override_opt(file.utmctl_path, d.utmctl_path),
            )
            &&& c.state_path == override_with(
                env.state_path,
                override_with(file.state_path, d.state_path),
            )
            &&& c.default_prefix == override_with(
                env.prefix,
                override_with(file.default_prefix, d.default_prefix),
            )
            &&& c.template_linux == override_with(
                env.template_linux,
                override_with(file.template_linux, d.template_linux),
            )
            &&& c.template_macos == override_with(
                env.template_macos,
                override_with(file.template_macos, d.template_macos),
            )
            &&& c.naming_template == override_with(file.default_template, d.naming_template)
            &&& c.naming_rand_len == override_with(file.rand_len, d.naming_rand_len)
            &&& c.naming_max_retries == override_with(file.max_retries, d.naming_max_retries)
            &&& (flags.json ==> c.json)
            &&& (!flags.json ==> c.json == flag_with(
                env.json,
                override_with(file.default_json, false),
            ))
            &&& (flags.quiet ==> c.quiet)
            &&& (!flags.quiet ==> c.quiet == flag_with(
                env.quiet,
                override_with(file.default_quiet, false),
            ))
            &&& c.yes == flags.yes
            &&& c.dry_run == flags.dry_run
        }),
{
}

// ---------------------------------------------------------------------------
// The boilerplate config file
// ---------------------------------------------------------------------------
/// `true` or `false`, as Rust prints a `bool`.
pub open spec fn bool_text(b: bool) -> Seq<char> {
    if b {
        "true"@
    } else {
        "false"@
    }
}

fn push_bool(out: &mut String, b: bool)
    ensures
        final(out)@ == old(out)@ + bool_text(b),
{
    if b {
        push_str(out, "true");
    } else {
        push_str(out, "false");
    }
}

/// The `utmctl_path` line: the path set, else the usual place, commented out.
pub open spec fn utmctl_line(path: Option<Seq<char>>) -> Seq<char> {
    match path {
        Some(p) => "utmctl_path = \""@ + p + "\"\n"@,
        None => "#utmctl_path = \"/Applications/UTM.app/Contents/MacOS/utmctl\"\n"@,
    }
}

/// The config file that `init` writes for a configuration.
pub open spec fn boilerplate(cfg: EffectiveConfigView) -> Seq<char> {
    "utm_app = \""@ + cfg.utm_app + "\"\n"@ + utmctl_line(cfg.utmctl_path) + "state_path = \""@ + cfg.state_path + "\"\ndefault_prefix = \""@
        + cfg.default_prefix + "\"\n\n[templates]\nlinux = \""@ + cfg.template_linux
        + "\"\nmacos = \""@ + cfg.template_macos + "\"\n\n[naming]\ndefault_template = \""@
        + cfg.naming_template + "\"\nrand_len = "@ + decimal(cfg.naming_rand_len as nat)
        + "\nmax_retries = "@ + decimal(cfg.naming_max_retries as nat)
        + "\n\n[output]\ndefault_json = "@ + bool_text(cfg.json) + "\ndefault_quiet = "@
        + bool_text(cfg.quiet) + "\n"@
}

/// The `[output]` table comes last and writes each setting from its own
/// field: `default_json` holds `cfg.json` and `default_quiet` holds
/// `cfg.quiet`, each as `true` or `false`.
pub proof fn law_boilerplate_output_table(cfg: EffectiveConfigView)
    ensures
        ({
            let text = boilerplate(cfg);
            let tail = "[output]\ndefault_json = "@ + (if cfg.json {
                "true"@
            } else {
                "false"@
            }) + "\ndefault_quiet = "@ + (if cfg.quiet {
                "true"@
            } else {
                "false"@
            }) + "\n"@;
            text.len() >= tail.len() && text.subrange(text.len() - tail.len(), text.len() as int)
                == tail
        }),
{
    reveal_strlit("[output]\ndefault_json = ");
    reveal_strlit("\n\n[output]\ndefault_json = ");
    reveal_strlit("\ndefault_quiet = ");
    reveal_strlit("\n");
    reveal_strlit("true");
    reveal_strlit("false");
    let text = boilerplate(cfg);
    let head = "utm_app = \""@ + cfg.utm_app + "\"\n"@ + utmctl_line(cfg.utmctl_path)
        + "state_path = \""@ + cfg.state_path + "\"\ndefault_prefix = \""@ + cfg.default_prefix
        + "\"\n\n[templates]\nlinux = \""@ + cfg.template_linux + "\"\nmacos = \""@
        + cfg.template_macos + "\"\n\n[naming]\ndefault_template = \""@ + cfg.naming_template
        + "\"\nrand_len = "@ + decimal(cfg.naming_rand_len as nat) + "\nmax_retries = "@
        + decimal(cfg.naming_max_retries as nat) + "\n\n"@;
    let quiet_line = "\ndefault_quiet = "@ + bool_text(cfg.quiet);
    let tail = "[output]\ndefault_json = "@ + bool_text(cfg.json) + quiet_line + "\n"@;
    reveal_strlit("\n\n");
    assert("\n\n[output]\ndefault_json = "@ =~= "\n\n"@ + "[output]\ndefault_json = "@);
    assert(text =~= head + tail);
    assert(text.subrange(text.len() - tail.len(), text.len() as int) =~= tail);
}

/// The file `init` writes, line by line: `utm_app`, the `utmctl_path` line
/// (commented out with the usual place when no path is set), `state_path`
/// and `default_prefix`; then the `[templates]` table with the Linux and
/// macOS templates, the `[naming]` table with the template, the random
/// length and the retries, and the `[output]` table with the JSON and quiet
/// defaults, each from its own setting, the tables set apart by blank lines.
pub proof fn law_boilerplate_lines(cfg: EffectiveConfigView)
    ensures
        boilerplate(cfg) == "utm_app = \""@ + cfg.utm_app + "\"\n"@ + (match cfg.utmctl_path {
            Some(p) => "utmctl_path = \""@ + p + "\"\n"@,
            None => "#utmctl_path = \"/Applications/UTM.app/Contents/MacOS/utmctl\"\n"@,
        }) + "state_path = \""@ + cfg.state_path + "\"\n"@ + "default_prefix = \""@
            + cfg.default_prefix + "\"\n"@ + "\n"@ + "[templates]\n"@ + "linux = \""@
            + cfg.template_linux + "\"\n"@ + "macos = \""@ + cfg.template_macos + "\"\n"@ + "\n"@
            + "[naming]\n"@ + "default_template = \""@ + cfg.naming_template + "\"\n"@
            + "rand_len = "@ + decimal(cfg.naming_rand_len as nat) + "\n"@ + "max_retries = "@
            + decimal(cfg.naming_max_retries as nat) + "\n"@ + "\n"@ + "[output]\n"@
            + "default_json = "@ + (if cfg.json {
            "true"@
        } else {
            "false"@
        }) + "\n"@ + "default_quiet = "@ + (if cfg.quiet {
            "true"@
        } else {
            "false"@
        }) + "\n"@,
{
    reveal_strlit("utm_app = \"");
    reveal_strlit("\"\n");
    reveal_strlit("#utmctl_path = \"/Applications/UTM.app/Contents/MacOS/utmctl\"\n");
    reveal_strlit("utmctl_path = \"");
    reveal_strlit("state_path = \"");
    reveal_strlit("default_prefix = \"");
    reveal_strlit("\n");
    reveal_strlit("[templates]\n");
    reveal_strlit("linux = \"");
    reveal_strlit("macos = \"");
    reveal_strlit("[naming]\n");
    reveal_strlit("default_template = \"");
    reveal_strlit("rand_len = ");
    reveal_strlit("max_retries = ");
    reveal_strlit("[output]\n");
    reveal_strlit("default_json = ");
    reveal_strlit("default_quiet = ");
    reveal_strlit("true");
    reveal_strlit("false");
    reveal_strlit("\"\nstate_path = \"");
    reveal_strlit("\"\ndefault_prefix = \"");
    reveal_strlit("\"\n\n[templates]\nlinux = \"");
    reveal_strlit("\"\nmacos = \"");
    reveal_strlit("\"\n\n[naming]\ndefault_template = \"");
    reveal_strlit("\"\nrand_len = ");
    reveal_strlit("\nmax_retries = ");
    reveal_strlit("\n\n[output]\ndefault_json = ");
    reveal_strlit("\ndefault_quiet = ");
    assert(boilerplate(cfg) =~= "utm_app = \""@ + cfg.utm_app + "\"\n"@ + (match cfg.utmctl_path {
        Some(p) => "utmctl_path = \""@ + p + "\"\n"@,
        None => "#utmctl_path = \"/Applications/UTM.app/Contents/MacOS/utmctl\"\n"@,
    }) + "state_path = \""@ + cfg.state_path + "\"\n"@ + "default_prefix = \""@
        + cfg.default_prefix + "\"\n"@ + "\n"@ + "[templates]\n"@ + "linux = \""@
        + cfg.template_linux + "\"\n"@ + "macos = \""@ + cfg.template_macos + "\"\n"@ + "\n"@
        + "[naming]\n"@ + "default_template = \""@ + cfg.naming_template + "\"\n"@
        + "rand_len = "@ + decimal(cfg.naming_rand_len as nat) + "\n"@ + "max_retries = "@
        + decimal(cfg.naming_max_retries as nat) + "\n"@ + "\n"@ + "[output]\n"@
        + "default_json = "@ + (if cfg.json {
        "true"@
    } else {
        "false"@
    }) + "\n"@ + "default_quiet = "@ + (if cfg.quiet {
        "true"@
    } else {
        "false"@
    }) + "\n"@);
}

/// The boilerplate config file for a configuration.
#[verifier::rlimit(40)]
pub fn boilerplate_config(cfg: &EffectiveConfig) -> (r: String)
    ensures
        r@ == boilerplate(cfg@),
{
    let mut r = to_owned("utm_app = \"");
    push_str(&mut r, cfg.utm_app.as_str());
    push_str(&mut r, "\"\n");
    match &cfg.utmctl_path {
        Some(p) => {
            push_str(&mut r, "utmctl_path = \"");
            push_str(&mut r, p.as_str());
            push_str(&mut r, "\"\n");
        },
        None => push_str(&mut r, "#utmctl_path = \"/Applications/UTM.app/Contents/MacOS/utmctl\"\n"),
    }
    push_str(&mut r, "state_path = \"");
    push_str(&mut r, cfg.state_path.as_str());
    push_str(&mut r, "\"\ndefault_prefix = \"");
    push_str(&mut r, cfg.default_prefix.as_str());
    push_str(&mut r, "\"\n\n[templates]\nlinux = \"");
    push_str(&mut r, cfg.template_linux.as_str());
    push_str(&mut r, "\"\nmacos = \"");
    push_str(&mut r, cfg.template_macos.as_str());
    push_str(&mut r, "\"\n\n[naming]\ndefault_template = \"");
    push_str(&mut r, cfg.naming_template.as_str());
    push_str(&mut r, "\"\nrand_len = ");
    push_decimal(&mut r, cfg.naming_rand_len as u64);
    push_str(&mut r, "\nmax_retries = ");
    push_decimal(&mut r, cfg.naming_max_retries as u64);
    push_str(&mut r, "\n\n[output]\ndefault_json = ");
    push_bool(&mut r, cfg.json);
    push_str(&mut r, "\ndefault_quiet = ");
    push_bool(&mut r, cfg.quiet);
    push_str(&mut r, "\n");
    r
}

} // verus!
