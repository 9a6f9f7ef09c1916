use utmd::cli::OsType;
use utmd::config::{
    CliFlags, ConfigError, EffectiveConfig, EnvConfig, FileConfig, NamingConfig, OutputConfig,
    TemplateConfig, boilerplate_config, config_path_from, env_flag_exec, load_effective_from,
    state_path_from, user_config_dir_of, validate,
};
use utmd::models::Timestamp;
use utmd::state::{StateFile, VmMetadata, remove_vm_from_state, upsert_vm};

fn meta(name: &str, os: &str, secs: i64) -> VmMetadata {
    VmMetadata {
        name: name.to_string(),
        os: Some(os.to_string()),
        template: Some("[t]-linux".to_string()),
        created_at: Timestamp { secs, nanos: 0 },
    }
}

#[test]
fn state_upsert_then_get_and_remove() {
    let mut state = StateFile::new();
    upsert_vm(&mut state, meta("a", "linux", 1));
    upsert_vm(&mut state, meta("b", "macos", 2));
    assert_eq!(state.len(), 2);
    assert_eq!(state.get("a").map(|m| m.created_at.secs), Some(1));
    upsert_vm(&mut state, meta("a", "macos", 5));
    assert_eq!(state.len(), 2);
    assert_eq!(state.get("a").and_then(|m| m.os.clone()), Some("macos".to_string()));
    remove_vm_from_state(&mut state, "a");
    assert!(state.get("a").is_none());
    assert_eq!(state.get("b").map(|m| m.created_at.secs), Some(2));
    remove_vm_from_state(&mut state, "missing");
    assert_eq!(state.len(), 1);
    assert_eq!(state.entries().len(), 1);
}

fn empty_env() -> EnvConfig {
    EnvConfig {
        utm_app: None,
        utmctl_path: None,
        state_path: None,
        prefix: None,
        template_linux: None,
        template_macos: None,
        json: None,
        quiet: None,
    }
}

fn flags(json: bool) -> CliFlags {
    CliFlags { json, quiet: false, yes: false, dry_run: false }
}

#[test]
fn defaults_when_nothing_is_set() {
    let cfg = load_effective_from(&flags(false), "/c.toml".to_string(), "/s.json".to_string(), None, empty_env())
        .ok()
        .expect("defaults are valid");
    assert_eq!(cfg.utm_app, "/Applications/UTM.app");
    assert_eq!(cfg.utmctl_path, None);
    assert_eq!(cfg.default_prefix, "utmd-");
    assert_eq!(cfg.template_for(OsType::Linux), "[t]-linux");
    assert_eq!(cfg.template_for(OsType::Macos), "[t]-macos");
    assert_eq!(cfg.naming_template, "{prefix}{os}-{rand}");
    assert_eq!(cfg.naming_rand_len, 4);
    assert_eq!(cfg.naming_max_retries, 8);
    assert_eq!(cfg.state_path, "/s.json");
    assert!(!cfg.json && !cfg.quiet && !cfg.yes && !cfg.dry_run);
}

#[test]
fn precedence_flags_env_file_defaults() {
    let file = FileConfig {
        utm_app: Some("/file/UTM.app".to_string()),
        utmctl_path: None,
        state_path: Some("/file/state.json".to_string()),
        default_prefix: Some("file-".to_string()),
        templates: Some(TemplateConfig { linux: Some("file-linux".to_string()), macos: None }),
        naming: Some(NamingConfig { default_template: Some("{os}-{rand}".to_string()), rand_len: Some(6), max_retries: None }),
        output: Some(OutputConfig { default_json: Some(true), default_quiet: Some(true) }),
    };
    let mut env = empty_env();
    env.prefix = Some("env-".to_string());
    env.quiet = Some("no".to_string());
    let cfg = load_effective_from(&flags(false), "/c".to_string(), "/s".to_string(), Some(file), env)
        .ok()
        .expect("valid");
    assert_eq!(cfg.utm_app, "/file/UTM.app");
    assert_eq!(cfg.utmctl_path, None);
    assert_eq!(cfg.state_path, "/file/state.json");
    assert_eq!(cfg.default_prefix, "env-");
    assert_eq!(cfg.template_linux, "file-linux");
    assert_eq!(cfg.template_macos, "[t]-macos");
    assert_eq!(cfg.naming_template, "{os}-{rand}");
    assert_eq!(cfg.naming_rand_len, 6);
    assert_eq!(cfg.naming_max_retries, 8);
    assert!(cfg.json);
    assert!(!cfg.quiet);
}

#[test]
fn env_flags() {
    assert!(env_flag_exec("1"));
    assert!(env_flag_exec("true"));
    assert!(env_flag_exec("yes"));
    assert!(!env_flag_exec("TRUE"));
    assert!(!env_flag_exec("0"));
}

#[test]
fn validation_errors_in_order() {
    let mut env = empty_env();
    env.prefix = Some("  ".to_string());
    env.template_linux = Some("".to_string());
    let r = load_effective_from(&flags(false), "/c".to_string(), "/s".to_string(), None, env);
    assert!(matches!(r, Err(ConfigError::EmptyPrefix)));
    let mut cfg = EffectiveConfig::defaults("/c".to_string(), "/s".to_string());
    assert!(validate(&cfg).is_ok());
    cfg.template_macos = " ".to_string();
    assert!(matches!(validate(&cfg), Err(ConfigError::EmptyTemplate)));
    cfg.template_macos = "m".to_string();
    cfg.naming_rand_len = 0;
    assert!(matches!(validate(&cfg), Err(ConfigError::ZeroRandLen)));
    cfg.naming_rand_len = 1;
    cfg.naming_max_retries = 0;
    let e = validate(&cfg).err().expect("zero retries is refused");
    assert_eq!(e.message(), "naming max retries must be greater than zero");
    assert_eq!(ConfigError::EmptyPrefix.message(), "default prefix must not be empty");
}

#[test]
fn boilerplate_text() {
    let cfg = EffectiveConfig::defaults("/c".to_string(), "/Users/user/.config/utmd/state.json".to_string());
    let text = boilerplate_config(&cfg);
    assert_eq!(
        text,
        "utm_app = \"/Applications/UTM.app\"\n#utmctl_path = \"/Applications/UTM.app/Contents/MacOS/utmctl\"\nstate_path = \"/Users/user/.config/utmd/state.json\"\ndefault_prefix = \"utmd-\"\n\n[templates]\nlinux = \"[t]-linux\"\nmacos = \"[t]-macos\"\n\n[naming]\ndefault_template = \"{prefix}{os}-{rand}\"\nrand_len = 4\nmax_retries = 8\n\n[output]\ndefault_json = false\ndefault_quiet = false\n"
    );
}

#[test]
fn default_paths() {
    assert_eq!(config_path_from(Some("/home/u/.config".to_string())), "/home/u/.config/utmd/config.toml");
    assert_eq!(config_path_from(None), "/tmp/utmd/config.toml");
    assert_eq!(state_path_from(Some("/st".to_string()), Some("/cf".to_string())), "/st/utmd/state.json");
    assert_eq!(state_path_from(None, Some("/cf".to_string())), "/cf/utmd/state.json");
    assert_eq!(state_path_from(None, None), "/tmp/utmd-state.json");
    assert_eq!(user_config_dir_of(Some("/Users/user".to_string())), Some("/Users/user/.config".to_string()));
    assert_eq!(user_config_dir_of(None), None);
    let dir = user_config_dir_of(Some("/Users/user/".to_string()));
    assert_eq!(config_path_from(dir.clone()), "/Users/user/.config/utmd/config.toml");
    assert_eq!(state_path_from(None, dir), "/Users/user/.config/utmd/state.json");
}

#[test]
fn utmctl_path_from_file_then_env() {
    let file = FileConfig {
        utm_app: None,
        utmctl_path: Some("/file/utmctl".to_string()),
        state_path: None,
        default_prefix: None,
        templates: None,
        naming: None,
        output: None,
    };
    let cfg = load_effective_from(&flags(false), "/c".to_string(), "/s".to_string(), Some(file), empty_env())
        .ok()
        .expect("valid");
    assert_eq!(cfg.utmctl_path, Some("/file/utmctl".to_string()));
    let text = boilerplate_config(&cfg);
    assert!(text.contains("\nutmctl_path = \"/file/utmctl\"\n"));
    let mut env = empty_env();
    env.utmctl_path = Some("/env/utmctl".to_string());
    let cfg = load_effective_from(&flags(false), "/c".to_string(), "/s".to_string(), None, env)
        .ok()
        .expect("valid");
    assert_eq!(cfg.utmctl_path, Some("/env/utmctl".to_string()));
}
