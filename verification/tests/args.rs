use nix_ffi::args::{holds_nul, to_c_string, to_env_entry, ConfigError, NixConfig};

fn strings(items: &[&str]) -> Vec<Vec<u8>> {
    items.iter().map(|s| s.as_bytes().to_vec()).collect()
}

fn vars(items: &[(&str, &str)]) -> Vec<(Vec<u8>, Vec<u8>)> {
    items.iter().map(|(k, v)| (k.as_bytes().to_vec(), v.as_bytes().to_vec())).collect()
}

#[test]
fn default_configuration_is_empty() {
    let cfg = NixConfig::default();
    assert!(cfg.extra_args.is_empty());
    assert_eq!(cfg.vars, None);
}

#[test]
fn argument_vector_without_extras() {
    let built = NixConfig::default().process_args(b"/opt/nix-ffi").unwrap();
    assert_eq!(
        built.argv,
        strings(&[
            "nix\0",
            "--extra-experimental-features\0",
            "nix-command\0",
            "--extra-plugin-files\0",
            "/opt/nix-ffi/lib/nix/plugins\0",
            "ffi-helper\0",
        ])
    );
    assert_eq!(built.envp, None);
}

#[test]
fn extra_arguments_stand_before_the_subcommand() {
    let cfg = NixConfig { extra_args: strings(&["--store", "/tmp/store", ""]), vars: None };
    let built = cfg.process_args(b"/usr").unwrap();
    assert_eq!(
        built.argv,
        strings(&[
            "nix\0",
            "--extra-experimental-features\0",
            "nix-command\0",
            "--extra-plugin-files\0",
            "/usr/lib/nix/plugins\0",
            "--store\0",
            "/tmp/store\0",
            "\0",
            "ffi-helper\0",
        ])
    );
}

#[test]
fn empty_prefix_gives_the_bare_plugin_directory() {
    let built = NixConfig::default().process_args(b"").unwrap();
    assert_eq!(built.argv[4], b"/lib/nix/plugins\0".to_vec());
}

#[test]
fn environment_vector_keeps_the_order_of_the_variables() {
    let cfg = NixConfig {
        extra_args: Vec::new(),
        vars: Some(vars(&[("NIX_STORE_DIR", "/r/store"), ("NIX_IGNORE_SYMLINK_STORE", "1"), ("EMPTY", "")])),
    };
    let built = cfg.process_args(b"/p").unwrap();
    assert_eq!(
        built.envp,
        Some(strings(&["NIX_STORE_DIR=/r/store\0", "NIX_IGNORE_SYMLINK_STORE=1\0", "EMPTY=\0"]))
    );
}

#[test]
fn empty_environment_is_not_the_inherited_one() {
    let cfg = NixConfig { extra_args: Vec::new(), vars: Some(Vec::new()) };
    let built = cfg.process_args(b"/p").unwrap();
    assert_eq!(built.envp, Some(Vec::new()));
}

#[test]
fn every_entry_ends_in_its_only_nul() {
    let cfg = NixConfig {
        extra_args: strings(&["a", "bc"]),
        vars: Some(vars(&[("K", "V"), ("X", "=")])),
    };
    let built = cfg.process_args(b"/p").unwrap();
    for entry in built.argv.iter().chain(built.envp.unwrap().iter()) {
        assert_eq!(entry.last(), Some(&0u8));
        assert!(!holds_nul(&entry[..entry.len() - 1]));
    }
}

#[test]
fn nul_in_the_prefix_is_named() {
    let cfg = NixConfig { extra_args: strings(&["a\0b"]), vars: None };
    assert_eq!(cfg.process_args(b"/op\0t"), Err(ConfigError::PluginPrefix));
}

#[test]
fn first_extra_argument_with_a_nul_is_named() {
    let cfg = NixConfig {
        extra_args: strings(&["ok", "a\0b", "fine", "\0"]),
        vars: Some(vars(&[("K\0", "V")])),
    };
    assert_eq!(cfg.process_args(b"/p"), Err(ConfigError::ExtraArg(1)));
}

#[test]
fn first_variable_with_a_nul_is_named() {
    let cfg = NixConfig {
        extra_args: strings(&["ok"]),
        vars: Some(vars(&[("A", "1"), ("B", "2"), ("C", "3\0"), ("D\0", "4")])),
    };
    assert_eq!(cfg.process_args(b"/p"), Err(ConfigError::Variable(2)));
    let cfg = NixConfig { extra_args: Vec::new(), vars: Some(vars(&[("\0", "")])) };
    assert_eq!(cfg.process_args(b"/p"), Err(ConfigError::Variable(0)));
}

#[test]
fn nul_bytes_are_found() {
    assert!(!holds_nul(b""));
    assert!(!holds_nul(b"plain"));
    assert!(holds_nul(b"\0"));
    assert!(holds_nul(b"end\0"));
    assert!(holds_nul(b"\0start"));
}

#[test]
fn c_string_has_one_more_byte() {
    assert_eq!(to_c_string(b"nix"), b"nix\0".to_vec());
    assert_eq!(to_c_string(b""), vec![0u8]);
}

#[test]
fn env_entry_is_key_equals_value() {
    assert_eq!(to_env_entry(b"HOME", b"/root"), b"HOME=/root\0".to_vec());
    assert_eq!(to_env_entry(b"", b""), b"=\0".to_vec());
    assert_eq!(to_env_entry(b"A", b"b=c"), b"A=b=c\0".to_vec());
}
