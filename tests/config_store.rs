use quantum_exegol::config::{Config, ConfigManager, Platform, StoredConfig, get_default_docker_socket, parse_bool_or};

fn sample_defaults() -> Config {
    Config::default_for(Platform::Unix, "/home/u/.local/share/quantum-exegol".to_string(), "/home/u/quantum-workspace".to_string())
}

fn assert_same(a: &Config, b: &Config) {
    assert_eq!(a.docker_socket, b.docker_socket);
    assert_eq!(a.default_image, b.default_image);
    assert_eq!(a.data_dir, b.data_dir);
    assert_eq!(a.auto_update, b.auto_update);
    assert_eq!(a.default_shell, b.default_shell);
    assert_eq!(a.workspace, b.workspace);
    assert_eq!(a.gpu_enabled, b.gpu_enabled);
    assert_eq!(a.network_mode, b.network_mode);
}

#[test]
fn default_socket_per_platform() {
    assert_eq!(get_default_docker_socket(Platform::Windows), "npipe:////./pipe/docker_engine");
    assert_eq!(get_default_docker_socket(Platform::Unix), "/var/run/docker.sock");
}

#[test]
fn default_policy_fixed_fields() {
    let c = sample_defaults();
    assert_eq!(c.docker_socket, "/var/run/docker.sock");
    assert_eq!(c.default_image, "quantum/security:latest");
    assert_eq!(c.data_dir, "/home/u/.local/share/quantum-exegol");
    assert!(c.auto_update);
    assert_eq!(c.default_shell, "/bin/bash");
    assert_eq!(c.workspace, "/home/u/quantum-workspace");
    assert!(!c.gpu_enabled);
    assert_eq!(c.network_mode, "bridge");
}

#[test]
fn defaults_complete_on_every_platform() {
    for p in [Platform::Windows, Platform::Unix] {
        let c = Config::defaults(p);
        assert!(!c.docker_socket.is_empty());
        assert!(!c.default_image.is_empty());
        assert!(c.data_dir.ends_with("quantum-exegol"));
        assert!(!c.default_shell.is_empty());
        assert!(c.workspace.ends_with("quantum-workspace"));
        assert!(!c.network_mode.is_empty());
        let i = ConfigManager::init(p);
        assert_eq!(i.docker_socket, get_default_docker_socket(p));
    }
}

#[test]
fn defaults_from_looked_up_directories() {
    let c = Config::defaults_from(Platform::Unix, Some("/home/u/.local/share".to_string()), Some("/home/u".to_string()));
    assert_eq!(c.data_dir, "/home/u/.local/share/quantum-exegol");
    assert_eq!(c.workspace, "/home/u/quantum-workspace");
    assert_eq!(c.docker_socket, "/var/run/docker.sock");
    let c = Config::defaults_from(Platform::Windows, None, None);
    assert_eq!(c.data_dir, "./quantum-exegol");
    assert_eq!(c.workspace, "./quantum-workspace");
    assert_eq!(c.docker_socket, "npipe:////./pipe/docker_engine");
}

#[test]
fn config_paths_from_one_lookup() {
    let (folder, file) = ConfigManager::config_paths();
    assert!(folder.ends_with("quantum-exegol"));
    assert_eq!(file, format!("{}/config.json", folder));
}

#[test]
fn config_file_is_inside_folder() {
    let folder = ConfigManager::config_folder();
    assert!(folder.ends_with("quantum-exegol"));
    assert_eq!(ConfigManager::config_file_in("/etc/qx"), "/etc/qx/config.json");
    assert_eq!(ConfigManager::config_file_in("/etc/qx/"), "/etc/qx/config.json");
}

#[test]
fn parsed_file_is_taken_whole() {
    let mut stored = sample_defaults();
    stored.network_mode = "host".to_string();
    stored.gpu_enabled = true;
    stored.docker_socket = "tcp://10.0.0.1:2375".to_string();
    let loaded = ConfigManager::load_from(StoredConfig::Parsed(stored.clone()), sample_defaults());
    assert_same(&loaded, &stored);
}

#[test]
fn malformed_file_gives_defaults() {
    let stored = StoredConfig::Malformed("EOF while parsing an object at line 3 column 0".to_string());
    let warning = ConfigManager::load_warning(&stored);
    assert_eq!(
        warning.as_deref(),
        Some("Warning: Failed to parse config: EOF while parsing an object at line 3 column 0")
    );
    let loaded = ConfigManager::load_from(stored, sample_defaults());
    assert_same(&loaded, &sample_defaults());
}

#[test]
fn unreadable_file_gives_defaults() {
    let stored = StoredConfig::Unreadable("permission denied".to_string());
    assert_eq!(
        ConfigManager::load_warning(&stored).as_deref(),
        Some("Warning: Failed to read config: permission denied")
    );
    let loaded = ConfigManager::load_from(stored, sample_defaults());
    assert_same(&loaded, &sample_defaults());
}

#[test]
fn missing_file_gives_defaults() {
    assert!(ConfigManager::load_warning(&StoredConfig::Missing).is_none());
    let loaded = ConfigManager::load_from(StoredConfig::Missing, sample_defaults());
    assert_same(&loaded, &sample_defaults());
}

#[test]
fn update_network_mode_only() {
    let updated = ConfigManager::update(sample_defaults(), "network_mode", "host").unwrap();
    let mut expected = sample_defaults();
    expected.network_mode = "host".to_string();
    assert_same(&updated, &expected);
}

#[test]
fn update_each_text_field() {
    let c = ConfigManager::update(sample_defaults(), "docker_socket", "unix:///tmp/d.sock").unwrap();
    assert_eq!(c.docker_socket, "unix:///tmp/d.sock");
    let c = ConfigManager::update(c, "default_image", "quantum/security:full").unwrap();
    assert_eq!(c.default_image, "quantum/security:full");
    let c = ConfigManager::update(c, "data_dir", "/data").unwrap();
    assert_eq!(c.data_dir, "/data");
    let c = ConfigManager::update(c, "default_shell", "/bin/zsh").unwrap();
    assert_eq!(c.default_shell, "/bin/zsh");
    let c = ConfigManager::update(c, "workspace", "/ws").unwrap();
    assert_eq!(c.workspace, "/ws");
    assert_eq!(c.network_mode, "bridge");
}

#[test]
fn update_unknown_key_is_rejected() {
    let r = ConfigManager::update(sample_defaults(), "not_a_field", "x");
    assert_eq!(r.err().as_deref(), Some("Unknown config key: not_a_field"));
    let r = ConfigManager::update(sample_defaults(), "Network_mode", "host");
    assert_eq!(r.err().as_deref(), Some("Unknown config key: Network_mode"));
}

#[test]
fn update_auto_update_booleans() {
    let c = ConfigManager::update(sample_defaults(), "auto_update", "false").unwrap();
    assert!(!c.auto_update);
    let c = ConfigManager::update(c, "auto_update", "true").unwrap();
    assert!(c.auto_update);
    let mut off = sample_defaults();
    off.auto_update = false;
    let c = ConfigManager::update(off, "auto_update", "not-a-bool").unwrap();
    assert!(c.auto_update);
    let mut off = sample_defaults();
    off.auto_update = false;
    let c = ConfigManager::update(off, "auto_update", "False").unwrap();
    assert!(c.auto_update);
}

#[test]
fn update_gpu_enabled_booleans() {
    let c = ConfigManager::update(sample_defaults(), "gpu_enabled", "true").unwrap();
    assert!(c.gpu_enabled);
    let c = ConfigManager::update(c, "gpu_enabled", "yes").unwrap();
    assert!(!c.gpu_enabled);
    let mut on = sample_defaults();
    on.gpu_enabled = true;
    let c = ConfigManager::update(on, "gpu_enabled", "false").unwrap();
    assert!(!c.gpu_enabled);
}

#[test]
fn parse_bool_literals() {
    assert!(parse_bool_or("true", false));
    assert!(!parse_bool_or("false", true));
    assert!(parse_bool_or("", true));
    assert!(!parse_bool_or("TRUE", false));
    assert!(!parse_bool_or("1", false));
}
