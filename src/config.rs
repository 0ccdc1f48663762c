//! The configuration record, its defaulting policy, the load decision and the
//! single-key update.

use vstd::prelude::*;
use vstd::string::*;
use crate::paths::{
    dir_view, ends_with, host_config_dir, host_data_local_dir, host_home_dir, join_or_current,
    join_path, joined, lemma_folder_names_plain, or_current,
};
use crate::utils::{app_data_dir_from, workspace_dir_from};

verus! {

/// The host operating system identity, as far as the defaults depend on it.
#[derive(Clone, Copy, Debug, PartialEq, Eq, Structural)]
pub enum Platform {
    Windows,
    Unix,
}

/// The user-tunable settings.
#[derive(Clone, Debug)]
pub struct Config {
    /// Docker socket path
    pub docker_socket: String,
    /// Default image to use
    pub default_image: String,
    /// Data directory
    pub data_dir: String,
    /// Auto-update images
    pub auto_update: bool,
    /// Default shell
    pub default_shell: String,
    /// Workspace directory
    pub workspace: String,
    /// GPU support enabled
    pub gpu_enabled: bool,
    /// Network mode
    pub network_mode: String,
}

/// A `Config` with its strings seen as character sequences.
pub struct ConfigView {
    pub docker_socket: Seq<char>,
    pub default_image: Seq<char>,
    pub data_dir: Seq<char>,
    pub auto_update: bool,
    pub default_shell: Seq<char>,
    pub workspace: Seq<char>,
    pub gpu_enabled: bool,
    pub network_mode: Seq<char>,
}

impl View for Config {
    type V = ConfigView;

    open spec fn view(&self) -> ConfigView {
        ConfigView {
            docker_socket: self.docker_socket@,
            default_image: self.default_image@,
            data_dir: self.data_dir@,
            auto_update: self.auto_update,
            default_shell: self.default_shell@,
            workspace: self.workspace@,
            gpu_enabled: self.gpu_enabled,
            network_mode: self.network_mode@,
        }
    }
}

/// The Docker endpoint of a platform: a named pipe on Windows, a Unix domain
/// socket elsewhere.
pub open spec fn socket_for(platform: Platform) -> Seq<char> {
    match platform {
        Platform::Windows => "npipe:////./pipe/docker_engine"@,
        Platform::Unix => "/var/run/docker.sock"@,
    }
}

/// The default configuration of a platform, given its data and workspace
/// directories.
pub open spec fn default_view(
    platform: Platform,
    data_dir: Seq<char>,
    workspace: Seq<char>,
) -> ConfigView {
    ConfigView {
        docker_socket: socket_for(platform),
        default_image: "quantum/security:latest"@,
        data_dir,
        auto_update: true,
        default_shell: "/bin/bash"@,
        workspace,
        gpu_enabled: false,
        network_mode: "bridge"@,
    }
}

/// Every text field is populated.
pub open spec fn is_complete(c: ConfigView) -> bool {
    &&& c.docker_socket.len() > 0
    &&& c.default_image.len() > 0
    &&& c.data_dir.len() > 0
    &&& c.default_shell.len() > 0
    &&& c.workspace.len() > 0
    &&& c.network_mode.len() > 0
}

/// The default policy leaves no field empty, on every platform, as long as the
/// two directories it is given are not empty.
pub proof fn lemma_defaults_complete(platform: Platform, data_dir: Seq<char>, workspace: Seq<char>)
    requires
        data_dir.len() > 0,
        workspace.len() > 0,
    ensures
        is_complete(default_view(platform, data_dir, workspace)),
{
    reveal_strlit("npipe:////./pipe/docker_engine");
    reveal_strlit("/var/run/docker.sock");
    reveal_strlit("quantum/security:latest");
    reveal_strlit("/bin/bash");
    reveal_strlit("bridge");
}

/// The Docker endpoint used by default on `platform`.
pub fn get_default_docker_socket(platform: Platform) -> (r: String)
    ensures
        r@ == socket_for(platform),
{
    match platform {
        Platform::Windows => String::from_str("npipe:////./pipe/docker_engine"),
        Platform::Unix => String::from_str("/var/run/docker.sock"),
    }
}

impl Config {
    /// The default configuration of `platform` with the given data and
    /// workspace directories.
    pub fn default_for(platform: Platform, data_dir: String, workspace: String) -> (r: Config)
        ensures
            r@ == default_view(platform, data_dir@, workspace@),
    {
        Config {
            docker_socket: get_default_docker_socket(platform),
            default_image: String::from_str("quantum/security:latest"),
            data_dir,
            auto_update: true,
            default_shell: String::from_str("/bin/bash"),
            workspace,
            gpu_enabled: false,
            network_mode: String::from_str("bridge"),
        }
    }

    /// The default configuration of `platform` for the looked-up local data
    /// and home directories: the data directory and the workspace are their
    /// `quantum-exegol` and `quantum-workspace` folders, with the current
    /// directory standing for a directory that was not found.
    pub fn defaults_from(
        platform: Platform,
        data_local: Option<String>,
        home: Option<String>,
    ) -> (r: Config)
        ensures
            r@ == default_view(
                platform,
                app_data_dir_from(dir_view(data_local)),
                workspace_dir_from(dir_view(home)),
            ),
            is_complete(r@),
    {
        proof {
            lemma_folder_names_plain();
        }
        let data_dir = join_or_current(data_local, "quantum-exegol");
        let workspace = join_or_current(home, "quantum-workspace");
        let r = Config::default_for(platform, data_dir, workspace);
        proof {
            reveal_strlit("quantum-exegol");
            reveal_strlit("quantum-workspace");
            lemma_defaults_complete(platform, r@.data_dir, r@.workspace);
        }
        r
    }

    /// The default configuration of `platform`, with the data directory and
    /// the workspace taken from the user's directories.
    pub fn defaults(platform: Platform) -> (r: Config)
        ensures
            exists|d: Option<Seq<char>>, h: Option<Seq<char>>|
                r@ == default_view(platform, app_data_dir_from(d), workspace_dir_from(h)),
            is_complete(r@),
    {
        let data_local = host_data_local_dir();
        let home = host_home_dir();
        let ghost d = dir_view(data_local);
        let ghost h = dir_view(home);
        let r = Config::defaults_from(platform, data_local, home);
        assert(r@ == default_view(platform, app_data_dir_from(d), workspace_dir_from(h)));
        r
    }
}

/// What was found at the configuration file's place.
#[derive(Debug)]
pub enum StoredConfig {
    /// No file.
    Missing,
    /// A file that could not be read, with the reason.
    Unreadable(String),
    /// A file whose content is not a configuration, with the reason.
    Malformed(String),
    /// A file that holds a configuration.
    Parsed(Config),
}

/// The configuration in force after loading: the stored one, whole, or else
/// the defaults, whole.
pub open spec fn loaded_view(stored: StoredConfig, defaults: ConfigView) -> ConfigView {
    match stored {
        StoredConfig::Parsed(c) => c@,
        _ => defaults,
    }
}

/// A configuration read back from its file is the one in force, whole: no
/// field of the defaults is merged into it.
pub proof fn lemma_parsed_taken_whole(c: Config, defaults: ConfigView)
    ensures
        loaded_view(StoredConfig::Parsed(c), defaults) == c@,
{
}

/// A missing, unreadable or malformed file leaves the defaults in force,
/// whole.
pub proof fn lemma_unparsed_gives_defaults(stored: StoredConfig, defaults: ConfigView)
    requires
        !(stored is Parsed),
    ensures
        loaded_view(stored, defaults) == defaults,
{
}

/// The diagnostic emitted while loading, if any.
pub open spec fn load_warning_text(stored: StoredConfig) -> Option<Seq<char>> {
    match stored {
        StoredConfig::Unreadable(e) => Some("Warning: Failed to read config: "@ + e@),
        StoredConfig::Malformed(e) => Some("Warning: Failed to parse config: "@ + e@),
        _ => None,
    }
}

/// The folder of the configuration file for a looked-up configuration
/// directory (the current directory when there is none).
pub open spec fn config_folder_from(config_dir: Option<Seq<char>>) -> Seq<char> {
    joined(or_current(config_dir), "quantum-exegol"@)
}

/// The configuration file's path for a looked-up configuration directory.
pub open spec fn config_file_from(config_dir: Option<Seq<char>>) -> Seq<char> {
    joined(config_folder_from(config_dir), "config.json"@)
}

/// The names of the configuration's fields.
pub open spec fn is_field_name(key: Seq<char>) -> bool {
    ||| key == "docker_socket"@
    ||| key == "default_image"@
    ||| key == "data_dir"@
    ||| key == "auto_update"@
    ||| key == "default_shell"@
    ||| key == "workspace"@
    ||| key == "gpu_enabled"@
    ||| key == "network_mode"@
}

/// A boolean read from text: the two literals `true` and `false`, and
/// `fallback` for any other text.
pub open spec fn bool_or(value: Seq<char>, fallback: bool) -> bool {
    if value == "true"@ {
        true
    } else if value == "false"@ {
        false
    } else {
        fallback
    }
}

/// `c` with the field named `key` set from `value`; `c` itself for another key.
pub open spec fn updated_view(c: ConfigView, key: Seq<char>, value: Seq<char>) -> ConfigView {
    if key == "docker_socket"@ {
        ConfigView { docker_socket: value, ..c }
    } else if key == "default_image"@ {
        ConfigView { default_image: value, ..c }
    } else if key == "data_dir"@ {
        ConfigView { data_dir: value, ..c }
    } else if key == "auto_update"@ {
        ConfigView { auto_update: bool_or(value, true), ..c }
    } else if key == "default_shell"@ {
        ConfigView { default_shell: value, ..c }
    } else if key == "workspace"@ {
        ConfigView { workspace: value, ..c }
    } else if key == "gpu_enabled"@ {
        ConfigView { gpu_enabled: bool_or(value, false), ..c }
    } else if key == "network_mode"@ {
        ConfigView { network_mode: value, ..c }
    } else {
        c
    }
}

/// The eight field names are told apart by their lengths and letters.
pub proof fn lemma_field_names_distinct()
    ensures
        "docker_socket"@.len() == 13,
        "default_image"@.len() == 13,
        "data_dir"@.len() == 8,
        "auto_update"@.len() == 11,
        "default_shell"@.len() == 13,
        "workspace"@.len() == 9,
        "gpu_enabled"@.len() == 11,
        "network_mode"@.len() == 12,
        "docker_socket"@ != "default_image"@,
        "docker_socket"@ != "default_shell"@,
        "default_image"@ != "default_shell"@,
        "auto_update"@ != "gpu_enabled"@,
{
    reveal_strlit("docker_socket");
    reveal_strlit("default_image");
    reveal_strlit("data_dir");
    reveal_strlit("auto_update");
    reveal_strlit("default_shell");
    reveal_strlit("workspace");
    reveal_strlit("gpu_enabled");
    reveal_strlit("network_mode");
    assert("docker_socket"@[1] != "default_image"@[1]);
    assert("docker_socket"@[1] != "default_shell"@[1]);
    assert("default_image"@[8] != "default_shell"@[8]);
    assert("auto_update"@[0] != "gpu_enabled"@[0]);
}

/// Setting `network_mode` changes that field to the given text and keeps
/// every other field.
pub proof fn lemma_update_network_mode_only(c: ConfigView, value: Seq<char>)
    ensures
        updated_view(c, "network_mode"@, value) == (ConfigView { network_mode: value, ..c }),
{
    lemma_field_names_distinct();
}

/// Setting a text field changes that field alone: every field whose name
/// differs from `key` keeps its value.
pub proof fn lemma_update_keeps_other_fields(c: ConfigView, key: Seq<char>, value: Seq<char>)
    ensures
        key != "docker_socket"@ ==> updated_view(c, key, value).docker_socket == c.docker_socket,
        key != "default_image"@ ==> updated_view(c, key, value).default_image == c.default_image,
        key != "data_dir"@ ==> updated_view(c, key, value).data_dir == c.data_dir,
        key != "auto_update"@ ==> updated_view(c, key, value).auto_update == c.auto_update,
        key != "default_shell"@ ==> updated_view(c, key, value).default_shell == c.default_shell,
        key != "workspace"@ ==> updated_view(c, key, value).workspace == c.workspace,
        key != "gpu_enabled"@ ==> updated_view(c, key, value).gpu_enabled == c.gpu_enabled,
        key != "network_mode"@ ==> updated_view(c, key, value).network_mode == c.network_mode,
{
    lemma_field_names_distinct();
}

/// `auto_update` read from text is false exactly for `false`: `true` and
/// every text that is not a boolean literal give true.
pub proof fn lemma_auto_update_coercion(c: ConfigView, value: Seq<char>)
    ensures
        updated_view(c, "auto_update"@, value).auto_update == (value != "false"@),
{
    lemma_field_names_distinct();
    reveal_strlit("true");
    reveal_strlit("false");
    assert("true"@.len() == 4 && "false"@.len() == 5);
}

/// `gpu_enabled` read from text is true exactly for `true`: `false` and
/// every text that is not a boolean literal give false.
pub proof fn lemma_gpu_enabled_coercion(c: ConfigView, value: Seq<char>)
    ensures
        updated_view(c, "gpu_enabled"@, value).gpu_enabled == (value == "true"@),
{
    lemma_field_names_distinct();
    reveal_strlit("true");
    reveal_strlit("false");
}

/// Whether two texts are the same.
fn same_text(a: &str, b: &str) -> (r: bool)
    ensures
        r == (a@ == b@),
{
    let n = a.unicode_len();
    let m = b.unicode_len();
    if n != m {
        return false;
    }
    let mut i: usize = 0;
    while i < n
        invariant
            n == a@.len(),
            n == b@.len(),
            i <= n,
            forall|j: int| 0 <= j < i ==> a@[j] == b@[j],
        decreases n - i,
    {
        if a.get_char(i) != b.get_char(i) {
            return false;
        }
        i = i + 1;
    }
    assert(a@ == b@);
    true
}

/// Reads a boolean: `true` and `false` stand for themselves, any other text
/// gives `fallback`.
pub fn parse_bool_or(value: &str, fallback: bool) -> (r: bool)
    ensures
        r == bool_or(value@, fallback),
{
    if same_text(value, "true") {
        true
    } else if same_text(value, "false") {
        false
    } else {
        fallback
    }
}

/// Loading and updating the configuration. The file itself is read and
/// written by the caller; these functions decide what it holds.
pub struct ConfigManager;

impl ConfigManager {
    /// The folder that holds the configuration file: the platform's
    /// configuration directory (or the current directory when there is none)
    /// joined with `quantum-exegol`.
    pub fn config_folder() -> (r: String)
        ensures
            exists|c: Option<Seq<char>>| r@ == config_folder_from(c),
    {
        proof {
            lemma_folder_names_plain();
        }
        let found = host_config_dir();
        let ghost c = dir_view(found);
        let r = join_or_current(found, "quantum-exegol");
        assert(r@ == config_folder_from(c));
        r
    }

    /// The configuration file inside `folder`.
    pub fn config_file_in(folder: &str) -> (r: String)
        ensures
            r@ == joined(folder@, "config.json"@),
    {
        proof {
            lemma_folder_names_plain();
        }
        join_path(folder, "config.json")
    }

    /// The configuration folder and the file inside it, from one lookup of
    /// the platform's configuration directory.
    pub fn config_paths() -> (r: (String, String))
        ensures
            exists|c: Option<Seq<char>>|
                r.0@ == config_folder_from(c) && r.1@ == config_file_from(c),
    {
        let folder = Self::config_folder();
        let file = Self::config_file_in(folder.as_str());
        (folder, file)
    }

    /// The configuration in force, given what was found at the file's place:
    /// a parsed file is taken whole; a missing, unreadable or malformed one
    /// gives `defaults`, whole.
    pub fn load_from(stored: StoredConfig, defaults: Config) -> (r: Config)
        ensures
            r@ == loaded_view(stored, defaults@),
    {
        match stored {
            StoredConfig::Parsed(c) => c,
            _ => defaults,
        }
    }

    /// The diagnostic line for an unreadable or malformed file; none otherwise.
    pub fn load_warning(stored: &StoredConfig) -> (r: Option<String>)
        ensures
            r matches Some(m) ==> load_warning_text(*stored) == Some(m@),
            r is None ==> load_warning_text(*stored) is None,
    {
        match stored {
            StoredConfig::Unreadable(e) => Some(
                String::from_str("Warning: Failed to read config: ").concat(e.as_str()),
            ),
            StoredConfig::Malformed(e) => Some(
                String::from_str("Warning: Failed to parse config: ").concat(e.as_str()),
            ),
            _ => None,
        }
    }

    /// The configuration written on first use: the defaults of `platform`.
    pub fn init(platform: Platform) -> (r: Config)
        ensures
            exists|d: Option<Seq<char>>, h: Option<Seq<char>>|
                r@ == default_view(platform, app_data_dir_from(d), workspace_dir_from(h)),
            is_complete(r@),
    {
        Config::defaults(platform)
    }

    /// Sets the field named `key` of `config` from `value`. Text fields take
    /// `value` as it is; `auto_update` and `gpu_enabled` read it as a boolean,
    /// with `true` and `false` respectively for any text other than those two
    /// literals. A key that names no field is an error, and nothing changes.
    pub fn update(config: Config, key: &str, value: &str) -> (r: Result<Config, String>)
        ensures
            match r {
                Ok(c) => is_field_name(key@) && c@ == updated_view(config@, key@, value@),
                Err(m) => !is_field_name(key@) && m@ == "Unknown config key: "@ + key@,
            },
    {
        let mut c = config;
        if same_text(key, "docker_socket") {
            c.docker_socket = String::from_str(value);
        } else if same_text(key, "default_image") {
            c.default_image = String::from_str(value);
        } else if same_text(key, "data_dir") {
            c.data_dir = String::from_str(value);
        } else if same_text(key, "auto_update") {
            c.auto_update = parse_bool_or(value, true);
        } else if same_text(key, "default_shell") {
            c.default_shell = String::from_str(value);
        } else if same_text(key, "workspace") {
            c.workspace = String::from_str(value);
        } else if same_text(key, "gpu_enabled") {
            c.gpu_enabled = parse_bool_or(value, false);
        } else if same_text(key, "network_mode") {
            c.network_mode = String::from_str(value);
        } else {
            return Err(String::from_str("Unknown config key: ").concat(key));
        }
        Ok(c)
    }
}

} // verus!
