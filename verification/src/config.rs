//! Node configuration as plain values.
//!
//! The daemon layers its configuration: command-line arguments override
//! environment variables, which override a custom configuration file, which
//! overrides the built-in defaults. Reading files, the environment and the
//! command line is the host front end's job; this module owns the layered
//! values themselves and the override step that merges command-line
//! arguments over a configuration read from files.

use vstd::prelude::*;

verus! {

/// View-level equality of two string slices.
pub(crate) fn str_eq(a: &str, b: &str) -> (r: bool)
    ensures
        r == (a@ == b@),
{
    let left = String::from_str(a);
    let right = String::from_str(b);
    left == right
}

/// Log levels, from most to least verbose; `SILENT` disables logging.
#[derive(Clone, Copy, Debug, PartialEq, Eq, Structural)]
pub enum LogLevel {
    TRACE,
    DEBUG,
    INFO,
    WARN,
    ERROR,
    CRITICAL,
    SILENT,
}

/// The level that a variant name denotes, if any.
pub open spec fn spec_log_level_from_name(s: Seq<char>) -> Option<LogLevel> {
    if s == "TRACE"@ {
        Some(LogLevel::TRACE)
    } else if s == "DEBUG"@ {
        Some(LogLevel::DEBUG)
    } else if s == "INFO"@ {
        Some(LogLevel::INFO)
    } else if s == "WARN"@ {
        Some(LogLevel::WARN)
    } else if s == "ERROR"@ {
        Some(LogLevel::ERROR)
    } else if s == "CRITICAL"@ {
        Some(LogLevel::CRITICAL)
    } else if s == "SILENT"@ {
        Some(LogLevel::SILENT)
    } else {
        None
    }
}

/// The variant name that [`LogLevel::name`] returns.
pub open spec fn spec_log_level_name(l: LogLevel) -> Seq<char> {
    match l {
        LogLevel::TRACE => "TRACE"@,
        LogLevel::DEBUG => "DEBUG"@,
        LogLevel::INFO => "INFO"@,
        LogLevel::WARN => "WARN"@,
        LogLevel::ERROR => "ERROR"@,
        LogLevel::CRITICAL => "CRITICAL"@,
        LogLevel::SILENT => "SILENT"@,
    }
}

impl LogLevel {
    /// Parse a variant name as the command line supplies it.
    pub fn from_name(s: &str) -> (r: Option<LogLevel>)
        ensures
            r == spec_log_level_from_name(s@),
    {
        if str_eq(s, "TRACE") {
            Some(LogLevel::TRACE)
        } else if str_eq(s, "DEBUG") {
            Some(LogLevel::DEBUG)
        } else if str_eq(s, "INFO") {
            Some(LogLevel::INFO)
        } else if str_eq(s, "WARN") {
            Some(LogLevel::WARN)
        } else if str_eq(s, "ERROR") {
            Some(LogLevel::ERROR)
        } else if str_eq(s, "CRITICAL") {
            Some(LogLevel::CRITICAL)
        } else if str_eq(s, "SILENT") {
            Some(LogLevel::SILENT)
        } else {
            None
        }
    }

    /// The variant's name, as the logger backend expects it.
    pub fn name(&self) -> (r: String)
        ensures
            r@ == spec_log_level_name(*self),
    {
        match self {
            LogLevel::TRACE => String::from_str("TRACE"),
            LogLevel::DEBUG => String::from_str("DEBUG"),
            LogLevel::INFO => String::from_str("INFO"),
            LogLevel::WARN => String::from_str("WARN"),
            LogLevel::ERROR => String::from_str("ERROR"),
            LogLevel::CRITICAL => String::from_str("CRITICAL"),
            LogLevel::SILENT => String::from_str("SILENT"),
        }
    }
}

/// The roles a node can run in.
#[derive(Clone, Copy, Debug, PartialEq, Eq, Structural)]
pub enum Role {
    FULL,
    LIGHT,
    AUTHORITY,
}

/// The role that a variant name denotes, if any.
pub open spec fn spec_role_from_name(s: Seq<char>) -> Option<Role> {
    if s == "FULL"@ {
        Some(Role::FULL)
    } else if s == "LIGHT"@ {
        Some(Role::LIGHT)
    } else if s == "AUTHORITY"@ {
        Some(Role::AUTHORITY)
    } else {
        None
    }
}

impl Role {
    /// Parse a variant name as the command line supplies it.
    pub fn from_name(s: &str) -> (r: Option<Role>)
        ensures
            r == spec_role_from_name(s@),
    {
        if str_eq(s, "FULL") {
            Some(Role::FULL)
        } else if str_eq(s, "LIGHT") {
            Some(Role::LIGHT)
        } else if str_eq(s, "AUTHORITY") {
            Some(Role::AUTHORITY)
        } else {
            None
        }
    }
}

/// Logging settings.
#[derive(Debug)]
pub struct Log {
    /// The level below which log records are discarded.
    pub log_level: LogLevel,
}

/// Settings of the legacy HTTP RPC API server.
#[derive(Debug)]
pub struct Rpc {
    /// Disable the RPC server.
    pub disable_rpc: bool,
    /// HTTP RPC listening interface.
    pub rpc_addr: String,
    /// HTTP RPC listening port.
    pub rpc_port: u16,
}

/// Wallet daemon settings. The password is sourced from an environment
/// variable, never stored here.
#[derive(Debug)]
pub struct Walletd {
    /// User name for wallet daemon authentication.
    pub walletd_user: String,
    /// Name of the environment variable that holds the wallet daemon
    /// password.
    pub walletd_env_var: String,
}

/// Node server settings.
#[derive(Debug)]
pub struct Server {
    /// The network to join.
    pub network: String,
    /// The role this node runs in.
    pub role: Role,
    /// Name of the environment variable that holds the node key.
    pub node_key_env: String,
    /// Port number for the node to use.
    pub port: u16,
    /// Bootnodes to get into the network.
    pub bootnodes: String,
    /// Base path for the database.
    pub base_path: String,
}

/// The full configuration of a node, assembled by the host front end from
/// defaults, files, environment variables and the command line.
#[derive(Debug)]
pub struct FactomConfig {
    /// Custom configuration file location; empty when none was given.
    pub custom_config: String,
    /// Node server settings.
    pub server: Server,
    /// Logging settings.
    pub log: Log,
    /// RPC API settings.
    pub rpc: Rpc,
    /// Wallet daemon settings.
    pub walletd: Walletd,
    /// Shell to generate completions for, when completion output was
    /// requested instead of a node start.
    pub completions: Option<String>,
}

impl Default for Log {
    /// The default logging settings.
    fn default() -> (r: Log)
        ensures
            r.log_level == LogLevel::DEBUG,
    {
        Log { log_level: LogLevel::DEBUG }
    }
}

impl Default for Rpc {
    /// The default RPC settings: enabled, on the local interface.
    fn default() -> (r: Rpc)
        ensures
            !r.disable_rpc,
            r.rpc_addr@ == "127.0.0.1"@,
            r.rpc_port == 8088,
    {
        Rpc { disable_rpc: false, rpc_addr: String::from_str("127.0.0.1"), rpc_port: 8088 }
    }
}

impl Default for Walletd {
    /// The default wallet daemon settings: no user, no password variable.
    fn default() -> (r: Walletd)
        ensures
            r.walletd_user@ == ""@,
            r.walletd_env_var@ == ""@,
    {
        proof {
            reveal_strlit("");
        }
        Walletd { walletd_user: String::new(), walletd_env_var: String::new() }
    }
}

impl Default for Server {
    /// The default server settings: a full node on the local network.
    fn default() -> (r: Server)
        ensures
            r.network@ == "local"@,
            r.role == Role::FULL,
            r.node_key_env@ == ""@,
            r.port == 30333,
            r.bootnodes@ == ""@,
            r.base_path@ == ""@,
    {
        proof {
            reveal_strlit("");
        }
        Server {
            network: String::from_str("local"),
            role: Role::FULL,
            node_key_env: String::new(),
            port: 30333,
            bootnodes: String::new(),
            base_path: String::new(),
        }
    }
}

impl Default for FactomConfig {
    /// The built-in defaults, the lowest layer of the configuration.
    fn default() -> (r: FactomConfig)
        ensures
            r.custom_config@ == ""@,
            r.server.network@ == "local"@,
            r.server.role == Role::FULL,
            r.server.node_key_env@ == ""@,
            r.server.port == 30333,
            r.server.bootnodes@ == ""@,
            r.server.base_path@ == ""@,
            r.log.log_level == LogLevel::DEBUG,
            !r.rpc.disable_rpc,
            r.rpc.rpc_addr@ == "127.0.0.1"@,
            r.rpc.rpc_port == 8088,
            r.walletd.walletd_user@ == ""@,
            r.walletd.walletd_env_var@ == ""@,
            r.completions is None,
    {
        proof {
            reveal_strlit("");
        }
        FactomConfig {
            custom_config: String::new(),
            server: Server::default(),
            log: Log::default(),
            rpc: Rpc::default(),
            walletd: Walletd::default(),
            completions: None,
        }
    }
}

/// The command-line arguments that may override a configuration read from
/// files and the environment. A field is `Some` exactly when the argument
/// occurred on the command line; `disable_rpc` is a flag, so its bare
/// presence is the override.
#[derive(Debug)]
pub struct CliOverrides {
    /// Override for the network to join.
    pub network: Option<String>,
    /// Override for the node's role.
    pub role: Option<Role>,
    /// Override for the node-key environment variable name.
    pub node_key_env: Option<String>,
    /// Override for the node port.
    pub port: Option<u16>,
    /// Override for the bootnodes.
    pub bootnodes: Option<String>,
    /// Override for the database base path.
    pub base_path: Option<String>,
    /// Override for the log level.
    pub log_level: Option<LogLevel>,
    /// Override for the wallet daemon user.
    pub walletd_user: Option<String>,
    /// Override for the wallet daemon password variable name.
    pub walletd_env_var: Option<String>,
    /// Override for the RPC listening interface.
    pub rpc_addr: Option<String>,
    /// Override for the RPC listening port.
    pub rpc_port: Option<u16>,
    /// Whether the RPC server was disabled on the command line.
    pub disable_rpc: bool,
}

impl Default for CliOverrides {
    /// No overrides: an empty command line.
    fn default() -> (r: CliOverrides)
        ensures
            r.network is None,
            r.role is None,
            r.node_key_env is None,
            r.port is None,
            r.bootnodes is None,
            r.base_path is None,
            r.log_level is None,
            r.walletd_user is None,
            r.walletd_env_var is None,
            r.rpc_addr is None,
            r.rpc_port is None,
            !r.disable_rpc,
    {
        CliOverrides {
            network: None,
            role: None,
            node_key_env: None,
            port: None,
            bootnodes: None,
            base_path: None,
            log_level: None,
            walletd_user: None,
            walletd_env_var: None,
            rpc_addr: None,
            rpc_port: None,
            disable_rpc: false,
        }
    }
}

impl FactomConfig {
    /// Overwrite configuration values read from files with the arguments
    /// that were supplied on the command line: every supplied argument
    /// wins, every absent one leaves the file value in place.
    pub fn check_cli(matches: CliOverrides, config: FactomConfig) -> (r: FactomConfig)
        ensures
            r.server.network@ == (match matches.network {
                Some(v) => v@,
                None => config.server.network@,
            }),
            r.server.role == (match matches.role {
                Some(v) => v,
                None => config.server.role,
            }),
            r.server.node_key_env@ == (match matches.node_key_env {
                Some(v) => v@,
                None => config.server.node_key_env@,
            }),
            r.server.port == (match matches.port {
                Some(v) => v,
                None => config.server.port,
            }),
            r.server.bootnodes@ == (match matches.bootnodes {
                Some(v) => v@,
                None => config.server.bootnodes@,
            }),
            r.server.base_path@ == (match matches.base_path {
                Some(v) => v@,
                None => config.server.base_path@,
            }),
            r.log.log_level == (match matches.log_level {
                Some(v) => v,
                None => config.log.log_level,
            }),
            r.walletd.walletd_user@ == (match matches.walletd_user {
                Some(v) => v@,
                None => config.walletd.walletd_user@,
            }),
            r.walletd.walletd_env_var@ == (match matches.walletd_env_var {
                Some(v) => v@,
                None => config.walletd.walletd_env_var@,
            }),
            r.rpc.rpc_addr@ == (match matches.rpc_addr {
                Some(v) => v@,
                None => config.rpc.rpc_addr@,
            }),
            r.rpc.rpc_port == (match matches.rpc_port {
                Some(v) => v,
                None => config.rpc.rpc_port,
            }),
            r.rpc.disable_rpc == (matches.disable_rpc || config.rpc.disable_rpc),
            r.custom_config == config.custom_config,
            r.completions == config.completions,
    {
        let mut config = config;
        if let Some(value) = matches.network {
            config.server.network = value;
        }
        if let Some(value) = matches.role {
            config.server.role = value;
        }
        if let Some(value) = matches.node_key_env {
            config.server.node_key_env = value;
        }
        if let Some(value) = matches.port {
            config.server.port = value;
        }
        if let Some(value) = matches.bootnodes {
            config.server.bootnodes = value;
        }
        if let Some(value) = matches.base_path {
            config.server.base_path = value;
        }
        if let Some(value) = matches.log_level {
            config.log.log_level = value;
        }
        if let Some(value) = matches.walletd_user {
            config.walletd.walletd_user = value;
        }
        if let Some(value) = matches.walletd_env_var {
            config.walletd.walletd_env_var = value;
        }
        if let Some(value) = matches.rpc_addr {
            config.rpc.rpc_addr = value;
        }
        if let Some(value) = matches.rpc_port {
            config.rpc.rpc_port = value;
        }
        if matches.disable_rpc {
            config.rpc.disable_rpc = true;
        }
        config
    }
}

} // verus!
