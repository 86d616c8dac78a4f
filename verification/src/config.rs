//! Configuration for the four subcommand families, its defaults, and the
//! pure decisions of loading it: which source to read and how verbosity
//! maps to a log level.

use crate::network::{AccessControl, NetworkSettings};
use vstd::prelude::*;

verus! {

/// How much is logged.
#[derive(Copy, Clone, Debug, PartialEq, Eq, Structural)]
pub enum LogLevel {
    Off,
    Error,
    Warn,
    Info,
    Debug,
    Trace,
}

/// The log level for the given verbosity flags: quiet silences everything;
/// otherwise each repetition of the verbose flag raises the level, from
/// warnings up to tracing.
pub fn log_level_for(verbose: u8, quiet: bool) -> (r: LogLevel)
    ensures
        quiet ==> r == LogLevel::Off,
        !quiet && verbose == 0 ==> r == LogLevel::Warn,
        !quiet && verbose == 1 ==> r == LogLevel::Info,
        !quiet && verbose == 2 ==> r == LogLevel::Debug,
        !quiet && verbose >= 3 ==> r == LogLevel::Trace,
{
    if quiet {
        LogLevel::Off
    } else if verbose == 0 {
        LogLevel::Warn
    } else if verbose == 1 {
        LogLevel::Info
    } else if verbose == 2 {
        LogLevel::Debug
    } else {
        LogLevel::Trace
    }
}

/// Settings shared by every subcommand family.
#[derive(Clone, Debug, PartialEq, Eq, Default)]
pub struct CommonConfig {
    pub log_level: Option<LogLevel>,
    pub log_file: Option<String>,
}

/// Settings for the client's launch verb.
#[derive(Clone, Debug, PartialEq, Eq, Default)]
pub struct ClientLaunchConfig {
    pub bin: Option<String>,
    pub bind_server: Option<String>,
    pub args: Option<String>,
    pub options: Vec<(String, String)>,
}

/// Settings for the client family.
#[derive(Clone, Debug, PartialEq, Eq, Default)]
pub struct ClientConfig {
    pub common: CommonConfig,
    pub action_timeout: Option<u64>,
    pub repl_timeout: Option<u64>,
    pub connect_options: Vec<(String, String)>,
    pub launch: ClientLaunchConfig,
    pub network: NetworkSettings,
}

/// Settings for the generate family.
#[derive(Clone, Debug, PartialEq, Eq, Default)]
pub struct GenerateConfig {
    pub common: CommonConfig,
}

/// Settings for the manager family.
#[derive(Clone, Debug, PartialEq, Eq, Default)]
pub struct ManagerConfig {
    pub access: Option<AccessControl>,
    pub common: CommonConfig,
    pub network: NetworkSettings,
}

/// When the server shuts itself down.
#[derive(Copy, Clone, Debug, PartialEq, Eq, Structural)]
pub enum Shutdown {
    /// Never shuts down on its own.
    Never,
    /// Shuts down after this many seconds of lifetime.
    After { seconds: u64 },
    /// Shuts down after this many seconds without an active connection.
    Lonely { seconds: u64 },
}

/// Settings for the server's listen verb.
#[derive(Clone, Debug, PartialEq, Eq, Default)]
pub struct ServerListenConfig {
    pub host: Option<String>,
    pub port_start: Option<u16>,
    pub port_end: Option<u16>,
    pub use_ipv6: bool,
    pub shutdown: Option<Shutdown>,
    pub current_dir: Option<String>,
}

/// Settings for the server family.
#[derive(Clone, Debug, PartialEq, Eq, Default)]
pub struct ServerConfig {
    pub common: CommonConfig,
    pub listen: ServerListenConfig,
}

/// Configuration settings for the whole program.
#[derive(Clone, Debug, PartialEq, Eq)]
pub struct Config {
    pub client: ClientConfig,
    pub generate: GenerateConfig,
    pub manager: ManagerConfig,
    pub server: ServerConfig,
}

impl Config {
    /// The default configuration as raw configuration text, the same text
    /// on every call.
    pub fn default_raw_str() -> (r: &'static str)
        ensures
            r@ == ("\n[client]\nlog_level = \"info\"\n\n[client.action]\ntimeout = 0\n\n[client.launch]\nbin = \"distant\"\nbind_server = \"ssh\"\nargs = \"\"\n\n[client.repl]\ntimeout = 0\n\n[generate]\nlog_level = \"info\"\n\n[manager]\nlog_level = \"info\"\naccess = \"owner\"\n\n[server]\nlog_level = \"info\"\n\n[server.listen]\nhost = \"any\"\nport = 0\nshutdown = \"never\"\n")@,
    {
        "\n[client]\nlog_level = \"info\"\n\n[client.action]\ntimeout = 0\n\n[client.launch]\nbin = \"distant\"\nbind_server = \"ssh\"\nargs = \"\"\n\n[client.repl]\ntimeout = 0\n\n[generate]\nlog_level = \"info\"\n\n[manager]\nlog_level = \"info\"\naccess = \"owner\"\n\n[server]\nlog_level = \"info\"\n\n[server.listen]\nhost = \"any\"\nport = 0\nshutdown = \"never\"\n"
    }
}

impl Default for Config {
    /// The built-in defaults: every family logs at the info level, the
    /// client launches the `distant` binary over ssh with empty extra
    /// arguments and zero timeouts, the manager grants owner-only access,
    /// and the server listens anywhere on an ephemeral port.
    fn default() -> (r: Config)
        ensures
            r.client.common.log_level == Option::Some(LogLevel::Info),
            r.client.common.log_file is None,
            r.client.action_timeout == Option::Some(0u64),
            r.client.repl_timeout == Option::Some(0u64),
            r.client.connect_options@.len() == 0,
            r.client.launch.bin matches Option::Some(b) && b@ == "distant"@,
            r.client.launch.bind_server matches Option::Some(b) && b@ == "ssh"@,
            r.client.launch.args matches Option::Some(a) && a@ == ""@,
            r.client.launch.options@.len() == 0,
            r.client.network.unix_socket is None,
            r.client.network.windows_pipe is None,
            r.generate.common.log_level == Option::Some(LogLevel::Info),
            r.generate.common.log_file is None,
            r.manager.access == Option::Some(AccessControl::Owner),
            r.manager.common.log_level == Option::Some(LogLevel::Info),
            r.manager.network.unix_socket is None,
            r.manager.network.windows_pipe is None,
            r.server.common.log_level == Option::Some(LogLevel::Info),
            r.server.listen.host matches Option::Some(h) && h@ == "any"@,
            r.server.listen.port_start == Option::Some(0u16),
            r.server.listen.port_end is None,
            !r.server.listen.use_ipv6,
            r.server.listen.shutdown == Option::Some(Shutdown::Never),
            r.server.listen.current_dir is None,
    {
        Config {
            client: ClientConfig {
                common: CommonConfig { log_level: Some(LogLevel::Info), log_file: None },
                action_timeout: Some(0),
                repl_timeout: Some(0),
                connect_options: Vec::new(),
                launch: ClientLaunchConfig {
                    bin: Some(("distant").to_owned()),
                    bind_server: Some(("ssh").to_owned()),
                    args: Some(("").to_owned()),
                    options: Vec::new(),
                },
                network: NetworkSettings { unix_socket: None, windows_pipe: None },
            },
            generate: GenerateConfig {
                common: CommonConfig { log_level: Some(LogLevel::Info), log_file: None },
            },
            manager: ManagerConfig {
                access: Some(AccessControl::Owner),
                common: CommonConfig { log_level: Some(LogLevel::Info), log_file: None },
                network: NetworkSettings { unix_socket: None, windows_pipe: None },
            },
            server: ServerConfig {
                common: CommonConfig { log_level: Some(LogLevel::Info), log_file: None },
                listen: ServerListenConfig {
                    host: Some(("any").to_owned()),
                    port_start: Some(0),
                    port_end: None,
                    use_ipv6: false,
                    shutdown: Some(Shutdown::Never),
                    current_dir: None,
                },
            },
        }
    }
}

impl CommonConfig {
    /// Merges these settings with `other`; these take priority key by key.
    pub fn merge(&mut self, other: CommonConfig)
        ensures
            final(self).log_level == (if old(self).log_level is Some {
                old(self).log_level
            } else {
                other.log_level
            }),
            final(self).log_file == (if old(self).log_file is Some {
                old(self).log_file
            } else {
                other.log_file
            }),
    {
        if self.log_level.is_none() {
            self.log_level = other.log_level;
        }
        if self.log_file.is_none() {
            self.log_file = other.log_file;
        }
    }
}

impl ClientLaunchConfig {
    /// Merges these settings with `other`; these take priority key by key.
    /// An empty option list counts as unset.
    pub fn merge(&mut self, other: ClientLaunchConfig)
        ensures
            final(self).bin == (if old(self).bin is Some {
                old(self).bin
            } else {
                other.bin
            }),
            final(self).bind_server == (if old(self).bind_server is Some {
                old(self).bind_server
            } else {
                other.bind_server
            }),
            final(self).args == (if old(self).args is Some {
                old(self).args
            } else {
                other.args
            }),
            final(self).options == (if old(self).options@.len() > 0 {
                old(self).options
            } else {
                other.options
            }),
    {
        if self.bin.is_none() {
            self.bin = other.bin;
        }
        if self.bind_server.is_none() {
            self.bind_server = other.bind_server;
        }
        if self.args.is_none() {
            self.args = other.args;
        }
        if self.options.is_empty() {
            self.options = other.options;
        }
    }
}

impl ClientConfig {
    /// Merges these settings with `other`; these take priority key by key.
    pub fn merge(&mut self, other: ClientConfig)
        ensures
            final(self).action_timeout == (if old(self).action_timeout is Some {
                old(self).action_timeout
            } else {
                other.action_timeout
            }),
            final(self).repl_timeout == (if old(self).repl_timeout is Some {
                old(self).repl_timeout
            } else {
                other.repl_timeout
            }),
            final(self).connect_options == (if old(self).connect_options@.len() > 0 {
                old(self).connect_options
            } else {
                other.connect_options
            }),
            final(self).common.log_level == (if old(self).common.log_level is Some {
                old(self).common.log_level
            } else {
                other.common.log_level
            }),
            final(self).common.log_file == (if old(self).common.log_file is Some {
                old(self).common.log_file
            } else {
                other.common.log_file
            }),
            final(self).launch.bin == (if old(self).launch.bin is Some {
                old(self).launch.bin
            } else {
                other.launch.bin
            }),
            final(self).launch.bind_server == (if old(self).launch.bind_server is Some {
                old(self).launch.bind_server
            } else {
                other.launch.bind_server
            }),
            final(self).launch.args == (if old(self).launch.args is Some {
                old(self).launch.args
            } else {
                other.launch.args
            }),
            final(self).launch.options == (if old(self).launch.options@.len() > 0 {
                old(self).launch.options
            } else {
                other.launch.options
            }),
            final(self).network.unix_socket == (if old(self).network.unix_socket is Some {
                old(self).network.unix_socket
            } else {
                other.network.unix_socket
            }),
            final(self).network.windows_pipe == (if old(self).network.windows_pipe is Some {
                old(self).network.windows_pipe
            } else {
                other.network.windows_pipe
            }),
    {
        self.common.merge(other.common);
        if self.action_timeout.is_none() {
            self.action_timeout = other.action_timeout;
        }
        if self.repl_timeout.is_none() {
            self.repl_timeout = other.repl_timeout;
        }
        if self.connect_options.is_empty() {
            self.connect_options = other.connect_options;
        }
        self.launch.merge(other.launch);
        self.network.merge(other.network);
    }
}

impl GenerateConfig {
    /// Merges these settings with `other`; these take priority key by key.
    pub fn merge(&mut self, other: GenerateConfig)
        ensures
            final(self).common.log_level == (if old(self).common.log_level is Some {
                old(self).common.log_level
            } else {
                other.common.log_level
            }),
            final(self).common.log_file == (if old(self).common.log_file is Some {
                old(self).common.log_file
            } else {
                other.common.log_file
            }),
    {
        self.common.merge(other.common);
    }
}

impl ManagerConfig {
    /// Merges these settings with `other`; these take priority key by key.
    pub fn merge(&mut self, other: ManagerConfig)
        ensures
            final(self).access == (if old(self).access is Some {
                old(self).access
            } else {
                other.access
            }),
            final(self).common.log_level == (if old(self).common.log_level is Some {
                old(self).common.log_level
            } else {
                other.common.log_level
            }),
            final(self).common.log_file == (if old(self).common.log_file is Some {
                old(self).common.log_file
            } else {
                other.common.log_file
            }),
            final(self).network.unix_socket == (if old(self).network.unix_socket is Some {
                old(self).network.unix_socket
            } else {
                other.network.unix_socket
            }),
            final(self).network.windows_pipe == (if old(self).network.windows_pipe is Some {
                old(self).network.windows_pipe
            } else {
                other.network.windows_pipe
            }),
    {
        if self.access.is_none() {
            self.access = other.access;
        }
        self.common.merge(other.common);
        self.network.merge(other.network);
    }
}

impl ServerListenConfig {
    /// Merges these settings with `other`; these take priority key by key.
    /// The boolean keeps the higher-priority value: the model cannot tell a
    /// key set to false from an absent one.
    pub fn merge(&mut self, other: ServerListenConfig)
        ensures
            final(self).host == (if old(self).host is Some {
                old(self).host
            } else {
                other.host
            }),
            final(self).port_start == (if old(self).port_start is Some {
                old(self).port_start
            } else {
                other.port_start
            }),
            final(self).port_end == (if old(self).port_end is Some {
                old(self).port_end
            } else {
                other.port_end
            }),
            final(self).use_ipv6 == old(self).use_ipv6,
            final(self).shutdown == (if old(self).shutdown is Some {
                old(self).shutdown
            } else {
                other.shutdown
            }),
            final(self).current_dir == (if old(self).current_dir is Some {
                old(self).current_dir
            } else {
                other.current_dir
            }),
    {
        if self.host.is_none() {
            self.host = other.host;
        }
        if self.port_start.is_none() {
            self.port_start = other.port_start;
        }
        if self.port_end.is_none() {
            self.port_end = other.port_end;
        }
        if self.shutdown.is_none() {
            self.shutdown = other.shutdown;
        }
        if self.current_dir.is_none() {
            self.current_dir = other.current_dir;
        }
    }
}

impl ServerConfig {
    /// Merges these settings with `other`; these take priority key by key.
    pub fn merge(&mut self, other: ServerConfig)
        ensures
            final(self).common.log_level == (if old(self).common.log_level is Some {
                old(self).common.log_level
            } else {
                other.common.log_level
            }),
            final(self).common.log_file == (if old(self).common.log_file is Some {
                old(self).common.log_file
            } else {
                other.common.log_file
            }),
            final(self).listen.host == (if old(self).listen.host is Some {
                old(self).listen.host
            } else {
                other.listen.host
            }),
            final(self).listen.port_start == (if old(self).listen.port_start is Some {
                old(self).listen.port_start
            } else {
                other.listen.port_start
            }),
            final(self).listen.port_end == (if old(self).listen.port_end is Some {
                old(self).listen.port_end
            } else {
                other.listen.port_end
            }),
            final(self).listen.use_ipv6 == old(self).listen.use_ipv6,
            final(self).listen.shutdown == (if old(self).listen.shutdown is Some {
                old(self).listen.shutdown
            } else {
                other.listen.shutdown
            }),
            final(self).listen.current_dir == (if old(self).listen.current_dir is Some {
                old(self).listen.current_dir
            } else {
                other.listen.current_dir
            }),
    {
        self.common.merge(other.common);
        self.listen.merge(other.listen);
    }
}

impl Config {
    /// Merges this configuration with `other`, key by key, this one taking
    /// priority: merging the user file over the global one gives the user's
    /// values precedence wherever both set a key.
    pub fn merge(&mut self, other: Config)
        ensures
            final(self).client.common.log_level == (if old(self).client.common.log_level
                is Some {
                old(self).client.common.log_level
            } else {
                other.client.common.log_level
            }),
            final(self).client.action_timeout == (if old(self).client.action_timeout is Some {
                old(self).client.action_timeout
            } else {
                other.client.action_timeout
            }),
            final(self).client.launch.bin == (if old(self).client.launch.bin is Some {
                old(self).client.launch.bin
            } else {
                other.client.launch.bin
            }),
            final(self).client.network.unix_socket == (if old(self).client.network.unix_socket
                is Some {
                old(self).client.network.unix_socket
            } else {
                other.client.network.unix_socket
            }),
            final(self).generate.common.log_level == (if old(self).generate.common.log_level
                is Some {
                old(self).generate.common.log_level
            } else {
                other.generate.common.log_level
            }),
            final(self).manager.access == (if old(self).manager.access is Some {
                old(self).manager.access
            } else {
                other.manager.access
            }),
            final(self).server.common.log_level == (if old(self).server.common.log_level
                is Some {
                old(self).server.common.log_level
            } else {
                other.server.common.log_level
            }),
            final(self).server.listen.shutdown == (if old(self).server.listen.shutdown is Some {
                old(self).server.listen.shutdown
            } else {
                other.server.listen.shutdown
            }),
    {
        self.client.merge(other.client);
        self.generate.merge(other.generate);
        self.manager.merge(other.manager);
        self.server.merge(other.server);
    }
}

/// Where the configuration is read from.
#[derive(Clone, Debug, PartialEq, Eq)]
pub enum ConfigSource {
    /// A caller-supplied file is used by itself.
    Custom(String),
    /// The standard files that exist are loaded and merged, the global one
    /// first.
    Standard { load_global: bool, load_user: bool },
    /// No path exists; the built-in defaults are used.
    BuiltIn,
}

/// Decides where the configuration comes from: a custom path wins outright;
/// otherwise whichever standard files exist are merged; with none, the
/// built-in defaults stand.
pub fn choose_config_source(custom: Option<String>, global_exists: bool, user_exists: bool) -> (r:
    ConfigSource)
    ensures
        custom matches Option::Some(p) ==> r == ConfigSource::Custom(p),
        custom is None && (global_exists || user_exists) ==> r == (ConfigSource::Standard {
            load_global: global_exists,
            load_user: user_exists,
        }),
        custom is None && !global_exists && !user_exists ==> r == ConfigSource::BuiltIn,
{
    match custom {
        Option::Some(p) => ConfigSource::Custom(p),
        Option::None => {
            if global_exists || user_exists {
                ConfigSource::Standard { load_global: global_exists, load_user: user_exists }
            } else {
                ConfigSource::BuiltIn
            }
        },
    }
}

/// The outcome of editing a file that may be missing: a missing file is no
/// error, any other failure stands.
pub fn suppress_not_found(outcome: Result<(), crate::data::ResponseErrorKind>) -> (r: Result<
    (),
    crate::data::ResponseErrorKind,
>)
    ensures
        outcome == Result::<(), crate::data::ResponseErrorKind>::Err(
            crate::data::ResponseErrorKind::NotFound,
        ) ==> r is Ok,
        outcome != Result::<(), crate::data::ResponseErrorKind>::Err(
            crate::data::ResponseErrorKind::NotFound,
        ) ==> r == outcome,
{
    match outcome {
        Result::Err(crate::data::ResponseErrorKind::NotFound) => Ok(()),
        other => other,
    }
}

} // verus!
