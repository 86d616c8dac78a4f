use distant::config::{
    choose_config_source, log_level_for, suppress_not_found, Config, ConfigSource, LogLevel,
    Shutdown,
};
use distant::data::{PtySize, ResponseErrorKind};
use distant::network::{AccessControl, NetworkSettings};
use distant::shell::{
    choose_shell, exit_outcome, initial_pty_size, needs_system_info, prepare_environment,
    resolve_cmd, SpawnExit,
};
use distant::text::{push_i32_dec, push_json_escaped, push_u64_dec};

#[test]
fn environment_gets_default_term() {
    let mut env = vec![(String::from("PATH"), String::from("/bin"))];
    prepare_environment(&mut env);
    assert_eq!(
        env,
        vec![
            (String::from("PATH"), String::from("/bin")),
            (String::from("TERM"), String::from("xterm-256color")),
        ]
    );
}

#[test]
fn environment_keeps_existing_term() {
    let mut env = vec![(String::from("TERM"), String::from("vt100"))];
    prepare_environment(&mut env);
    assert_eq!(env, vec![(String::from("TERM"), String::from("vt100"))]);
}

#[test]
fn shell_choice_follows_family() {
    assert_eq!(choose_shell("windows"), "cmd.exe");
    assert_eq!(choose_shell("Windows"), "cmd.exe");
    assert_eq!(choose_shell("unix"), "/bin/sh");
    assert!(needs_system_info(&None));
    assert!(!needs_system_info(&Some(String::from("/bin/bash"))));
    assert_eq!(resolve_cmd(Some(String::from("/bin/bash")), "unix"), "/bin/bash");
    assert_eq!(resolve_cmd(None, "WINDOWS"), "cmd.exe");
}

#[test]
fn pty_size_from_measurement() {
    assert_eq!(initial_pty_size(Some((80, 24))), Some(PtySize { rows: 24, cols: 80 }));
    assert_eq!(initial_pty_size(None), None);
}

#[test]
fn exit_code_forwards_low_byte() {
    // A shell exiting 7 surfaces as exit byte 7 locally.
    assert_eq!(exit_outcome(false, Some(7)), SpawnExit::Code(7));
    assert_eq!(exit_outcome(false, Some(263)), SpawnExit::Code(7));
    assert_eq!(exit_outcome(false, None), SpawnExit::Failure);
    assert_eq!(exit_outcome(true, Some(0)), SpawnExit::Success);
}

#[test]
fn log_level_mapping() {
    assert_eq!(log_level_for(0, true), LogLevel::Off);
    assert_eq!(log_level_for(5, true), LogLevel::Off);
    assert_eq!(log_level_for(0, false), LogLevel::Warn);
    assert_eq!(log_level_for(1, false), LogLevel::Info);
    assert_eq!(log_level_for(2, false), LogLevel::Debug);
    assert_eq!(log_level_for(3, false), LogLevel::Trace);
}

#[test]
fn access_control_modes() {
    assert_eq!(AccessControl::Owner.into_mode(), 0o600);
    assert_eq!(AccessControl::Group.into_mode(), 0o660);
    assert_eq!(AccessControl::Anyone.into_mode(), 0o666);
    assert_eq!(AccessControl::default(), AccessControl::Owner);
}

#[test]
fn network_settings_merge_prefers_self() {
    let mut mine = NetworkSettings {
        unix_socket: Some(String::from("/run/mine.sock")),
        windows_pipe: None,
    };
    let other = NetworkSettings {
        unix_socket: Some(String::from("/run/other.sock")),
        windows_pipe: Some(String::from("other-pipe")),
    };
    mine.merge(other);
    assert_eq!(mine.unix_socket.as_deref(), Some("/run/mine.sock"));
    assert_eq!(mine.windows_pipe.as_deref(), Some("other-pipe"));
    assert_eq!(mine.as_unix_socket_opt(), Some("/run/mine.sock"));
    assert_eq!(mine.as_windows_pipe_opt(), Some("other-pipe"));
}

#[test]
fn socket_candidates_fall_back_to_defaults() {
    let configured = NetworkSettings {
        unix_socket: Some(String::from("/run/custom.sock")),
        windows_pipe: Some(String::from("custom-pipe")),
    };
    assert_eq!(
        configured.to_unix_socket_path_candidates("/run/user.sock", "/run/global.sock"),
        vec![String::from("/run/custom.sock")]
    );
    assert_eq!(
        configured.to_windows_pipe_name_candidates("user-pipe", "global-pipe"),
        vec![String::from("custom-pipe")]
    );
    let bare = NetworkSettings::default();
    assert_eq!(
        bare.to_unix_socket_path_candidates("/run/user.sock", "/run/global.sock"),
        vec![String::from("/run/user.sock"), String::from("/run/global.sock")]
    );
    assert_eq!(
        bare.to_windows_pipe_name_candidates("user-pipe", "global-pipe"),
        vec![String::from("user-pipe"), String::from("global-pipe")]
    );
}

#[test]
fn config_source_selection() {
    assert_eq!(
        choose_config_source(Some(String::from("/etc/custom.toml")), true, true),
        ConfigSource::Custom(String::from("/etc/custom.toml"))
    );
    assert_eq!(
        choose_config_source(None, true, false),
        ConfigSource::Standard { load_global: true, load_user: false }
    );
    assert_eq!(choose_config_source(None, false, false), ConfigSource::BuiltIn);
}

#[test]
fn suppress_not_found_keeps_other_errors() {
    assert_eq!(suppress_not_found(Err(ResponseErrorKind::NotFound)), Ok(()));
    assert_eq!(
        suppress_not_found(Err(ResponseErrorKind::PermissionDenied)),
        Err(ResponseErrorKind::PermissionDenied)
    );
    assert_eq!(suppress_not_found(Ok(())), Ok(()));
}

#[test]
fn default_should_parse_config_from_internal_toml() {
    let config = Config::default();
    assert_eq!(config.client.common.log_level, Some(LogLevel::Info));
    assert_eq!(config.client.common.log_file, None);
    assert_eq!(config.client.action_timeout, Some(0));
    assert_eq!(config.client.repl_timeout, Some(0));
    assert!(config.client.connect_options.is_empty());
    assert_eq!(config.client.launch.bin.as_deref(), Some("distant"));
    assert_eq!(config.client.launch.bind_server.as_deref(), Some("ssh"));
    assert_eq!(config.client.launch.args.as_deref(), Some(""));
    assert_eq!(config.client.network.unix_socket, None);
    assert_eq!(config.client.network.windows_pipe, None);
    assert_eq!(config.generate.common.log_level, Some(LogLevel::Info));
    assert_eq!(config.manager.access, Some(AccessControl::Owner));
    assert_eq!(config.manager.common.log_level, Some(LogLevel::Info));
    assert_eq!(config.server.common.log_level, Some(LogLevel::Info));
    assert_eq!(config.server.listen.host.as_deref(), Some("any"));
    assert_eq!(config.server.listen.port_start, Some(0));
    assert!(!config.server.listen.use_ipv6);
    assert_eq!(config.server.listen.shutdown, Some(Shutdown::Never));
    assert_eq!(config.server.listen.current_dir, None);
    assert!(!Config::default_raw_str().is_empty());
}

#[test]
fn merge_prefers_user_values_per_key() {
    // The global file sets a log level everywhere and a shutdown policy;
    // the user file overrides only the client log level.
    let mut global = Config::default();
    global.client.common.log_level = Some(LogLevel::Error);
    global.manager.common.log_level = Some(LogLevel::Error);
    global.server.listen.shutdown = Some(Shutdown::After { seconds: 123 });
    global.client.network.unix_socket = Some(String::from("/run/global.sock"));

    let mut user = Config::default();
    user.client.common.log_level = Some(LogLevel::Trace);
    user.manager.common.log_level = None;
    user.manager.access = None;
    user.server.listen.shutdown = None;
    user.client.network.unix_socket = None;

    user.merge(global);
    // User wins where it set a key; the global value fills the gaps.
    assert_eq!(user.client.common.log_level, Some(LogLevel::Trace));
    assert_eq!(user.manager.common.log_level, Some(LogLevel::Error));
    assert_eq!(user.server.listen.shutdown, Some(Shutdown::After { seconds: 123 }));
    assert_eq!(user.client.network.unix_socket.as_deref(), Some("/run/global.sock"));
}

#[test]
fn decimal_renderings_are_exact() {
    let mut v: Vec<u8> = Vec::new();
    push_u64_dec(&mut v, 0);
    assert_eq!(v, b"0".to_vec());
    let mut v: Vec<u8> = Vec::new();
    push_u64_dec(&mut v, 12034);
    assert_eq!(v, b"12034".to_vec());
    let mut v: Vec<u8> = Vec::new();
    push_i32_dec(&mut v, -7);
    assert_eq!(v, b"-7".to_vec());
    let mut v: Vec<u8> = Vec::new();
    push_i32_dec(&mut v, i32::MIN);
    assert_eq!(v, b"-2147483648".to_vec());
}

#[test]
fn json_escaping_is_exact() {
    let mut v: Vec<u8> = Vec::new();
    push_json_escaped(&mut v, "a\"b\\c\nd\te\u{1}");
    assert_eq!(v, b"a\\\"b\\\\c\\nd\\te\\u0001".to_vec());
}
