use r2pipe::{build_spawn_command, classify_handshake_failure, Error, R2PipeSpawnOptions};

#[test]
fn default_options_use_tool_name() {
    let opts = R2PipeSpawnOptions::default();
    assert_eq!(opts.exepath, "r2");
    assert!(opts.args.is_empty());
}

#[test]
fn spawn_command_without_options() {
    let cmd = build_spawn_command("/bin/ls", &None);
    assert_eq!(cmd.exe, "r2");
    assert_eq!(cmd.argv, vec!["-q0".to_string(), "/bin/ls".to_string()]);
}

#[test]
fn spawn_command_keeps_extra_args_in_order() {
    let opts = R2PipeSpawnOptions {
        exepath: "radare2".to_string(),
        args: vec!["-e".to_string(), "bin.cache=true".to_string()],
    };
    let cmd = build_spawn_command("/bin/ls", &Some(opts));
    assert_eq!(cmd.exe, "radare2");
    assert_eq!(
        cmd.argv,
        vec![
            "-q0".to_string(),
            "-e".to_string(),
            "bin.cache=true".to_string(),
            "/bin/ls".to_string(),
        ]
    );
}

#[test]
fn handshake_end_of_stream_is_spawn_failure() {
    assert!(matches!(classify_handshake_failure(true), Error::SpawnFailed));
}

#[test]
fn handshake_other_failure_is_io_error() {
    assert!(matches!(classify_handshake_failure(false), Error::IoError));
}
